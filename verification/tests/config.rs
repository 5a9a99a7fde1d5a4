use std::path::PathBuf;
use todo_cli::config::{
    config_dir, get_db_path, GetDbPathError, APPLICATION, FILE_NAME, ORGANIZATION, QUALIFIER,
};

#[test]
fn the_application_is_known_by_three_names() {
    assert_eq!(QUALIFIER, "com");
    assert_eq!(ORGANIZATION, "dely");
    assert_eq!(APPLICATION, "todo");
}

#[test]
fn the_database_file_is_named_todos_db() {
    assert_eq!(FILE_NAME, "todos.db");
}

#[test]
fn the_database_file_lies_in_the_directory_that_was_created() {
    let dir = PathBuf::from("/home/alice/.config/todo");

    let path = get_db_path(Some(Ok(dir))).unwrap();

    assert_eq!(path, PathBuf::from("/home/alice/.config/todo/todos.db"));
}

#[test]
fn the_database_file_of_a_relative_directory_is_relative() {
    let path = get_db_path(Some(Ok(PathBuf::from("here")))).unwrap();

    assert_eq!(path, PathBuf::from("here").join("todos.db"));
    assert_ne!(path, PathBuf::from("here"));
}

#[test]
fn a_directory_that_could_not_be_created_is_reported_with_its_cause() {
    let cause = std::io::Error::new(std::io::ErrorKind::PermissionDenied, "not allowed");

    let error = get_db_path(Some(Err(cause))).unwrap_err();

    match &error {
        GetDbPathError::CreateDir(cause) => {
            assert_eq!(cause.kind(), std::io::ErrorKind::PermissionDenied);
            assert_eq!(cause.to_string(), "not allowed");
        }
        GetDbPathError::GetDbPath => panic!("the cause was lost"),
    }
    assert_eq!(error.message(), "Failed to create the directory");
}

#[test]
fn a_directory_that_is_not_known_is_reported() {
    let error = get_db_path(None).unwrap_err();

    assert!(matches!(error, GetDbPathError::GetDbPath));
    assert_eq!(error.message(), "Failed to get the database path");
}

#[test]
fn the_configuration_directory_ends_in_the_name_of_the_application() {
    if let Some(dir) = config_dir() {
        assert!(dir.is_absolute());
        assert!(dir.to_string_lossy().contains("todo"));
    }
}
