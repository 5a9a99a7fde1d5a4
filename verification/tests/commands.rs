use rusqlite::Connection;
use todo_cli::commands::{
    add_command, clear_command, new_todos, print_command, remove_command, set_done_command,
};
use todo_cli::db::{create_table, get_todos};
use todo_cli::select::{chosen_ids, done_ids, names, with_done};
use todo_cli::sqlite::Store;
use todo_cli::todo::Todo;

fn store_with(titles: &[&str]) -> Store {
    let mut connection = Store::new(Connection::open_in_memory().unwrap());
    create_table(&mut connection).unwrap();
    let titles = titles.iter().map(|title| title.to_string()).collect();
    add_command(&mut connection, titles).unwrap();
    connection
}

fn item(id: usize, title: &str, done: bool) -> Todo {
    Todo { id, title: title.to_string(), done }
}

fn summary(todos: &[Todo]) -> Vec<(usize, String, bool)> {
    todos.iter().map(|todo| (todo.id, todo.title.clone(), todo.done)).collect()
}

#[test]
fn test_add_command() {
    let mut connection = Store::new(Connection::open_in_memory().unwrap());
    create_table(&mut connection).unwrap();

    let titles = vec!["title1".to_string(), "title2".to_string()];
    add_command(&mut connection, titles).unwrap();

    let todos = get_todos(&mut connection).unwrap();
    assert_eq!(todos.len(), 2);
    assert_eq!(todos[0].title, "title1");
    assert_eq!(todos[1].title, "title2");
}

#[test]
fn test_set_done_command() {
    let mut connection = Store::new(Connection::open_in_memory().unwrap());
    create_table(&mut connection).unwrap();

    let titles = vec!["title1".to_string(), "title2".to_string()];
    add_command(&mut connection, titles).unwrap();

    let todos = get_todos(&mut connection).unwrap();
    assert_eq!(todos.len(), 2);
    assert_eq!(todos[0].done, false);
    assert_eq!(todos[1].done, false);

    set_done_command(&mut connection, vec![0], true).unwrap();

    let todos = get_todos(&mut connection).unwrap();
    assert_eq!(todos.len(), 2);
    assert_eq!(todos[0].done, true);
    assert_eq!(todos[1].done, false);
}

#[test]
fn test_remove_command() {
    let mut connection = Store::new(Connection::open_in_memory().unwrap());
    create_table(&mut connection).unwrap();

    let titles = vec!["title1".to_string(), "title2".to_string()];
    add_command(&mut connection, titles).unwrap();

    let todos = get_todos(&mut connection).unwrap();
    assert_eq!(todos.len(), 2);

    remove_command(&mut connection, vec![0]).unwrap();

    let todos = get_todos(&mut connection).unwrap();
    assert_eq!(todos.len(), 1);
    assert_eq!(todos[0].title, "title2");
}

#[test]
fn adding_two_titles_lists_them_numbered() {
    let mut connection = store_with(&["a", "b"]);

    let lines = print_command(&mut connection).unwrap();

    assert_eq!(lines, vec!["0: a".to_string(), "1: b".to_string()]);
}

#[test]
fn add_command_takes_an_empty_title_and_no_titles() {
    let mut connection = store_with(&[""]);
    add_command(&mut connection, Vec::new()).unwrap();

    let todos = get_todos(&mut connection).unwrap();
    assert_eq!(todos.len(), 1);
    assert_eq!(todos[0].title, "");
    assert_eq!(print_command(&mut connection).unwrap(), vec!["0: ".to_string()]);
}

#[test]
fn marking_the_first_of_two_changes_only_its_flag() {
    let mut connection = store_with(&["title1", "title2"]);
    let before = get_todos(&mut connection).unwrap();

    set_done_command(&mut connection, vec![0], true).unwrap();

    let after = get_todos(&mut connection).unwrap();
    assert_eq!(
        summary(&after),
        vec![
            (before[0].id, "title1".to_string(), true),
            (before[1].id, "title2".to_string(), false),
        ]
    );
    assert_eq!(
        print_command(&mut connection).unwrap(),
        vec!["0: \u{1b}[9mtitle1\u{1b}[0m".to_string(), "1: title2".to_string()]
    );
}

#[test]
fn marking_undone_restores_the_plain_line() {
    let mut connection = store_with(&["title1", "title2"]);
    set_done_command(&mut connection, vec![0, 1], true).unwrap();

    set_done_command(&mut connection, vec![1], false).unwrap();

    let todos = get_todos(&mut connection).unwrap();
    assert_eq!(todos[0].done, true);
    assert_eq!(todos[1].done, false);
    assert_eq!(
        print_command(&mut connection).unwrap(),
        vec!["0: \u{1b}[9mtitle1\u{1b}[0m".to_string(), "1: title2".to_string()]
    );
}

#[test]
fn removing_the_first_of_two_moves_the_second_up() {
    let mut connection = store_with(&["title1", "title2"]);

    remove_command(&mut connection, vec![0]).unwrap();

    let todos = get_todos(&mut connection).unwrap();
    assert_eq!(todos.len(), 1);
    assert_eq!(todos[0].title, "title2");
    assert_eq!(print_command(&mut connection).unwrap(), vec!["0: title2".to_string()]);
}

#[test]
fn positions_follow_the_listing_not_the_ids() {
    let mut connection = store_with(&["a", "b", "c"]);
    remove_command(&mut connection, vec![0]).unwrap();

    set_done_command(&mut connection, vec![1], true).unwrap();
    remove_command(&mut connection, vec![0]).unwrap();

    let todos = get_todos(&mut connection).unwrap();
    assert_eq!(todos.len(), 1);
    assert_eq!(todos[0].title, "c");
    assert_eq!(todos[0].done, true);
}

#[test]
fn clear_leaves_the_item_that_is_not_done_when_the_first_is_done() {
    let mut connection = store_with(&["first", "second"]);
    set_done_command(&mut connection, vec![0], true).unwrap();

    clear_command(&mut connection).unwrap();

    let todos = get_todos(&mut connection).unwrap();
    assert_eq!(todos.len(), 1);
    assert_eq!(todos[0].title, "second");
    assert_eq!(todos[0].done, false);
}

#[test]
fn clear_leaves_the_item_that_is_not_done_when_the_second_is_done() {
    let mut connection = store_with(&["first", "second"]);
    set_done_command(&mut connection, vec![1], true).unwrap();

    clear_command(&mut connection).unwrap();

    let todos = get_todos(&mut connection).unwrap();
    assert_eq!(todos.len(), 1);
    assert_eq!(todos[0].title, "first");
    assert_eq!(todos[0].done, false);
}

#[test]
fn clear_without_done_items_removes_nothing() {
    let mut connection = store_with(&["a", "b"]);

    clear_command(&mut connection).unwrap();

    assert_eq!(get_todos(&mut connection).unwrap().len(), 2);
}

#[test]
fn positions_beyond_the_list_change_nothing() {
    let mut connection = store_with(&["a", "b"]);
    set_done_command(&mut connection, vec![1], true).unwrap();
    let before = summary(&get_todos(&mut connection).unwrap());

    set_done_command(&mut connection, vec![2, 100, usize::MAX], true).unwrap();
    assert_eq!(summary(&get_todos(&mut connection).unwrap()), before);

    set_done_command(&mut connection, vec![2, usize::MAX], false).unwrap();
    assert_eq!(summary(&get_todos(&mut connection).unwrap()), before);

    remove_command(&mut connection, vec![2, 100, usize::MAX]).unwrap();
    assert_eq!(summary(&get_todos(&mut connection).unwrap()), before);
}

#[test]
fn commands_without_positions_change_nothing() {
    let mut connection = store_with(&["a"]);
    let before = summary(&get_todos(&mut connection).unwrap());

    set_done_command(&mut connection, Vec::new(), true).unwrap();
    remove_command(&mut connection, Vec::new()).unwrap();

    assert_eq!(summary(&get_todos(&mut connection).unwrap()), before);
}

#[test]
fn commands_on_an_empty_list_succeed() {
    let mut connection = store_with(&[]);

    set_done_command(&mut connection, vec![0], true).unwrap();
    remove_command(&mut connection, vec![0]).unwrap();
    clear_command(&mut connection).unwrap();

    assert_eq!(print_command(&mut connection).unwrap(), Vec::<String>::new());
}

#[test]
fn new_todos_makes_one_fresh_item_for_each_title() {
    let todos = new_todos(vec!["b".to_string(), "".to_string(), "b".to_string()]);

    assert_eq!(
        summary(&todos),
        vec![(0, "b".to_string(), false), (0, "".to_string(), false), (0, "b".to_string(), false)]
    );
    assert_eq!(new_todos(Vec::new()).len(), 0);
}

#[test]
fn names_finds_a_position_among_the_indexes() {
    let indexes = vec![4, 0, 4];

    assert!(names(&indexes, 4));
    assert!(names(&indexes, 0));
    assert!(!names(&indexes, 1));
    assert!(!names(&Vec::new(), 0));
}

#[test]
fn with_done_picks_by_position_and_sets_the_flag() {
    let todos = vec![item(10, "a", false), item(20, "b", true), item(30, "c", false)];

    let changed = with_done(todos, &vec![2, 7, 1, 2], true);

    assert_eq!(summary(&changed), vec![(20, "b".to_string(), true), (30, "c".to_string(), true)]);
}

#[test]
fn with_done_can_clear_the_flag() {
    let todos = vec![item(10, "a", true), item(20, "b", true)];

    let changed = with_done(todos, &vec![0], false);

    assert_eq!(summary(&changed), vec![(10, "a".to_string(), false)]);
}

#[test]
fn with_done_picks_nothing_beyond_the_list() {
    let todos = vec![item(10, "a", false)];

    assert_eq!(with_done(todos.clone(), &vec![1, usize::MAX], true).len(), 0);
    assert_eq!(with_done(todos, &Vec::new(), true).len(), 0);
    assert_eq!(with_done(Vec::new(), &vec![0], true).len(), 0);
}

#[test]
fn chosen_ids_are_the_ids_at_the_positions() {
    let todos = vec![item(10, "a", false), item(20, "b", true), item(30, "c", false)];

    assert_eq!(chosen_ids(&todos, &vec![2, 0, 3]), vec![10, 30]);
    assert_eq!(chosen_ids(&todos, &vec![1, 1]), vec![20]);
    assert_eq!(chosen_ids(&todos, &vec![3]), Vec::<usize>::new());
    assert_eq!(chosen_ids(&todos, &Vec::new()), Vec::<usize>::new());
}

#[test]
fn done_ids_are_the_ids_of_the_done_items() {
    let todos = vec![item(10, "a", true), item(20, "b", false), item(5, "c", true)];

    assert_eq!(done_ids(&todos), vec![10, 5]);
    assert_eq!(done_ids(&vec![item(1, "a", false)]), Vec::<usize>::new());
    assert_eq!(done_ids(&Vec::new()), Vec::<usize>::new());
}
