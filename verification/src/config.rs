//! Where the database file lives.
//!
//! The file is `todos.db` in the configuration directory of the current user
//! for this application. Creating that directory is left to the program,
//! which writes to disk; the library names the directory and takes the
//! outcome.

use directories::ProjectDirs;
use std::path::PathBuf;
use vstd::prelude::*;
use vstd::string::StringExecFns;

verus! {

/// `std::io::Error`, carried through unread.
#[verifier::external_type_specification]
#[verifier::external_body]
pub struct ExIoError(std::io::Error);

/// `std::path::PathBuf`, carried through unread.
#[verifier::external_type_specification]
#[verifier::external_body]
pub struct ExPathBuf(std::path::PathBuf);

/// `directories::ProjectDirs`, the directories of one application.
#[verifier::external_type_specification]
#[verifier::external_body]
pub struct ExProjectDirs(directories::ProjectDirs);

/// Calls `ProjectDirs::from`, which works out the directories of an
/// application from the environment of the process, or finds no home
/// directory. Nothing is claimed of the outcome.
#[verifier::external_body]
fn project_dirs(qualifier: &str, organization: &str, application: &str) -> (project: Option<
    ProjectDirs,
>) {
    ProjectDirs::from(qualifier, organization, application)
}

/// Calls `ProjectDirs::config_dir`, which hands out the configuration
/// directory among them, and copies the path.
#[verifier::external_body]
fn config_dir_of(project: &ProjectDirs) -> (dir: PathBuf) {
    project.config_dir().to_path_buf()
}

/// The path that `Path::join` makes of a directory and a name.
pub uninterp spec fn joined(dir: PathBuf, name: Seq<char>) -> PathBuf;

/// Calls `Path::join`, which appends `name` to `dir` as one more component.
#[verifier::external_body]
fn join(dir: &PathBuf, name: &str) -> (path: PathBuf)
    ensures
        path == joined(*dir, name@),
{
    dir.join(name)
}

/// The first of the three names by which the system tells applications
/// apart: the domain of the vendor, reversed.
pub const QUALIFIER: &'static str = "com";

/// The second of the three names: the vendor.
pub const ORGANIZATION: &'static str = "dely";

/// The third of the three names: the application.
pub const APPLICATION: &'static str = "todo";

/// The name of the database file inside the configuration directory.
pub const FILE_NAME: &'static str = "todos.db";

/// Why the path of the database file could not be had.
#[derive(Debug)]
pub enum GetDbPathError {
    /// No configuration directory is known for this user.
    GetDbPath,
    /// The configuration directory could not be created.
    CreateDir(std::io::Error),
}

impl GetDbPathError {
    /// What the error says to the user, as text.
    pub open spec fn wording(&self) -> Seq<char> {
        match self {
            GetDbPathError::GetDbPath => "Failed to get the database path"@,
            GetDbPathError::CreateDir(_) => "Failed to create the directory"@,
        }
    }

    /// What the error says to the user.
    pub fn message(&self) -> (text: String)
        ensures
            text@ == self.wording(),
    {
        match self {
            GetDbPathError::GetDbPath => String::from_str("Failed to get the database path"),
            GetDbPathError::CreateDir(_) => String::from_str("Failed to create the directory"),
        }
    }
}

/// The configuration directory of this application for the current user, if
/// the system knows of one. The directory need not exist.
pub fn config_dir() -> (dir: Option<PathBuf>) {
    match project_dirs(QUALIFIER, ORGANIZATION, APPLICATION) {
        Some(project) => Some(config_dir_of(&project)),
        None => None,
    }
}

/// The path of the database file. `created` is the configuration directory
/// once it was made sure to exist, or why it could not be created, or nothing
/// where no configuration directory is known.
pub fn get_db_path(created: Option<Result<PathBuf, std::io::Error>>) -> (outcome: Result<
    PathBuf,
    GetDbPathError,
>)
    ensures
        created is None ==> outcome == Err::<PathBuf, GetDbPathError>(GetDbPathError::GetDbPath),
        created matches Some(Err(error)) ==> outcome == Err::<PathBuf, GetDbPathError>(
            GetDbPathError::CreateDir(error),
        ),
        created matches Some(Ok(dir)) ==> outcome == Ok::<PathBuf, GetDbPathError>(
            joined(dir, FILE_NAME@),
        ),
{
    match created {
        Some(Ok(dir)) => Ok(join(&dir, FILE_NAME)),
        Some(Err(error)) => Err(GetDbPathError::CreateDir(error)),
        None => Err(GetDbPathError::GetDbPath),
    }
}

} // verus!
