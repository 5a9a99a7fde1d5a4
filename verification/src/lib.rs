//! A todo list kept in a local SQLite database.
//!
//! The list is a table of items, each with an id that the database assigns, a
//! title and a done flag. Callers name items by the position at which the
//! listing shows them; the command layer reads the list and turns positions
//! into ids before it writes.
//!
//! - [`todo`]: the item and its model.
//! - [`args`]: the commands as a caller gives them.
//! - [`config`]: where the database file lives.
//! - [`sqlite`]: the store, the calls into `rusqlite` and the record of them.
//! - [`db`]: the statements that read and write the table.
//! - [`select`]: picking items by position.
//! - [`plan`]: the write that a command makes of the list.
//! - [`commands`]: what each command reads, decides and writes.
//! - [`listing`]: the numbered lines that show the list.
//! - [`terminal`]: numerals and crossed-out text.
//! - [`table`]: what the writes of the commands do to the rows of the table.
//!
//! [`run_command`] runs one command from start to end: it opens the store
//! and hands it to [`run_on`], which reads, writes and lists. It neither
//! creates directories nor writes to the terminal: the caller makes sure that
//! the directory of the database file exists, and writes out the lines that
//! come back.
//!
//! A store keeps a record of the calls that the database reported done: each
//! statement with what it was handed, each read with what came back. Only
//! the calls themselves advance the record, so the contracts of the functions
//! that read and write say which calls were made, with what and in what
//! order; what the database makes of a write is not verified.

use vstd::prelude::*;

use args::{Args, Commands};
use commands::{
    fresh_items, lemma_picked_ids_are_deleted, print_command, AddCommandError,
    ClearCommandError, PrintCommandError, RemoveCommandError, SetDoneCommandError,
};
use config::GetDbPathError;
use db::{
    add_todos, calls_of, get_connection_with_table, get_todos, inserts, lemma_failure_extends,
    read_of, remove_todos, update_todos, updates, was_read, GetConnectionError,
    GetConnectionWithTableError, GetTodosError, RemoveTodoError,
};
use listing::listing;
use plan::{planned, reads, reads_list, write_of, Write};
use select::{done_positions, positions};
use sqlite::{Entry, Store};
use std::path::PathBuf;
use todo::Todo;

pub mod args;
pub mod commands;
pub mod config;
pub mod db;
pub mod listing;
pub mod plan;
pub mod select;
pub mod sqlite;
pub mod table;
pub mod terminal;
pub mod todo;

verus! {

/// Why [`run_command`] failed, by the command that failed.
#[derive(Debug)]
pub enum RunCommandError {
    AddCommand(AddCommandError),
    SetDoneCommand(SetDoneCommandError),
    RemoveCommand(RemoveCommandError),
    ClearCommand(ClearCommandError),
    PrintAllCommand(PrintCommandError),
    GetConnectionWithTable(GetConnectionWithTableError),
}

impl RunCommandError {
    /// What the error says to the user, as text.
    pub open spec fn wording(&self) -> Seq<char> {
        match self {
            RunCommandError::AddCommand(error) => error.wording(),
            RunCommandError::SetDoneCommand(error) => error.wording(),
            RunCommandError::RemoveCommand(error) => error.wording(),
            RunCommandError::ClearCommand(error) => error.wording(),
            RunCommandError::PrintAllCommand(error) => error.wording(),
            RunCommandError::GetConnectionWithTable(error) => error.wording(),
        }
    }

    /// What the error says to the user.
    pub fn message(&self) -> (text: String)
        ensures
            text@ == self.wording(),
    {
        match self {
            RunCommandError::AddCommand(error) => error.message(),
            RunCommandError::SetDoneCommand(error) => error.message(),
            RunCommandError::RemoveCommand(error) => error.message(),
            RunCommandError::ClearCommand(error) => error.message(),
            RunCommandError::PrintAllCommand(error) => error.message(),
            RunCommandError::GetConnectionWithTable(error) => error.message(),
        }
    }
}

/// Whether a run of `command` can end in `error`: opening the database and
/// showing the list can fail for every command, anything else only for the
/// command that does it.
pub open spec fn may_report(command: Option<Commands>, error: RunCommandError) -> bool {
    match error {
        RunCommandError::GetConnectionWithTable(_) => true,
        RunCommandError::PrintAllCommand(error) => error is GetTodos,
        RunCommandError::AddCommand(error) => command matches Some(Commands::Add { .. })
            && error is AddTodos,
        RunCommandError::SetDoneCommand(_) => command matches Some(Commands::Done { .. })
            || command matches Some(Commands::Undone { .. }),
        RunCommandError::RemoveCommand(_) => command matches Some(Commands::Remove { .. }),
        RunCommandError::ClearCommand(_) => command == Some(Commands::Clear),
    }
}

fn read_failure(command: &Option<Commands>, error: GetTodosError) -> (failure: RunCommandError)
    requires
        reads(*command),
    ensures
        may_report(*command, failure),
        failure is SetDoneCommand || failure is RemoveCommand || failure is ClearCommand,
{
    match command {
        Some(Commands::Remove { .. }) => RunCommandError::RemoveCommand(
            RemoveCommandError::GetTodos(error),
        ),
        Some(Commands::Clear) => RunCommandError::ClearCommand(ClearCommandError::GetTodos(error)),
        _ => RunCommandError::SetDoneCommand(SetDoneCommandError::GetTodos(error)),
    }
}

fn delete_failure(command: &Option<Commands>, error: RemoveTodoError) -> (failure: RunCommandError)
    requires
        *command matches Some(Commands::Remove { .. }) || *command == Some(Commands::Clear),
    ensures
        may_report(*command, failure),
        failure is SetDoneCommand || failure is RemoveCommand || failure is ClearCommand,
{
    match command {
        Some(Commands::Clear) => RunCommandError::ClearCommand(
            ClearCommandError::RemoveTodos(error),
        ),
        _ => RunCommandError::RemoveCommand(RemoveCommandError::RemoveTodos(error)),
    }
}

/// The read of the list before the write of a command, as it stands on
/// record: there is one where the command names items by position.
pub open spec fn read_before(command: Option<Commands>, todos: Seq<Todo>) -> Seq<Entry> {
    if reads(command) {
        seq![read_of(todos)]
    } else {
        Seq::empty()
    }
}

/// The calls of a run that came to its write and made it: the read of the
/// list where the command names items by position, then the calls of the
/// write that the command makes of that list.
pub open spec fn written_by(command: Option<Commands>, todos: Vec<Todo>) -> Seq<Entry> {
    read_before(command, todos@) + calls_of(planned(command, todos.deep_view()))
}

/// Runs one command on a store that is ready, and hands back the listing of
/// the list as the command left it. The list is read where the command names
/// items by position; [`write_of`] makes the write of the command, which is
/// handed to the database; then the list is read once more, and that list is
/// shown. Without a command, or to show the list, nothing is written. The
/// first failure ends the run: where it is the last read that fails, the
/// write was made.
pub fn run_on(store: &mut Store, command: Option<Commands>) -> (outcome: Result<
    Vec<String>,
    RunCommandError,
>)
    ensures
        match outcome {
            Ok(lines) => exists|todos: Vec<Todo>, shown: Vec<Todo>|
                #![trigger was_read(todos@), was_read(shown@)]
                was_read(todos@) && was_read(shown@) && final(store).record() == (old(
                    store,
                ).record() + written_by(command, todos)).push(read_of(shown@))
                    && lines.deep_view() == listing(shown.deep_view()),
            Err(error) => may_report(command, error) && !(error is GetConnectionWithTable)
                && old(store).record().is_prefix_of(final(store).record()) && (error
                is PrintAllCommand ==> exists|todos: Vec<Todo>| #[trigger]
                was_read(todos@) && final(store).record() == old(store).record() + written_by(
                    command,
                    todos,
                )),
        },
{
    let ghost before = store.record();
    let todos = if reads_list(&command) {
        match get_todos(store) {
            Ok(todos) => todos,
            Err(error) => {
                return Err(read_failure(&command, error));
            },
        }
    } else {
        Vec::new()
    };
    let ghost list = todos;
    assert(store.record() == before + read_before(command, list@));
    let write = write_of(&command, todos);
    match write {
        Write::Insert(items) => {
            assert(inserts(items.deep_view()) == inserts(fresh_items(
                command->Some_0->Add_titles.deep_view(),
            )));
            match add_todos(store, items) {
                Ok(()) => {},
                Err(error) => {
                    proof {
                        lemma_failure_extends(
                            before + read_before(command, list@),
                            store.record(),
                            inserts(items.deep_view()),
                            error.step(),
                        );
                    }
                    return Err(RunCommandError::AddCommand(AddCommandError::AddTodos(error)));
                },
            }
        },
        Write::Update(items) => {
            match update_todos(store, items) {
                Ok(()) => {},
                Err(error) => {
                    proof {
                        lemma_failure_extends(
                            before + read_before(command, list@),
                            store.record(),
                            updates(items.deep_view()),
                            error.step(),
                        );
                    }
                    return Err(
                        RunCommandError::SetDoneCommand(SetDoneCommandError::UpdateTodos(error)),
                    );
                },
            }
        },
        Write::Delete(ids) => {
            proof {
                if command == Some(Commands::Clear) {
                    lemma_picked_ids_are_deleted(list, done_positions(list.deep_view()), ids@);
                } else {
                    let indexes = command->Some_0->Remove_ids;
                    lemma_picked_ids_are_deleted(list, positions(indexes@), ids@);
                }
            }
            match remove_todos(store, ids) {
                Ok(()) => {},
                Err(error) => {
                    return Err(delete_failure(&command, error));
                },
            }
        },
        Write::Nothing => {},
    }
    assert(was_read(list@));
    assert(store.record() == before + written_by(command, list));
    match print_command(store) {
        Ok(lines) => Ok(lines),
        Err(error) => Err(RunCommandError::PrintAllCommand(error)),
    }
}

/// Runs one command on the database at the path that was resolved, and hands
/// back the listing of the list as the command left it, for the caller to
/// write out. The database is opened and made ready; the rest is [`run_on`].
pub fn run_command(args: Args, db_path: Result<PathBuf, GetDbPathError>) -> (outcome: Result<
    Vec<String>,
    RunCommandError,
>)
    ensures
        db_path matches Err(error) ==> outcome == Err::<Vec<String>, RunCommandError>(
            RunCommandError::GetConnectionWithTable(
                GetConnectionWithTableError::GetConnection(GetConnectionError::GetDbPath(error)),
            ),
        ),
        db_path is Ok ==> !(outcome matches Err(
            RunCommandError::GetConnectionWithTable(
                GetConnectionWithTableError::GetConnection(GetConnectionError::GetDbPath(_)),
            ),
        )),
        outcome matches Ok(lines) ==> exists|todos: Vec<Todo>| #[trigger]
            was_read(todos@) && lines.deep_view() == listing(todos.deep_view()),
        outcome matches Err(error) ==> may_report(args.command, error),
{
    let mut store = match get_connection_with_table(db_path) {
        Ok(store) => store,
        Err(error) => {
            return Err(RunCommandError::GetConnectionWithTable(error));
        },
    };
    run_on(&mut store, args.command)
}

} // verus!
