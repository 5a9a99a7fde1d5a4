//! The table of todo items and the statements that read and write it.
//!
//! Every function here runs SQL on a store. What a statement finds or leaves
//! in the database is not modelled: the contracts say which failure belongs
//! to which step, which calls went on the record of the store and with what,
//! and how a row is read.

use crate::config::GetDbPathError;
use crate::plan::WriteView;
use crate::sqlite::{
    begin, bool_in, cells, column_bool, column_string, column_usize, commit, connection_of,
    execute, execute_with_array, execute_with_item, execute_with_item_and_id, load_array_module,
    open, plain, prepare, query_items, sql_of, text_in, usize_in, Cell, Entry, Store, Value,
};
use crate::todo::{Todo, TodoView};
use rusqlite::Row;
use std::path::PathBuf;
use vstd::prelude::*;
use vstd::string::StringExecFns;

verus! {

/// Why [`get_connection`] failed.
#[derive(Debug)]
pub enum GetConnectionError {
    /// The database could not be opened.
    Open(rusqlite::Error),
    /// There is no path to open.
    GetDbPath(GetDbPathError),
}

impl GetConnectionError {
    /// What the error says to the user, as text.
    pub open spec fn wording(&self) -> Seq<char> {
        match self {
            GetConnectionError::Open(_) => "Fail to create and connect to a db"@,
            GetConnectionError::GetDbPath(error) => error.wording(),
        }
    }

    /// What the error says to the user.
    pub fn message(&self) -> (text: String)
        ensures
            text@ == self.wording(),
    {
        match self {
            GetConnectionError::Open(_) => String::from_str("Fail to create and connect to a db"),
            GetConnectionError::GetDbPath(error) => error.message(),
        }
    }
}

/// Opens the database at the path that was resolved, or passes on why there
/// is no path.
pub fn get_connection(db_path: Result<PathBuf, GetDbPathError>) -> (outcome: Result<
    Store,
    GetConnectionError,
>)
    ensures
        db_path matches Err(error) ==> outcome == Err::<Store, GetConnectionError>(
            GetConnectionError::GetDbPath(error),
        ),
        db_path is Ok ==> !(outcome matches Err(GetConnectionError::GetDbPath(_))),
        outcome matches Ok(store) ==> store.record() == Seq::<Entry>::empty(),
{
    let path = match db_path {
        Ok(path) => path,
        Err(error) => {
            return Err(GetConnectionError::GetDbPath(error));
        },
    };
    match open(&path) {
        Ok(connection) => Ok(Store::new(connection)),
        Err(error) => Err(GetConnectionError::Open(error)),
    }
}

/// The statement that creates the table of items where there is none.
pub const CREATE_TABLE_QUERY: &'static str = "CREATE TABLE IF NOT EXISTS todos (
    id INTEGER PRIMARY KEY,
    title TEXT NOT NULL,
    done BOOLEAN NOT NULL
)";

/// The statement that reads every item, in ascending order of id.
pub const SELECT_QUERY: &'static str = "SELECT id, title, done FROM todos ORDER BY id";

/// The statement that stores one new item: its title and its done flag.
pub const INSERT_QUERY: &'static str = "INSERT INTO todos (title, done) VALUES (?1, ?2)";

/// The statement that sets the title and done flag of the row with an id.
pub const UPDATE_QUERY: &'static str = "UPDATE todos SET title = ?1, done = ?2 WHERE id = ?3";

/// The statement that deletes the rows whose id is in an array.
pub const DELETE_QUERY: &'static str = "DELETE FROM todos WHERE id in rarray(?1)";

/// Why [`create_table`] failed, by the step that failed.
#[derive(Debug)]
pub enum CreateTableError {
    LoadArrayModule(rusqlite::Error),
    ExecuteCreateTableQuery(rusqlite::Error),
}

impl CreateTableError {
    /// What the error says to the user, as text.
    pub open spec fn wording(&self) -> Seq<char> {
        match self {
            CreateTableError::LoadArrayModule(_) => "Fail to load array module"@,
            CreateTableError::ExecuteCreateTableQuery(_) => "Fail to execute create table query"@,
        }
    }

    /// What the error says to the user.
    pub fn message(&self) -> (text: String)
        ensures
            text@ == self.wording(),
    {
        match self {
            CreateTableError::LoadArrayModule(_) => String::from_str("Fail to load array module"),
            CreateTableError::ExecuteCreateTableQuery(_) => String::from_str(
                "Fail to execute create table query",
            ),
        }
    }
}

/// The calls that make a store ready: the array function is registered, then
/// the statement that creates the table runs.
pub open spec fn made_ready() -> Seq<Entry> {
    seq![
        Entry::LoadedArrayModule,
        Entry::Ran { sql: CREATE_TABLE_QUERY@, values: Seq::empty() },
    ]
}

/// Makes a store ready for the other functions of this module: it registers
/// the array function that [`remove_todos`] uses, then creates the table of
/// items unless it exists. The record says how far it came.
pub fn create_table(store: &mut Store) -> (outcome: Result<(), CreateTableError>)
    ensures
        match outcome {
            Ok(()) => final(store).record() == old(store).record() + made_ready(),
            Err(CreateTableError::LoadArrayModule(_)) => final(store).record() == old(
                store,
            ).record(),
            Err(CreateTableError::ExecuteCreateTableQuery(_)) => final(store).record() == old(
                store,
            ).record().push(Entry::LoadedArrayModule),
        },
{
    match load_array_module(&store.connection, &mut store.record) {
        Ok(()) => {},
        Err(error) => {
            return Err(CreateTableError::LoadArrayModule(error));
        },
    }
    match execute(&store.connection, &mut store.record, CREATE_TABLE_QUERY) {
        Ok(_) => Ok(()),
        Err(error) => Err(CreateTableError::ExecuteCreateTableQuery(error)),
    }
}

/// Why [`get_connection_with_table`] failed.
#[derive(Debug)]
pub enum GetConnectionWithTableError {
    GetConnection(GetConnectionError),
    CreateTable(CreateTableError),
}

impl GetConnectionWithTableError {
    /// What the error says to the user, as text.
    pub open spec fn wording(&self) -> Seq<char> {
        match self {
            GetConnectionWithTableError::GetConnection(error) => error.wording(),
            GetConnectionWithTableError::CreateTable(error) => error.wording(),
        }
    }

    /// What the error says to the user.
    pub fn message(&self) -> (text: String)
        ensures
            text@ == self.wording(),
    {
        match self {
            GetConnectionWithTableError::GetConnection(error) => error.message(),
            GetConnectionWithTableError::CreateTable(error) => error.message(),
        }
    }
}

/// Opens the database at the path that was resolved and makes sure that it
/// holds the table of items.
pub fn get_connection_with_table(db_path: Result<PathBuf, GetDbPathError>) -> (outcome: Result<
    Store,
    GetConnectionWithTableError,
>)
    ensures
        db_path matches Err(error) ==> outcome == Err::<Store, GetConnectionWithTableError>(
            GetConnectionWithTableError::GetConnection(GetConnectionError::GetDbPath(error)),
        ),
        db_path is Ok ==> !(outcome matches Err(
            GetConnectionWithTableError::GetConnection(GetConnectionError::GetDbPath(_)),
        )),
        outcome matches Ok(store) ==> store.record() == made_ready(),
{
    let mut store = match get_connection(db_path) {
        Ok(store) => store,
        Err(error) => {
            return Err(GetConnectionWithTableError::GetConnection(error));
        },
    };
    match create_table(&mut store) {
        Ok(()) => Ok(store),
        Err(error) => Err(GetConnectionWithTableError::CreateTable(error)),
    }
}

/// Reads the item that a row of `SELECT id, title, done` holds. The columns
/// are read in that order, and the first that cannot be read is reported.
pub(crate) fn decode(row: &Row<'_>) -> (item: Result<Todo, rusqlite::Error>)
    ensures
        match item {
            Ok(todo) => item_in(cells(*row)) == Some(todo@),
            Err(_) => item_in(cells(*row)) is None,
        },
{
    let id: usize = match column_usize(row, 0) {
        Ok(id) => id,
        Err(error) => {
            return Err(error);
        },
    };
    let title: String = match column_string(row, 1) {
        Ok(title) => title,
        Err(error) => {
            return Err(error);
        },
    };
    match column_bool(row, 2) {
        Ok(done) => Ok(Todo { id, title, done }),
        Err(error) => Err(error),
    }
}

/// The item that the columns of a row stand for: the first column is its
/// id, the second its title and the third its done flag. There is none where
/// the id is no integer that `usize` holds, the title no text, or the done
/// flag no integer.
pub open spec fn item_in(cells: Seq<Cell>) -> Option<TodoView> {
    match (usize_in(cells, 0), text_in(cells, 1), bool_in(cells, 2)) {
        (Some(id), Some(title), Some(done)) => Some(TodoView { id: id as nat, title, done }),
        _ => None,
    }
}

/// What one row of a query contributes to the list: its item, or nothing if
/// it could not be read.
pub open spec fn item_of() -> spec_fn(Result<Todo, rusqlite::Error>) -> Option<Todo> {
    |row: Result<Todo, rusqlite::Error>|
        match row {
            Ok(todo) => Some(todo),
            Err(_) => None,
        }
}

/// The items among `rows`, in their order, without the rows that failed.
pub open spec fn readable(rows: Seq<Result<Todo, rusqlite::Error>>) -> Seq<Todo> {
    rows.filter_map(item_of())
}

/// Keeps the rows that were read and drops, without a report, those that
/// were not.
pub fn decoded(rows: Vec<Result<Todo, rusqlite::Error>>) -> (todos: Vec<Todo>)
    ensures
        todos@ == readable(rows@),
{
    let mut todos: Vec<Todo> = Vec::new();
    for row in it: rows
        invariant
            it.seq() == rows@,
            todos@ == readable(rows@.take(it.index())),
    {
        proof {
            rows@.lemma_filter_map_take_succ(item_of(), it.index());
        }
        match row {
            Ok(todo) => todos.push(todo),
            Err(_) => {},
        }
    }
    assert(rows@.take(rows@.len() as int) == rows@);
    todos
}

/// Why [`get_todos`] failed.
#[derive(Debug)]
pub struct GetTodosError(pub rusqlite::Error);

impl GetTodosError {
    /// What the error says to the user, as text.
    pub open spec fn wording(&self) -> Seq<char> {
        "Fail to get a todo"@
    }

    /// What the error says to the user.
    pub fn message(&self) -> (text: String)
        ensures
            text@ == self.wording(),
    {
        String::from_str("Fail to get a todo")
    }
}

/// The read of the whole list, as it stands on record: the query, and the
/// items that came back.
pub open spec fn read_of(todos: Seq<Todo>) -> Entry {
    Entry::Read { sql: SELECT_QUERY@, todos }
}

/// Reads every stored item, in ascending order of id. A row that cannot be
/// read as an item is left out of the result, as [`decoded`] says: each item
/// that is returned is what the columns of a row stand for. The list that is
/// returned is the one that the read on record brought.
pub fn get_todos(store: &mut Store) -> (outcome: Result<Vec<Todo>, GetTodosError>)
    ensures
        match outcome {
            Ok(todos) => was_read(todos@) && final(store).record() == old(store).record().push(
                read_of(todos@),
            ),
            Err(_) => final(store).record() == old(store).record(),
        },
{
    let mut statement = match prepare(&store.connection, SELECT_QUERY) {
        Ok(statement) => statement,
        Err(error) => {
            return Err(GetTodosError(error));
        },
    };
    match query_items(&mut statement, &mut store.record) {
        Ok(rows) => {
            let todos = decoded(rows);
            assert forall|k: int| 0 <= k < todos.len() implies read_from_a_row(
                #[trigger] todos@[k],
            ) by {
                assert(readable(rows@).contains(todos[k]));
                rows@.lemma_filter_map_contains(item_of(), todos[k]);
                let read = choose|read: Result<Todo, rusqlite::Error>|
                    #[trigger] rows@.contains(read) && item_of()(read) == Some(todos[k]);
                let j = choose|j: int| 0 <= j < rows@.len() && rows@[j] == read;
                assert(rows[j] is Ok);
            }
            Ok(todos)
        },
        Err(error) => Err(GetTodosError(error)),
    }
}

/// Whether an item is what the columns of some row stand for.
pub open spec fn read_from_a_row(todo: Todo) -> bool {
    exists|row: Row| item_in(cells(row)) == Some(todo@)
}

/// Whether a list is one that was read: each of its items is what the
/// columns of some row stand for.
pub open spec fn was_read(todos: Seq<Todo>) -> bool {
    forall|k: int| 0 <= k < todos.len() ==> read_from_a_row(#[trigger] todos[k])
}

/// An item that was read has an id that a row can have.
pub proof fn lemma_read_ids_are_row_ids(todos: Seq<Todo>)
    requires
        was_read(todos),
    ensures
        forall|k: int| 0 <= k < todos.len() ==> (#[trigger] todos[k]).id <= i64::MAX,
{
    assert forall|k: int| 0 <= k < todos.len() implies (#[trigger] todos[k]).id <= i64::MAX by {
        assert(read_from_a_row(todos[k]));
        let row = choose|row: Row| item_in(cells(row)) == Some(todos[k]@);
        assert(usize_in(cells(row), 0) == Some(todos[k].id));
    }
}

/// Why [`add_todos`] failed, by the step that failed.
#[derive(Debug)]
pub enum AddTodosError {
    CreateTransaction(rusqlite::Error),
    PrepareInsert(rusqlite::Error),
    InsertTodo(rusqlite::Error),
    CommitTransaction(rusqlite::Error),
}

impl AddTodosError {
    /// What the error says to the user, as text.
    pub open spec fn wording(&self) -> Seq<char> {
        match self {
            AddTodosError::CreateTransaction(_) => "Fail to create transaction"@,
            AddTodosError::PrepareInsert(_) => "Fail to prepare insert statement"@,
            AddTodosError::InsertTodo(_) => "Fail to insert todo"@,
            AddTodosError::CommitTransaction(_) => "Fail to commit transaction"@,
        }
    }

    /// What the error says to the user.
    pub fn message(&self) -> (text: String)
        ensures
            text@ == self.wording(),
    {
        match self {
            AddTodosError::CreateTransaction(_) => String::from_str("Fail to create transaction"),
            AddTodosError::PrepareInsert(_) => String::from_str("Fail to prepare insert statement"),
            AddTodosError::InsertTodo(_) => String::from_str("Fail to insert todo"),
            AddTodosError::CommitTransaction(_) => String::from_str("Fail to commit transaction"),
        }
    }
}

/// The step of a transaction at which it failed.
pub ghost enum Step {
    Begin,
    Prepare,
    /// One of the statements of the transaction.
    Statement,
    Commit,
}

/// The calls of a transaction that ran to its end: it was begun, each
/// statement ran, and it was committed.
pub open spec fn committed(statements: Seq<Entry>) -> Seq<Entry> {
    seq![Entry::Begun] + statements + seq![Entry::Committed]
}

/// The calls of a transaction that was begun and not committed: the first
/// `n` statements ran.
pub open spec fn uncommitted(statements: Seq<Entry>, n: int) -> Seq<Entry> {
    seq![Entry::Begun] + statements.take(n)
}

/// What a transaction that failed at `step` left on record: nothing where
/// it could not begin; the statements before the one that failed, where a
/// statement failed; all of them where the commit failed. The commit is
/// never on record.
pub open spec fn left_by_failure(
    before: Seq<Entry>,
    after: Seq<Entry>,
    statements: Seq<Entry>,
    step: Step,
) -> bool {
    match step {
        Step::Begin => after == before,
        Step::Prepare => after == before + uncommitted(statements, 0),
        Step::Statement => exists|n: int|
            0 <= n < statements.len() && after == before + #[trigger] uncommitted(statements, n),
        Step::Commit => after == before + uncommitted(statements, statements.len() as int),
    }
}

/// A transaction that failed took no call off the record.
pub proof fn lemma_failure_extends(
    before: Seq<Entry>,
    after: Seq<Entry>,
    statements: Seq<Entry>,
    step: Step,
)
    requires
        left_by_failure(before, after, statements, step),
    ensures
        before.is_prefix_of(after),
{
    match step {
        Step::Begin => {},
        Step::Prepare => {},
        Step::Statement => {
            let n = choose|n: int|
                0 <= n < statements.len() && after == before + #[trigger] uncommitted(
                    statements,
                    n,
                );
            assert(after == before + uncommitted(statements, n));
        },
        Step::Commit => {},
    }
}

/// The statement that stores an item, as it stands on record: with the title
/// of the item, and not done.
pub open spec fn insert_of(item: TodoView) -> Entry {
    Entry::Ran { sql: INSERT_QUERY@, values: seq![Value::Text(item.title), Value::Flag(false)] }
}

/// The statements that store the items, in their order.
pub open spec fn inserts(items: Seq<TodoView>) -> Seq<Entry> {
    items.map_values(|item: TodoView| insert_of(item))
}

/// What an insert is handed for an item: its title, and that it is not done.
/// An item is created not done, whatever flag the value holds; the database
/// assigns the id.
pub fn insert_values(todo: &Todo) -> (values: (&String, bool))
    ensures
        *values.0 == todo.title,
        values.1 == false,
{
    (&todo.title, false)
}

impl AddTodosError {
    /// The step at which adding failed.
    pub open spec fn step(&self) -> Step {
        match self {
            AddTodosError::CreateTransaction(_) => Step::Begin,
            AddTodosError::PrepareInsert(_) => Step::Prepare,
            AddTodosError::InsertTodo(_) => Step::Statement,
            AddTodosError::CommitTransaction(_) => Step::Commit,
        }
    }
}

/// Stores one new row for each item, with its title and not done; the
/// database assigns the ids. The rows are written in one transaction, in the
/// order of `todos`, and the transaction is committed only after every insert
/// succeeded: the first failure ends the call with the error of its step and
/// without a commit.
pub fn add_todos(store: &mut Store, todos: Vec<Todo>) -> (outcome: Result<(), AddTodosError>)
    ensures
        todos@.len() == 0 ==> !(outcome matches Err(AddTodosError::InsertTodo(_))),
        match outcome {
            Ok(()) => final(store).record() == old(store).record() + committed(
                inserts(todos.deep_view()),
            ),
            Err(error) => left_by_failure(
                old(store).record(),
                final(store).record(),
                inserts(todos.deep_view()),
                error.step(),
            ),
        },
{
    let ghost before = store.record();
    let ghost statements = inserts(todos.deep_view());
    let transaction = match begin(&mut store.connection, &mut store.record) {
        Ok(transaction) => transaction,
        Err(error) => {
            return Err(AddTodosError::CreateTransaction(error));
        },
    };
    {
        let mut statement = match prepare(connection_of(&transaction), INSERT_QUERY) {
            Ok(statement) => statement,
            Err(error) => {
                assert(store.record.entries() == before + uncommitted(statements, 0));
                return Err(AddTodosError::PrepareInsert(error));
            },
        };
        let mut i: usize = 0;
        while i < todos.len()
            invariant
                i <= todos.len(),
                sql_of(statement) == INSERT_QUERY@,
                statements == inserts(todos.deep_view()),
                before == old(store).record(),
                store.record.entries() == before + uncommitted(statements, i as int),
            decreases todos.len() - i,
        {
            let values = insert_values(&todos[i]);
            match execute_with_item(&mut statement, &mut store.record, values.0, values.1) {
                Ok(_) => {},
                Err(error) => {
                    return Err(AddTodosError::InsertTodo(error));
                },
            }
            proof {
                assert(statements.take(i + 1) == statements.take(i as int).push(
                    insert_of(todos@[i as int]@),
                ));
                assert(before + uncommitted(statements, i + 1) == (before + uncommitted(
                    statements,
                    i as int,
                )).push(insert_of(todos@[i as int]@)));
            }
            i += 1;
        }
    }
    match commit(transaction, &mut store.record) {
        Ok(()) => {
            proof {
                assert(statements.take(statements.len() as int) == statements);
                assert(before + committed(statements) == (before + uncommitted(
                    statements,
                    statements.len() as int,
                )).push(Entry::Committed));
            }
            Ok(())
        },
        Err(error) => Err(AddTodosError::CommitTransaction(error)),
    }
}

/// Why [`update_todos`] failed, by the step that failed.
#[derive(Debug)]
pub enum UpdateTodosError {
    CreateTransaction(rusqlite::Error),
    Statement(rusqlite::Error),
    UpdateTodo(rusqlite::Error),
    CommitTransaction(rusqlite::Error),
}

impl UpdateTodosError {
    /// What the error says to the user, as text.
    pub open spec fn wording(&self) -> Seq<char> {
        match self {
            UpdateTodosError::CreateTransaction(_) => "Fail to create transaction"@,
            UpdateTodosError::Statement(_) => "Fail to create statement"@,
            UpdateTodosError::UpdateTodo(_) => "Fail to update todo"@,
            UpdateTodosError::CommitTransaction(_) => "Fail to commit transaction"@,
        }
    }

    /// What the error says to the user.
    pub fn message(&self) -> (text: String)
        ensures
            text@ == self.wording(),
    {
        match self {
            UpdateTodosError::CreateTransaction(_) => String::from_str(
                "Fail to create transaction",
            ),
            UpdateTodosError::Statement(_) => String::from_str("Fail to create statement"),
            UpdateTodosError::UpdateTodo(_) => String::from_str("Fail to update todo"),
            UpdateTodosError::CommitTransaction(_) => String::from_str(
                "Fail to commit transaction",
            ),
        }
    }
}

/// The statement that updates the row of an item, as it stands on record:
/// with the title, the done flag and the id of the item.
pub open spec fn update_of(item: TodoView) -> Entry {
    Entry::Ran {
        sql: UPDATE_QUERY@,
        values: seq![
            Value::Text(item.title),
            Value::Flag(item.done),
            Value::Integer(item.id as int),
        ],
    }
}

/// The statements that update the rows of the items, in their order.
pub open spec fn updates(items: Seq<TodoView>) -> Seq<Entry> {
    items.map_values(|item: TodoView| update_of(item))
}

impl UpdateTodosError {
    /// The step at which updating failed.
    pub open spec fn step(&self) -> Step {
        match self {
            UpdateTodosError::CreateTransaction(_) => Step::Begin,
            UpdateTodosError::Statement(_) => Step::Prepare,
            UpdateTodosError::UpdateTodo(_) => Step::Statement,
            UpdateTodosError::CommitTransaction(_) => Step::Commit,
        }
    }
}

/// Sets, for each item, the title and done flag of the row with the item's
/// id. The rows are written in one transaction, in the order of `todos`, and
/// the transaction is committed only after every update succeeded: the first
/// failure ends the call with the error of its step and without a commit. An
/// id that is too large for any row to have is such a failure.
pub fn update_todos(store: &mut Store, todos: Vec<Todo>) -> (outcome: Result<
    (),
    UpdateTodosError,
>)
    ensures
        todos@.len() == 0 ==> !(outcome matches Err(UpdateTodosError::UpdateTodo(_))),
        outcome is Ok ==> forall|k: int| 0 <= k < todos@.len() ==> todos@[k].id <= i64::MAX,
        match outcome {
            Ok(()) => final(store).record() == old(store).record() + committed(
                updates(todos.deep_view()),
            ),
            Err(error) => left_by_failure(
                old(store).record(),
                final(store).record(),
                updates(todos.deep_view()),
                error.step(),
            ),
        },
{
    let ghost before = store.record();
    let ghost statements = updates(todos.deep_view());
    let transaction = match begin(&mut store.connection, &mut store.record) {
        Ok(transaction) => transaction,
        Err(error) => {
            return Err(UpdateTodosError::CreateTransaction(error));
        },
    };
    {
        let mut statement = match prepare(connection_of(&transaction), UPDATE_QUERY) {
            Ok(statement) => statement,
            Err(error) => {
                assert(store.record.entries() == before + uncommitted(statements, 0));
                return Err(UpdateTodosError::Statement(error));
            },
        };
        let mut i: usize = 0;
        while i < todos.len()
            invariant
                i <= todos.len(),
                sql_of(statement) == UPDATE_QUERY@,
                statements == updates(todos.deep_view()),
                before == old(store).record(),
                store.record.entries() == before + uncommitted(statements, i as int),
                forall|k: int| 0 <= k < i ==> todos@[k].id <= i64::MAX,
            decreases todos.len() - i,
        {
            match execute_with_item_and_id(
                &mut statement,
                &mut store.record,
                &todos[i].title,
                todos[i].done,
                todos[i].id,
            ) {
                Ok(_) => {},
                Err(error) => {
                    return Err(UpdateTodosError::UpdateTodo(error));
                },
            }
            proof {
                assert(statements.take(i + 1) == statements.take(i as int).push(
                    update_of(todos@[i as int]@),
                ));
                assert(before + uncommitted(statements, i + 1) == (before + uncommitted(
                    statements,
                    i as int,
                )).push(update_of(todos@[i as int]@)));
            }
            i += 1;
        }
    }
    match commit(transaction, &mut store.record) {
        Ok(()) => {
            proof {
                assert(statements.take(statements.len() as int) == statements);
                assert(before + committed(statements) == (before + uncommitted(
                    statements,
                    statements.len() as int,
                )).push(Entry::Committed));
            }
            Ok(())
        },
        Err(error) => Err(UpdateTodosError::CommitTransaction(error)),
    }
}

/// What an id is to SQLite, which keys its rows by signed 64-bit integers:
/// that integer, or nothing where the id is too large for any row to have.
pub open spec fn stored_id() -> spec_fn(usize) -> Option<i64> {
    |id: usize|
        if id <= i64::MAX {
            Some(id as i64)
        } else {
            None
        }
}

/// The ids among `ids` that a row can have, in their order, as SQLite holds
/// them.
pub open spec fn stored_ids(ids: Seq<usize>) -> Seq<i64> {
    ids.filter_map(stored_id())
}

/// Turns ids into the integers that SQLite compares with, and leaves out
/// those that no row can have.
pub fn storable_ids(ids: &Vec<usize>) -> (values: Vec<i64>)
    ensures
        values@ == stored_ids(ids@),
{
    let mut values: Vec<i64> = Vec::new();
    let mut i: usize = 0;
    while i < ids.len()
        invariant
            i <= ids.len(),
            values@ == stored_ids(ids@.take(i as int)),
        decreases ids.len() - i,
    {
        proof {
            ids@.lemma_filter_map_take_succ(stored_id(), i as int);
        }
        let id: usize = ids[i];
        if id as u64 <= i64::MAX as u64 {
            values.push(id as i64);
        }
        i += 1;
    }
    assert(ids@.take(ids@.len() as int) == ids@);
    values
}

/// Why [`remove_todos`] failed.
#[derive(Debug)]
pub struct RemoveTodoError(pub rusqlite::Error);

impl RemoveTodoError {
    /// What the error says to the user, as text.
    pub open spec fn wording(&self) -> Seq<char> {
        "Fail to remove todo"@
    }

    /// What the error says to the user.
    pub fn message(&self) -> (text: String)
        ensures
            text@ == self.wording(),
    {
        String::from_str("Fail to remove todo")
    }
}

/// The ids that a delete is handed for `ids`, as plain numbers.
pub open spec fn deleted_ids(ids: Seq<usize>) -> Seq<nat> {
    stored_ids(ids).map_values(|id: i64| id as nat)
}

/// Ids that rows can have are all handed to a delete, as they are.
pub proof fn lemma_row_ids_are_deleted(ids: Seq<usize>)
    requires
        forall|k: int| 0 <= k < ids.len() ==> ids[k] <= i64::MAX,
    ensures
        deleted_ids(ids) == ids.map_values(|id: usize| id as nat),
    decreases ids.len(),
{
    let plain = |id: usize| id as nat;
    if ids.len() == 0 {
        assert(deleted_ids(ids) =~= ids.map_values(plain));
    } else {
        let rest = ids.drop_last();
        lemma_row_ids_are_deleted(rest);
        assert(stored_id()(ids.last()) == Some(ids.last() as i64));
        assert(stored_ids(ids) =~= stored_ids(rest).push(ids.last() as i64));
        assert(deleted_ids(ids) =~= deleted_ids(rest).push(ids.last() as nat));
        assert(ids.map_values(plain) =~= rest.map_values(plain).push(ids.last() as nat));
    }
}

/// An id that a delete is handed is not negative.
pub proof fn lemma_stored_ids_are_not_negative(ids: Seq<usize>)
    ensures
        forall|k: int| 0 <= k < stored_ids(ids).len() ==> #[trigger] stored_ids(ids)[k] >= 0,
{
    assert forall|k: int| 0 <= k < stored_ids(ids).len() implies #[trigger] stored_ids(ids)[k]
        >= 0 by {
        let value = stored_ids(ids)[k];
        assert(stored_ids(ids).contains(value));
        ids.lemma_filter_map_contains(stored_id(), value);
    }
}

/// The statement that deletes the rows with one of `ids`, as it stands on
/// record: with the ids as the array.
pub open spec fn delete_of(ids: Seq<nat>) -> Entry {
    Entry::Ran {
        sql: DELETE_QUERY@,
        values: seq![Value::Integers(ids.map_values(|id: nat| id as int))],
    }
}

/// Deletes the rows whose id is among `ids`, in one statement. An id that no
/// row has deletes nothing and is no error. The delete goes on record with
/// the ids that [`storable_ids`] made of `ids`.
pub fn remove_todos(store: &mut Store, ids: Vec<usize>) -> (outcome: Result<(), RemoveTodoError>)
    ensures
        match outcome {
            Ok(()) => final(store).record() == old(store).record().push(
                delete_of(deleted_ids(ids@)),
            ),
            Err(_) => final(store).record() == old(store).record(),
        },
{
    let values = storable_ids(&ids);
    proof {
        lemma_stored_ids_are_not_negative(ids@);
        assert(plain(values@) =~= deleted_ids(ids@).map_values(|id: nat| id as int));
    }
    match execute_with_array(&store.connection, &mut store.record, DELETE_QUERY, values) {
        Ok(_) => Ok(()),
        Err(error) => Err(RemoveTodoError(error)),
    }
}

/// The calls that make a write, as they stand on record when all of them
/// were reported done: an insert and an update run in a transaction, one
/// statement for each item; a delete is one statement; to write nothing is
/// no call.
pub open spec fn calls_of(write: WriteView) -> Seq<Entry> {
    match write {
        WriteView::Insert(items) => committed(inserts(items)),
        WriteView::Update(items) => committed(updates(items)),
        WriteView::Delete(ids) => seq![delete_of(ids)],
        WriteView::Nothing => Seq::empty(),
    }
}

} // verus!
