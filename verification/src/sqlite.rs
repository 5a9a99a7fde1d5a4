//! The calls into `rusqlite`, and the record of them.
//!
//! Each function here makes one call and hands back what came of it. Their
//! bodies are not verified, and their contracts claim nothing of what the
//! database does: what a call returns depends on the file it works on.
//!
//! A call that the database reports done goes on the record of the store,
//! with what it was handed; a read goes on it with what came back. Only the
//! functions of this module advance the record, so what the rest of the
//! library says of it is said of the calls that were made. How a row that a
//! query has handed out is read is stated over what its columns hold.

use crate::db::{decode, readable};
use crate::todo::Todo;
use rusqlite::{Connection, Row, Statement, Transaction};
use std::path::PathBuf;
use vstd::prelude::*;

verus! {

/// `rusqlite::Connection`, an open database. Nothing of its state is visible
/// to proofs.
#[verifier::external_type_specification]
#[verifier::external_body]
pub struct ExConnection(rusqlite::Connection);

/// `rusqlite::Error`, carried through unread.
#[verifier::external_type_specification]
#[verifier::external_body]
pub struct ExSqlError(rusqlite::Error);

/// `rusqlite::Transaction`, an open transaction on a connection.
#[verifier::external_type_specification]
#[verifier::external_body]
pub struct ExTransaction<'conn>(rusqlite::Transaction<'conn>);

/// `rusqlite::Statement`, a prepared statement.
#[verifier::external_type_specification]
#[verifier::external_body]
pub struct ExStatement<'conn>(rusqlite::Statement<'conn>);

/// `rusqlite::Row`, the current row of a running query.
#[verifier::external_type_specification]
#[verifier::external_body]
pub struct ExRow<'stmt>(rusqlite::Row<'stmt>);

/// One parameter of a statement, as it was bound.
pub ghost enum Value {
    Text(Seq<char>),
    Flag(bool),
    Integer(int),
    /// The array that `rarray` reads.
    Integers(Seq<int>),
}

/// One call that the database reported done.
pub ghost enum Entry {
    /// The `rarray` table function was registered.
    LoadedArrayModule,
    /// A transaction was begun.
    Begun,
    /// The transaction was committed.
    Committed,
    /// A statement ran, with these parameters.
    Ran { sql: Seq<char>, values: Seq<Value> },
    /// A query ran, and these are the items that were read from its rows.
    Read { sql: Seq<char>, todos: Seq<Todo> },
}

/// The calls that the database reported done on one store, oldest first.
pub struct Record {
    entries: Ghost<Seq<Entry>>,
}

impl Record {
    /// The calls on record.
    pub closed spec fn entries(&self) -> Seq<Entry> {
        self.entries@
    }
}

/// A database of todo items: the connection to it, and the record of the
/// calls that the database reported done on it.
pub struct Store {
    pub(crate) connection: Connection,
    pub(crate) record: Record,
}

impl Store {
    /// The calls that the database reported done on this store, oldest
    /// first. A call is on record as it was handed over: what the database
    /// made of it is not.
    pub open(crate) spec fn record(&self) -> Seq<Entry> {
        self.record.entries()
    }

    /// A store on an open connection, with no call on record.
    pub fn new(connection: Connection) -> (store: Store)
        ensures
            store.record() == Seq::<Entry>::empty(),
    {
        Store { connection, record: Record { entries: Ghost(Seq::empty()) } }
    }

    /// The connection, for statements of the caller's own. They are not on
    /// record.
    pub fn connection(&self) -> (connection: &Connection) {
        &self.connection
    }
}

/// The text that a statement was prepared from.
pub uninterp spec fn sql_of(statement: Statement) -> Seq<char>;

/// Calls `Connection::open`, which opens the database file at `path` for
/// reading and writing and creates it if there is none. Nothing is claimed
/// of the outcome.
#[verifier::external_body]
pub(crate) fn open(path: &PathBuf) -> (opened: Result<Connection, rusqlite::Error>) {
    Connection::open(path)
}

/// Calls `rusqlite::vtab::array::load_module`, which registers the `rarray`
/// table function on the connection. Where it succeeds, that is on record.
#[verifier::external_body]
pub(crate) fn load_array_module(connection: &Connection, record: &mut Record) -> (loaded: Result<
    (),
    rusqlite::Error,
>)
    ensures
        match loaded {
            Ok(()) => final(record).entries() == old(record).entries().push(
                Entry::LoadedArrayModule,
            ),
            Err(_) => final(record).entries() == old(record).entries(),
        },
{
    rusqlite::vtab::array::load_module(connection)
}

/// Calls `Connection::execute` without parameters; the count of changed rows
/// comes back. Where it succeeds, the statement is on record.
#[verifier::external_body]
pub(crate) fn execute(connection: &Connection, record: &mut Record, sql: &str) -> (changed: Result<
    usize,
    rusqlite::Error,
>)
    ensures
        match changed {
            Ok(_) => final(record).entries() == old(record).entries().push(
                Entry::Ran { sql: sql@, values: Seq::empty() },
            ),
            Err(_) => final(record).entries() == old(record).entries(),
        },
{
    connection.execute(sql, [])
}

/// The integers of an array, as plain numbers.
pub open spec fn plain(values: Seq<i64>) -> Seq<int> {
    values.map_values(|value: i64| value as int)
}

/// Calls `Connection::execute` with a list of integers as the one parameter,
/// handed over as the array that `rarray` reads; the count of changed rows
/// comes back. Where it succeeds, the statement is on record with the array.
#[verifier::external_body]
pub(crate) fn execute_with_array(
    connection: &Connection,
    record: &mut Record,
    sql: &str,
    values: Vec<i64>,
) -> (changed: Result<usize, rusqlite::Error>)
    ensures
        match changed {
            Ok(_) => final(record).entries() == old(record).entries().push(
                Entry::Ran { sql: sql@, values: seq![Value::Integers(plain(values@))] },
            ),
            Err(_) => final(record).entries() == old(record).entries(),
        },
{
    let array: Vec<rusqlite::types::Value> = values.into_iter().map(
        rusqlite::types::Value::from,
    ).collect();
    connection.execute(sql, [std::rc::Rc::new(array)])
}

/// Calls `Connection::transaction`, which begins a deferred transaction or
/// reports why SQLite refused. Where it succeeds, that is on record.
#[verifier::external_body]
pub(crate) fn begin<'conn>(connection: &'conn mut Connection, record: &mut Record) -> (started:
    Result<Transaction<'conn>, rusqlite::Error>)
    ensures
        match started {
            Ok(_) => final(record).entries() == old(record).entries().push(Entry::Begun),
            Err(_) => final(record).entries() == old(record).entries(),
        },
{
    connection.transaction()
}

/// Calls `Deref::deref` of `Transaction`, which hands out the connection the
/// transaction runs on.
#[verifier::external_body]
pub(crate) fn connection_of<'a, 'conn>(
    transaction: &'a Transaction<'conn>,
) -> (connection: &'a Connection) {
    transaction
}

/// Calls `Transaction::commit`, which consumes the transaction. Where it
/// succeeds, the commit is on record.
#[verifier::external_body]
pub(crate) fn commit(transaction: Transaction<'_>, record: &mut Record) -> (committed: Result<
    (),
    rusqlite::Error,
>)
    ensures
        match committed {
            Ok(()) => final(record).entries() == old(record).entries().push(Entry::Committed),
            Err(_) => final(record).entries() == old(record).entries(),
        },
{
    transaction.commit()
}

/// Calls `Connection::prepare`, which compiles `sql` or reports why it could
/// not. A statement that comes back is that of `sql`. Preparing runs
/// nothing, so nothing goes on record.
#[verifier::external_body]
pub(crate) fn prepare<'conn>(connection: &'conn Connection, sql: &str) -> (prepared: Result<
    Statement<'conn>,
    rusqlite::Error,
>)
    ensures
        prepared matches Ok(statement) ==> sql_of(statement) == sql@,
{
    connection.prepare(sql)
}

/// Calls `Statement::execute` with a title and a done flag as the two
/// parameters; the count of changed rows comes back. Where it succeeds, the
/// statement is on record with the two.
#[verifier::external_body]
pub(crate) fn execute_with_item(
    statement: &mut Statement<'_>,
    record: &mut Record,
    title: &String,
    done: bool,
) -> (changed: Result<usize, rusqlite::Error>)
    ensures
        sql_of(*final(statement)) == sql_of(*old(statement)),
        match changed {
            Ok(_) => final(record).entries() == old(record).entries().push(
                Entry::Ran {
                    sql: sql_of(*old(statement)),
                    values: seq![Value::Text(title@), Value::Flag(done)],
                },
            ),
            Err(_) => final(record).entries() == old(record).entries(),
        },
{
    statement.execute((title, done))
}

/// Calls `Statement::execute` with a title, a done flag and an id as the
/// three parameters; the count of changed rows comes back. The parameters are
/// bound before the statement runs, and an integer that does not fit a signed
/// 64-bit integer cannot be bound: with such an id the call fails. Where it
/// succeeds, the statement is on record with the three.
#[verifier::external_body]
pub(crate) fn execute_with_item_and_id(
    statement: &mut Statement<'_>,
    record: &mut Record,
    title: &String,
    done: bool,
    id: usize,
) -> (changed: Result<usize, rusqlite::Error>)
    ensures
        id > i64::MAX ==> changed is Err,
        sql_of(*final(statement)) == sql_of(*old(statement)),
        match changed {
            Ok(_) => final(record).entries() == old(record).entries().push(
                Entry::Ran {
                    sql: sql_of(*old(statement)),
                    values: seq![Value::Text(title@), Value::Flag(done), Value::Integer(id as int)],
                },
            ),
            Err(_) => final(record).entries() == old(record).entries(),
        },
{
    statement.execute((title, done, id))
}

/// Calls `Statement::query_map` without parameters and collects what its
/// iterator yields: for each row that SQLite hands out, in its order, the
/// result of [`decode`], and an error in place of a row that it could not
/// step to. So each item that was read is what `decode` made of some row;
/// which rows there are, and how many, is not claimed. Where the query
/// succeeds, it is on record with the items that were read.
#[verifier::external_body]
pub(crate) fn query_items(statement: &mut Statement<'_>, record: &mut Record) -> (rows: Result<
    Vec<Result<Todo, rusqlite::Error>>,
    rusqlite::Error,
>)
    ensures
        rows matches Ok(items) ==> forall|k: int|
            0 <= k < items.len() && (#[trigger] items[k]) is Ok ==> exists|row: Row|
                call_ensures(decode, (&row,), items[k]),
        match rows {
            Ok(items) => final(record).entries() == old(record).entries().push(
                Entry::Read { sql: sql_of(*old(statement)), todos: readable(items@) },
            ),
            Err(_) => final(record).entries() == old(record).entries(),
        },
{
    let rows = statement.query_map([], |row| decode(row))?;
    Ok(rows.collect())
}

/// What one column of a row holds, as far as the library reads it.
pub ghost enum Cell {
    /// An integer.
    Integer(i64),
    /// A text that is valid UTF-8, as its characters.
    Text(Seq<char>),
    /// Anything else: no value, a real number, a blob, or a text that is not
    /// valid UTF-8.
    Other,
}

/// What the columns of a row hold, from the first to the last. A row is
/// borrowed from its query, so its columns stay as they are while it can be
/// read.
pub uninterp spec fn cells(row: Row) -> Seq<Cell>;

/// The integer that a column holds, where the row has that column and it
/// holds one.
pub open spec fn integer_in(cells: Seq<Cell>, column: int) -> Option<i64> {
    if 0 <= column < cells.len() {
        match cells[column] {
            Cell::Integer(number) => Some(number),
            _ => None,
        }
    } else {
        None
    }
}

/// What a column read as `usize` gives: the integer that it holds, where
/// that is not negative and fits.
pub open spec fn usize_in(cells: Seq<Cell>, column: int) -> Option<usize> {
    match integer_in(cells, column) {
        Some(number) => if 0 <= number <= usize::MAX {
            Some(number as usize)
        } else {
            None
        },
        None => None,
    }
}

/// What a column read as `String` gives: the text that it holds.
pub open spec fn text_in(cells: Seq<Cell>, column: int) -> Option<Seq<char>> {
    if 0 <= column < cells.len() {
        match cells[column] {
            Cell::Text(text) => Some(text),
            _ => None,
        }
    } else {
        None
    }
}

/// What a column read as `bool` gives: whether the integer that it holds is
/// not zero.
pub open spec fn bool_in(cells: Seq<Cell>, column: int) -> Option<bool> {
    match integer_in(cells, column) {
        Some(number) => Some(number != 0),
        None => None,
    }
}

/// Calls `Row::get` for a column read as `usize`. It succeeds exactly where
/// the row has the column and the column holds an integer that is not
/// negative and fits `usize`, and then gives that integer.
#[verifier::external_body]
pub(crate) fn column_usize(row: &Row<'_>, column: usize) -> (value: Result<
    usize,
    rusqlite::Error,
>)
    ensures
        match value {
            Ok(number) => usize_in(cells(*row), column as int) == Some(number),
            Err(_) => usize_in(cells(*row), column as int) is None,
        },
{
    row.get(column)
}

/// Calls `Row::get` for a column read as `String`. It succeeds exactly where
/// the row has the column and the column holds a text that is valid UTF-8,
/// and then gives that text.
#[verifier::external_body]
pub(crate) fn column_string(row: &Row<'_>, column: usize) -> (value: Result<
    String,
    rusqlite::Error,
>)
    ensures
        match value {
            Ok(text) => text_in(cells(*row), column as int) == Some(text@),
            Err(_) => text_in(cells(*row), column as int) is None,
        },
{
    row.get(column)
}

/// Calls `Row::get` for a column read as `bool`. It succeeds exactly where
/// the row has the column and the column holds an integer, and then tells
/// whether that integer is not zero.
#[verifier::external_body]
pub(crate) fn column_bool(row: &Row<'_>, column: usize) -> (value: Result<bool, rusqlite::Error>)
    ensures
        match value {
            Ok(flag) => bool_in(cells(*row), column as int) == Some(flag),
            Err(_) => bool_in(cells(*row), column as int) is None,
        },
{
    row.get(column)
}

} // verus!
