//! The boundary to SQLite. Nothing in this file is proved: each function
//! hands plain values to `rusqlite` and hands plain values back, and its
//! contract is taken on trust.
//!
//! What a call returns depends on what is on disk, so none of these promises
//! anything about its result. The callers are verified for every outcome.
//! What each demands is that it is handed nothing but a statement or a mode
//! of this library.

use vstd::prelude::*;
use crate::statement::{arg_values, is_open_mode, is_query, is_write, Cell, SqlArg};

verus! {

/// An open connection to one database, `rusqlite::Connection`. Opaque here.
#[verifier::external_type_specification]
#[verifier::external_body]
pub struct ExConnection(rusqlite::Connection);

/// Any failure that `rusqlite` reports, `rusqlite::Error`. Opaque here.
#[verifier::external_type_specification]
#[verifier::external_body]
pub struct ExError(rusqlite::Error);

/// `rusqlite::Connection::open_with_flags`, with the flags made from their
/// bits by `rusqlite::OpenFlags::from_bits_truncate`: opens the database at
/// `path` in the given mode. Nothing is claimed of the outcome.
#[verifier::external_body]
pub(crate) fn open_with_flags(path: &str, flags: i32) -> (opened: Result<rusqlite::Connection, rusqlite::Error>)
    requires
        is_open_mode(flags),
{
    rusqlite::Connection::open_with_flags(path, rusqlite::OpenFlags::from_bits_truncate(flags))
}

/// `rusqlite::Connection::execute`: runs one statement with `args` bound to
/// its placeholders in order and returns the number of rows it changed.
/// Nothing is claimed of the outcome.
#[verifier::external_body]
pub(crate) fn execute(conn: &rusqlite::Connection, sql: &str, args: &Vec<SqlArg>) -> (changed: Result<usize, rusqlite::Error>)
    requires
        is_write(sql@, arg_values(args@)),
{
    conn.execute(
        sql,
        rusqlite::params_from_iter(args.iter().map(|arg| match arg {
            SqlArg::Text(text) => rusqlite::types::Value::Text(text.clone()),
            SqlArg::Integer(number) => rusqlite::types::Value::Integer(*number),
        })),
    )
}

/// `rusqlite::Connection::prepare` and `rusqlite::Statement::query_map`:
/// runs a query with `ids` bound to its placeholders in order and returns
/// every row that it gives, each as the values of all its columns. Nothing
/// is claimed of the outcome.
#[verifier::external_body]
pub(crate) fn query(conn: &rusqlite::Connection, sql: &str, ids: &Vec<i64>) -> (rows: Result<Vec<Vec<Cell>>, rusqlite::Error>)
    requires
        is_query(sql@, ids@),
{
    let mut statement = conn.prepare(sql)?;
    let width = statement.column_count();
    let rows = statement.query_map(rusqlite::params_from_iter(ids.iter()), |row| {
        (0..width).map(|i| Ok(match row.get::<usize, rusqlite::types::Value>(i)? {
            rusqlite::types::Value::Null => Cell::Null,
            rusqlite::types::Value::Integer(number) => Cell::Integer(number),
            rusqlite::types::Value::Real(_) => Cell::Real,
            rusqlite::types::Value::Text(text) => Cell::Text(text),
            rusqlite::types::Value::Blob(bytes) => Cell::Blob(bytes),
        })).collect::<Result<Vec<Cell>, rusqlite::Error>>()
    })?;
    rows.collect()
}

/// `rusqlite::Connection::last_insert_rowid`: the row id that the most recent
/// successful insert on this connection was given.
#[verifier::external_body]
pub(crate) fn last_insert_rowid(conn: &rusqlite::Connection) -> (id: i64) {
    conn.last_insert_rowid()
}

/// `rusqlite::Error::sqlite_extended_error_code`: the engine's extended
/// result code where the failure came from the engine, `None` where it did
/// not.
#[verifier::external_body]
pub(crate) fn extended_code(failure: &rusqlite::Error) -> (code: Option<i32>) {
    failure.sqlite_extended_error_code()
}

} // verus!
