//! The statements that this library hands to the database engine, the
//! values that go in with them and the values that come back.

use vstd::prelude::*;
use crate::status::{status_text, Status};

verus! {

/// Creates the table of tasks unless it is already there.
pub const CREATE_TASKS: &'static str =
    "CREATE TABLE IF NOT EXISTS tasks (id INTEGER PRIMARY KEY, name TEXT NOT NULL, status TEXT NOT NULL, description BLOB)";

/// Adds a row; the engine assigns its id.
pub const INSERT_TASK: &'static str = "INSERT INTO tasks (name, status) VALUES (?1, ?2)";

/// Overwrites the name of the row with a given id.
pub const UPDATE_NAME: &'static str = "UPDATE tasks SET name = ?1 WHERE id = ?2";

/// Overwrites the status of the row with a given id.
pub const UPDATE_STATUS: &'static str = "UPDATE tasks SET status = ?1 WHERE id = ?2";

/// Reads name, status and description of the row with a given id.
pub const SELECT_TASK: &'static str = "SELECT name, status, description FROM tasks WHERE id = ?1";

/// Reads the status of the row with a given id, and nothing else of it.
pub const SELECT_STATUS: &'static str = "SELECT status FROM tasks WHERE id = ?1";

/// Reads the id of the row with a given id: a row comes back if there is one.
pub const SELECT_ID: &'static str = "SELECT id FROM tasks WHERE id = ?1";

/// Reads, for each column of the table of tasks, its name, its declared
/// type, whether it is `NOT NULL` and whether it belongs to the primary key.
/// No row comes back if there is no such table.
pub const SELECT_COLUMNS: &'static str =
    "SELECT name, type, \"notnull\", pk FROM pragma_table_info('tasks')";

/// The mode in which existing storage is opened: for reading and writing
/// (2), file names may be URIs (64), no mutex of the connection's own
/// (32768). A file that is missing is a failure.
pub const OPEN_EXISTING: i32 = 32834;

/// The mode in which storage is set up: as `OPEN_EXISTING`, and a file that
/// is missing is created (4).
pub const OPEN_OR_CREATE: i32 = 32838;

/// The two modes in which this library opens a database.
pub open spec fn is_open_mode(flags: i32) -> bool {
    flags == OPEN_EXISTING || flags == OPEN_OR_CREATE
}

/// A value bound to a `?N` placeholder of a statement.
#[derive(Debug, PartialEq, Eq)]
pub enum SqlArg {
    Text(String),
    Integer(i64),
}

/// One value of a row that was read, with the type under which it is stored.
/// A floating-point value is only known to be one.
#[derive(Debug, PartialEq, Eq)]
pub enum Cell {
    Null,
    Integer(i64),
    Real,
    Text(String),
    Blob(Vec<u8>),
}

/// A change that this library asks of the storage.
pub enum Write {
    /// Create the table of tasks.
    Schema,
    /// Add a task with this name and status.
    Insert { name: Seq<char>, status: Status },
    /// Give the task `id` this name.
    Rename { id: int, name: Seq<char> },
    /// Give the task `id` this status.
    SetStatus { id: int, status: Status },
}

/// What a bound argument holds.
pub enum ArgValue {
    Text(Seq<char>),
    Integer(int),
}

/// What one argument holds.
pub open spec fn arg_value(arg: SqlArg) -> ArgValue {
    match arg {
        SqlArg::Text(text) => ArgValue::Text(text@),
        SqlArg::Integer(number) => ArgValue::Integer(number as int),
    }
}

/// What a list of arguments holds, in order.
pub open spec fn arg_values(args: Seq<SqlArg>) -> Seq<ArgValue> {
    Seq::new(args.len(), |i: int| arg_value(args[i]))
}

/// The statement that carries out a write.
pub open spec fn statement_text(write: Write) -> Seq<char> {
    match write {
        Write::Schema => CREATE_TASKS@,
        Write::Insert { .. } => INSERT_TASK@,
        Write::Rename { .. } => UPDATE_NAME@,
        Write::SetStatus { .. } => UPDATE_STATUS@,
    }
}

/// The arguments bound to that statement's placeholders. A status goes in
/// as its text.
pub open spec fn statement_args(write: Write) -> Seq<ArgValue> {
    match write {
        Write::Schema => seq![],
        Write::Insert { name, status } => seq![
            ArgValue::Text(name),
            ArgValue::Text(status_text(status)),
        ],
        Write::Rename { id, name } => seq![ArgValue::Text(name), ArgValue::Integer(id)],
        Write::SetStatus { id, status } => seq![
            ArgValue::Text(status_text(status)),
            ArgValue::Integer(id),
        ],
    }
}

/// A statement with its arguments carries out `write`.
pub open spec fn carries_out(write: Write, sql: Seq<char>, args: Seq<ArgValue>) -> bool {
    sql == statement_text(write) && args == statement_args(write)
}

/// A statement with its arguments is one of the writes of this library.
pub open spec fn is_write(sql: Seq<char>, args: Seq<ArgValue>) -> bool {
    exists|write: Write| #[trigger] carries_out(write, sql, args)
}

/// A question that this library asks of the storage.
pub enum Read {
    /// Name, status and description of the task `id`.
    Task { id: int },
    /// The status of the task `id`, and nothing else of it.
    Status { id: int },
    /// Whether the task `id` has a row.
    Id { id: int },
    /// The columns of the table of tasks.
    Columns,
}

/// The statement that asks a read.
pub open spec fn query_text(read: Read) -> Seq<char> {
    match read {
        Read::Task { .. } => SELECT_TASK@,
        Read::Status { .. } => SELECT_STATUS@,
        Read::Id { .. } => SELECT_ID@,
        Read::Columns => SELECT_COLUMNS@,
    }
}

/// The ids bound to that statement's placeholders: the row's id for the
/// read of a row, none for the read of the columns.
pub open spec fn query_ids(read: Read) -> Seq<int> {
    match read {
        Read::Task { id } => seq![id],
        Read::Status { id } => seq![id],
        Read::Id { id } => seq![id],
        Read::Columns => seq![],
    }
}

/// What a list of ids holds, in order.
pub open spec fn id_values(ids: Seq<i64>) -> Seq<int> {
    Seq::new(ids.len(), |i: int| ids[i] as int)
}

/// A statement with its ids asks `read`.
pub open spec fn asks(read: Read, sql: Seq<char>, ids: Seq<i64>) -> bool {
    sql == query_text(read) && id_values(ids) == query_ids(read)
}

/// A statement with its ids is one of the reads of this library.
pub open spec fn is_query(sql: Seq<char>, ids: Seq<i64>) -> bool {
    exists|read: Read| #[trigger] asks(read, sql, ids)
}

/// No write stores an unknown status: the text that a write binds for a
/// status is read back as that status.
pub proof fn lemma_written_status_is_known(write: Write)
    ensures
        write matches Write::Insert { status, .. } ==> statement_args(write)[1] == ArgValue::Text(
            status_text(status),
        ) && crate::status::status_of_text(status_text(status)) == Some(status),
        write matches Write::SetStatus { status, .. } ==> statement_args(write)[0]
            == ArgValue::Text(status_text(status)) && crate::status::status_of_text(
            status_text(status),
        ) == Some(status),
{
    match write {
        Write::Insert { status, .. } => crate::status::lemma_text_round_trip(status),
        Write::SetStatus { status, .. } => crate::status::lemma_text_round_trip(status),
        _ => {},
    }
}

} // verus!
