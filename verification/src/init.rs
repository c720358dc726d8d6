//! Setting up the storage of a new project.

use vstd::prelude::*;
use crate::error::{store_error_of, Failure, StoreError};
use crate::project::{database_path, database_path_of, is_valid_project_name, valid_project_name};
use crate::statement::{Cell, Read, Write, OPEN_OR_CREATE};
use crate::status::same_text;
use crate::store::TaskStore;

verus! {

/// What the read of the columns says of the table of tasks.
#[derive(Clone, Copy, Debug, PartialEq, Eq, Structural)]
pub enum SchemaState {
    /// There is no such table.
    Missing,
    /// The table is there with the four columns that a task needs.
    Fits,
    /// A table of that name is there, of another shape.
    Differs,
}

/// What a flag of a column says, if it is an integer: set if not zero.
pub open spec fn flag_of(cell: Cell) -> Option<bool> {
    match cell {
        Cell::Integer(number) => Some(number != 0),
        _ => None,
    }
}

/// A row of the read of the columns names a column by this name, declared
/// with this type, letter for letter.
pub open spec fn names_column(row: Seq<Cell>, name: Seq<char>, kind: Seq<char>) -> bool {
    row.len() == 4 && (row[0] matches Cell::Text(stored) && stored@ == name) && (
    row[1] matches Cell::Text(stored) && stored@ == kind)
}

/// The row names the column that is the primary key.
pub open spec fn is_key_column(row: Seq<Cell>, name: Seq<char>, kind: Seq<char>) -> bool {
    names_column(row, name, kind) && flag_of(row[3]) == Some(true)
}

/// The row names a column outside the primary key that is `NOT NULL` or not,
/// as `not_null` says.
pub open spec fn is_plain_column(
    row: Seq<Cell>,
    name: Seq<char>,
    kind: Seq<char>,
    not_null: bool,
) -> bool {
    names_column(row, name, kind) && flag_of(row[2]) == Some(not_null) && flag_of(row[3])
        == Some(false)
}

/// The columns are those of a table of tasks, in their order: `id INTEGER`
/// as primary key, `name TEXT NOT NULL`, `status TEXT NOT NULL` and
/// `description BLOB`, which may be null.
pub open spec fn is_tasks_shape(columns: Seq<Vec<Cell>>) -> bool {
    columns.len() == 4 && is_key_column(columns[0]@, "id"@, "INTEGER"@) && is_plain_column(
        columns[1]@,
        "name"@,
        "TEXT"@,
        true,
    ) && is_plain_column(columns[2]@, "status"@, "TEXT"@, true) && is_plain_column(
        columns[3]@,
        "description"@,
        "BLOB"@,
        false,
    )
}

/// The state of the table, from the read of its columns: no row means no
/// table, the four columns of a task mean that it fits, anything else that it
/// differs.
pub open spec fn schema_state_of(columns: Seq<Vec<Cell>>) -> SchemaState {
    if columns.len() == 0 {
        SchemaState::Missing
    } else if is_tasks_shape(columns) {
        SchemaState::Fits
    } else {
        SchemaState::Differs
    }
}

/// Reads a flag of a column.
fn read_flag(cell: &Cell) -> (flag: Option<bool>)
    ensures
        flag == flag_of(*cell),
{
    match cell {
        Cell::Integer(number) => Some(*number != 0),
        _ => None,
    }
}

/// Tells whether a row names a column by this name and type.
fn row_names_column(row: &Vec<Cell>, name: &str, kind: &str) -> (named: bool)
    ensures
        named == names_column(row@, name@, kind@),
{
    if row.len() != 4 {
        return false;
    }
    let name_fits: bool = match &row[0] {
        Cell::Text(stored) => same_text(stored.as_str(), name),
        _ => false,
    };
    let kind_fits: bool = match &row[1] {
        Cell::Text(stored) => same_text(stored.as_str(), kind),
        _ => false,
    };
    name_fits && kind_fits
}

/// Tells whether a row names the primary-key column by this name and type.
fn row_is_key_column(row: &Vec<Cell>, name: &str, kind: &str) -> (fits: bool)
    ensures
        fits == is_key_column(row@, name@, kind@),
{
    row_names_column(row, name, kind) && read_flag(&row[3]) == Some(true)
}

/// Tells whether a row names a column outside the primary key by this name
/// and type, `NOT NULL` or not as `not_null` says.
fn row_is_plain_column(row: &Vec<Cell>, name: &str, kind: &str, not_null: bool) -> (fits: bool)
    ensures
        fits == is_plain_column(row@, name@, kind@, not_null),
{
    row_names_column(row, name, kind) && read_flag(&row[2]) == Some(not_null) && read_flag(
        &row[3],
    ) == Some(false)
}

/// Tells the state of the table from the read of its columns.
pub fn schema_state(columns: &Vec<Vec<Cell>>) -> (state: SchemaState)
    ensures
        state == schema_state_of(columns@),
{
    if columns.len() == 0 {
        SchemaState::Missing
    } else if columns.len() == 4 && row_is_key_column(&columns[0], "id", "INTEGER")
        && row_is_plain_column(&columns[1], "name", "TEXT", true) && row_is_plain_column(
        &columns[2],
        "status",
        "TEXT",
        true,
    ) && row_is_plain_column(&columns[3], "description", "BLOB", false) {
        SchemaState::Fits
    } else {
        SchemaState::Differs
    }
}

/// The result of creating the table, from what the statement came to:
/// success if the engine carried it out, and for a failure the error of its
/// kind.
pub open spec fn schema_result_of(outcome: Result<(), Failure>) -> Result<(), StoreError> {
    match outcome {
        Ok(()) => Ok(()),
        Err(kind) => Err(store_error_of(kind)),
    }
}

/// Tells the result of creating the table, from what the statement came to.
pub fn schema_result(outcome: Result<(), Failure>) -> (ready: Result<(), StoreError>)
    ensures
        ready == schema_result_of(outcome),
{
    match outcome {
        Ok(()) => Ok(()),
        Err(kind) => Err(kind.as_store_error()),
    }
}

impl TaskStore {
    /// Makes sure that the table of tasks exists, given what a read of its
    /// columns has just returned.
    ///
    /// A table that fits is left as it is, with its rows: the result is
    /// `Ok` and nothing is written. A table of another shape is `Schema`, and
    /// nothing is written. Where there is no table, the statement that
    /// creates it is handed over and `schema_result_of` gives the result from
    /// what it came to: on success exactly that write took effect, on failure
    /// none did.
    pub fn init_schema_from(&mut self, columns: &Vec<Vec<Cell>>) -> (ready: Result<
        (),
        StoreError,
    >)
        ensures
            match schema_state_of(columns@) {
                SchemaState::Fits => ready == Ok::<(), StoreError>(())
                    && final(self)@ == old(self)@,
                SchemaState::Differs => ready == Err::<(), StoreError>(StoreError::Schema)
                    && final(self)@ == old(self)@,
                SchemaState::Missing => (exists|outcome: Result<(), Failure>|
                    ready == #[trigger] schema_result_of(outcome))
                    && (ready is Ok ==> final(self)@ == old(self)@.push(Write::Schema))
                    && (ready is Err ==> final(self)@ == old(self)@),
            },
            final(self).asked() == old(self).asked(),
            final(self).opening() == old(self).opening(),
    {
        match schema_state(columns) {
            SchemaState::Fits => Ok(()),
            SchemaState::Differs => Err(StoreError::Schema),
            SchemaState::Missing => {
                let outcome: Result<(), Failure> = self.define();
                schema_result(outcome)
            },
        }
    }

    /// Makes sure that the table of tasks exists. The columns of the table
    /// are read and `init_schema_from` does the rest.
    ///
    /// On success the table was there and fitted, and nothing was written,
    /// or it was created by the one write `Write::Schema`. On failure nothing
    /// was written, and the error is never `Validation`.
    pub fn init_schema(&mut self) -> (ready: Result<(), StoreError>)
        ensures
            ready is Ok ==> final(self)@ == old(self)@ || final(self)@ == old(self)@.push(
                Write::Schema,
            ),
            ready matches Err(e) ==> final(self)@ == old(self)@ && e != StoreError::Validation,
            final(self).asked() == old(self).asked().push(Read::Columns),
            final(self).opening() == old(self).opening(),
    {
        match self.columns() {
            Err(kind) => Err(kind.as_store_error()),
            Ok(columns) => self.init_schema_from(&columns),
        }
    }
}

/// Opens the storage of a project, creating the file if there is none: the
/// file that `database_path` names for it, in the mode that creates.
pub(crate) fn create_project(project_name: &str) -> (opened: Result<TaskStore, StoreError>)
    ensures
        opened matches Ok(store) ==> store.opening() == (
            database_path_of(project_name@),
            OPEN_OR_CREATE,
        ) && store.asked() == Seq::<Read>::empty() && store@ == Seq::<Write>::empty(),
        opened matches Err(e) ==> e == StoreError::Io,
{
    let path: String = database_path(project_name);
    TaskStore::create(path.as_str())
}

/// Sets up the storage of the project `project_name`: opens its database,
/// creating the file if there is none, and makes sure that the table of
/// tasks exists. The project's folder must be there already.
///
/// `Validation` is returned exactly when the project name is not a valid
/// one; nothing is opened then. A file that cannot be opened or created is
/// `Io`; a table of tasks of another shape is `Schema`.
pub fn init(project_name: &str) -> (ready: Result<(), StoreError>)
    ensures
        !valid_project_name(project_name@) <==> ready == Err::<(), StoreError>(
            StoreError::Validation,
        ),
{
    if !is_valid_project_name(project_name) {
        return Err(StoreError::Validation);
    }
    let mut store: TaskStore = match create_project(project_name) {
        Err(e) => {
            return Err(e);
        },
        Ok(store) => store,
    };
    store.init_schema()
}

} // verus!
