//! What can go wrong, and how a failure reported by the database engine is
//! sorted into those kinds.

use vstd::prelude::*;

verus! {

/// Failure to set up a project's storage.
#[derive(Clone, Copy, Debug, PartialEq, Eq, Structural)]
pub enum StoreError {
    /// The storage file cannot be reached or written.
    Io,
    /// The table cannot be created, or what is already there does not fit.
    Schema,
    /// The project name cannot serve as a file name.
    Validation,
}

/// Failure of an operation on tasks.
#[derive(Clone, Copy, Debug, PartialEq, Eq, Structural)]
pub enum RepoError {
    /// The storage file cannot be reached or written.
    Io,
    /// The `tasks` table is missing or does not have the expected shape.
    Schema,
    /// An argument breaks a rule: an empty name, a project name with a path
    /// separator.
    Validation,
    /// The project has no storage, or no task has the given id.
    NotFound,
    /// A stored row does not hold what a task row must hold.
    InvalidState,
}

/// The kinds into which the engine's failures fall.
#[derive(Clone, Copy, Debug, PartialEq, Eq, Structural)]
pub enum Failure {
    /// The database file could not be opened.
    CannotOpen,
    /// The file was reached but could not be read, written or locked.
    Io,
    /// A stored value could not be read as the type asked for.
    Data,
    /// The engine refused the statement for any other reason.
    Engine,
}

/// The primary result code inside an extended one: its lowest eight bits.
pub open spec fn primary_code(code: i32) -> int {
    code as int % 256
}

/// The primary result codes that report trouble with the file rather than
/// with the statement: permission, busy, locked, read-only, I/O error, disk
/// full, locking protocol, no large-file support.
pub open spec fn is_io_code(primary: int) -> bool {
    primary == 3 || primary == 5 || primary == 6 || primary == 8 || primary == 10
        || primary == 13 || primary == 15 || primary == 22
}

/// The kind of a failure, from the extended result code that came with it.
/// A failure without a code did not come from the engine itself: a value read
/// from a row did not have the expected type.
pub open spec fn failure_of_code(code: Option<i32>) -> Failure {
    match code {
        None => Failure::Data,
        Some(c) => if c < 0 {
            Failure::Engine
        } else if primary_code(c) == 14 {
            Failure::CannotOpen
        } else if is_io_code(primary_code(c)) {
            Failure::Io
        } else {
            Failure::Engine
        },
    }
}

/// Sorts a failure by its extended result code.
pub fn classify(code: Option<i32>) -> (kind: Failure)
    ensures
        kind == failure_of_code(code),
{
    match code {
        None => Failure::Data,
        Some(c) => {
            if c < 0 {
                Failure::Engine
            } else {
                let primary: i32 = c % 256;
                if primary == 14 {
                    Failure::CannotOpen
                } else if primary == 3 || primary == 5 || primary == 6 || primary == 8
                    || primary == 10 || primary == 13 || primary == 15 || primary == 22 {
                    Failure::Io
                } else {
                    Failure::Engine
                }
            }
        },
    }
}

/// What a write came to, from the engine's answer to its statement. The
/// answer is the number of rows that the statement changed or, for a
/// failure, the extended result code that came with it. A statement that was
/// carried out took effect, `Ok(true)`, if it changed a row or if it is one
/// that needs no row, as the creation of the table is; a failure is sorted
/// by its code.
pub open spec fn write_outcome_of(answer: Result<usize, Option<i32>>, needs_row: bool) -> Result<
    bool,
    Failure,
> {
    match answer {
        Ok(rows) => Ok(!needs_row || rows > 0),
        Err(code) => Err(failure_of_code(code)),
    }
}

/// Tells what a write came to, from the engine's answer to its statement.
pub fn write_outcome(answer: Result<usize, Option<i32>>, needs_row: bool) -> (outcome: Result<
    bool,
    Failure,
>)
    ensures
        outcome == write_outcome_of(answer, needs_row),
{
    match answer {
        Ok(rows) => Ok(!needs_row || rows > 0),
        Err(code) => Err(classify(code)),
    }
}

/// The error of `init` for a statement that failed.
pub open spec fn store_error_of(kind: Failure) -> StoreError {
    match kind {
        Failure::CannotOpen => StoreError::Io,
        Failure::Io => StoreError::Io,
        Failure::Data => StoreError::Schema,
        Failure::Engine => StoreError::Schema,
    }
}

/// The error of a task operation whose storage could not be opened.
pub open spec fn open_error_of(kind: Failure) -> RepoError {
    match kind {
        Failure::CannotOpen => RepoError::NotFound,
        Failure::Io => RepoError::Io,
        Failure::Data => RepoError::Io,
        Failure::Engine => RepoError::Io,
    }
}

/// The error of a task operation for a write that failed. A write reads no
/// value, so none of its failures is `InvalidState`.
pub open spec fn write_error_of(kind: Failure) -> RepoError {
    match kind {
        Failure::CannotOpen => RepoError::Io,
        Failure::Io => RepoError::Io,
        Failure::Data => RepoError::Schema,
        Failure::Engine => RepoError::Schema,
    }
}

/// The error of a task operation for a read that failed.
pub open spec fn read_error_of(kind: Failure) -> RepoError {
    match kind {
        Failure::CannotOpen => RepoError::Io,
        Failure::Io => RepoError::Io,
        Failure::Data => RepoError::InvalidState,
        Failure::Engine => RepoError::Schema,
    }
}

impl Failure {
    /// What `init` reports for a statement that failed in this way.
    pub fn as_store_error(self) -> (e: StoreError)
        ensures
            e == store_error_of(self),
    {
        match self {
            Failure::CannotOpen => StoreError::Io,
            Failure::Io => StoreError::Io,
            Failure::Data => StoreError::Schema,
            Failure::Engine => StoreError::Schema,
        }
    }

    /// What a task operation reports when opening the storage failed in this
    /// way.
    pub fn as_open_error(self) -> (e: RepoError)
        ensures
            e == open_error_of(self),
    {
        match self {
            Failure::CannotOpen => RepoError::NotFound,
            _ => RepoError::Io,
        }
    }

    /// What a task operation reports for a write that failed in this way.
    pub fn as_write_error(self) -> (e: RepoError)
        ensures
            e == write_error_of(self),
    {
        match self {
            Failure::CannotOpen => RepoError::Io,
            Failure::Io => RepoError::Io,
            Failure::Data => RepoError::Schema,
            Failure::Engine => RepoError::Schema,
        }
    }

    /// What a task operation reports for a read that failed in this way.
    pub fn as_read_error(self) -> (e: RepoError)
        ensures
            e == read_error_of(self),
    {
        match self {
            Failure::CannotOpen => RepoError::Io,
            Failure::Io => RepoError::Io,
            Failure::Data => RepoError::InvalidState,
            Failure::Engine => RepoError::Schema,
        }
    }
}

} // verus!
