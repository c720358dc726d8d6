//! A handle on one project's storage, and the record of what was written
//! through it.

use vstd::prelude::*;
use crate::engine::{execute, extended_code, last_insert_rowid, open_with_flags, query};
use crate::error::{classify, write_outcome, write_outcome_of, Failure, RepoError, StoreError};
use crate::statement::{arg_values, asks, carries_out, id_values, is_open_mode, query_ids, Cell, Read, SqlArg, Write, CREATE_TASKS, INSERT_TASK, OPEN_EXISTING, OPEN_OR_CREATE, SELECT_COLUMNS};
use crate::status::Status;

verus! {

/// An open connection to the storage of one project.
///
/// Its view is the list of writes that took effect through this handle,
/// oldest first: the engine reported each as carried out, and each write of a
/// row changed a row. An operation that leaves the view as it was has changed
/// nothing in the storage. Beside the view stand the reads that were asked
/// through the handle, whatever came back, and the path and the mode that the
/// handle was opened with.
pub struct TaskStore {
    conn: rusqlite::Connection,
    path: Ghost<Seq<char>>,
    mode: Ghost<i32>,
    asked: Ghost<Seq<Read>>,
    done: Ghost<Seq<Write>>,
}

impl View for TaskStore {
    type V = Seq<Write>;

    closed spec fn view(&self) -> Seq<Write> {
        self.done@
    }
}

/// The first of the rows that a query gave, if it gave any.
pub fn first_row(rows: Vec<Vec<Cell>>) -> (first: Option<Vec<Cell>>)
    ensures
        rows@.len() == 0 ==> first is None,
        rows@.len() > 0 ==> first == Some(rows@[0]),
{
    let mut rows = rows;
    if rows.len() == 0 {
        None
    } else {
        Some(rows.remove(0))
    }
}

impl TaskStore {
    /// The path of the file that this handle was opened with.
    pub closed spec fn path(&self) -> Seq<char> {
        self.path@
    }

    /// The mode that this handle was opened in: `OPEN_EXISTING` or
    /// `OPEN_OR_CREATE`.
    pub closed spec fn mode(&self) -> i32 {
        self.mode@
    }

    /// Path and mode together: what the handle was opened with.
    pub open spec fn opening(&self) -> (Seq<char>, i32) {
        (self.path(), self.mode())
    }

    /// The reads that were handed to the engine through this handle, oldest
    /// first, whatever the engine answered.
    pub closed spec fn asked(&self) -> Seq<Read> {
        self.asked@
    }

    /// Hands path and mode to the engine. This is the one place where a
    /// database is opened: a handle holds the path and the mode that were
    /// handed over here, and nothing was read or written through it yet. A
    /// failure comes back as its code.
    fn connect(path: &str, flags: i32) -> (opened: Result<TaskStore, Option<i32>>)
        requires
            is_open_mode(flags),
        ensures
            opened matches Ok(store) ==> store.path() == path@ && store.mode() == flags
                && store.asked() == Seq::<Read>::empty() && store@ == Seq::<Write>::empty(),
    {
        match open_with_flags(path, flags) {
            Ok(conn) => Ok(
                TaskStore {
                    conn,
                    path: Ghost(path@),
                    mode: Ghost(flags),
                    asked: Ghost(Seq::empty()),
                    done: Ghost(Seq::empty()),
                },
            ),
            Err(failure) => Err(extended_code(&failure)),
        }
    }

    /// Opens the storage at `path` in the mode `OPEN_OR_CREATE`: the file is
    /// created if there is none. Whether that succeeds is up to the file
    /// system; every failure is `Io`.
    pub fn create(path: &str) -> (opened: Result<TaskStore, StoreError>)
        ensures
            opened matches Ok(store) ==> store.path() == path@ && store.mode() == OPEN_OR_CREATE
                && store.asked() == Seq::<Read>::empty() && store@ == Seq::<Write>::empty(),
            opened matches Err(e) ==> e == StoreError::Io,
    {
        match TaskStore::connect(path, OPEN_OR_CREATE) {
            Ok(store) => Ok(store),
            Err(_) => Err(StoreError::Io),
        }
    }

    /// Opens the storage at `path` in the mode `OPEN_EXISTING`: the file must
    /// exist already, none is created. A file that the engine cannot open is
    /// `NotFound`; any other failure is `Io`.
    pub fn open(path: &str) -> (opened: Result<TaskStore, RepoError>)
        ensures
            opened matches Ok(store) ==> store.path() == path@ && store.mode() == OPEN_EXISTING
                && store.asked() == Seq::<Read>::empty() && store@ == Seq::<Write>::empty(),
            opened matches Err(e) ==> e == RepoError::NotFound || e == RepoError::Io,
    {
        match TaskStore::connect(path, OPEN_EXISTING) {
            Ok(store) => Ok(store),
            Err(code) => Err(classify(code).as_open_error()),
        }
    }

    /// Hands the statement of `write` to the engine and settles the write by
    /// `write_outcome` from the engine's answer. The write is recorded
    /// exactly if the outcome is `Ok(true)`. Every write of this library goes
    /// through here, and nothing else adds to the record.
    fn ask(&mut self, Ghost(write): Ghost<Write>, sql: &str, args: &Vec<SqlArg>, needs_row: bool) -> (outcome: Result<bool, Failure>)
        requires
            carries_out(write, sql@, arg_values(args@)),
            needs_row == !(write is Schema),
        ensures
            exists|answer: Result<usize, Option<i32>>|
                outcome == #[trigger] write_outcome_of(answer, needs_row),
            outcome == Ok::<bool, Failure>(true) ==> final(self)@ == old(self)@.push(write),
            outcome != Ok::<bool, Failure>(true) ==> final(self)@ == old(self)@,
            final(self).asked() == old(self).asked(),
            final(self).opening() == old(self).opening(),
    {
        let answer: Result<usize, Option<i32>> = match execute(&self.conn, sql, args) {
            Ok(rows) => Ok(rows),
            Err(failure) => Err(extended_code(&failure)),
        };
        let outcome: Result<bool, Failure> = write_outcome(answer, needs_row);
        if let Ok(true) = outcome {
            self.done = Ghost(self.done@.push(write));
        }
        outcome
    }

    /// Hands the statement that creates the table to the engine. The write is
    /// recorded exactly if the engine reports that it carried the statement
    /// out.
    pub(crate) fn define(&mut self) -> (defined: Result<(), Failure>)
        ensures
            defined is Ok ==> final(self)@ == old(self)@.push(Write::Schema),
            defined is Err ==> final(self)@ == old(self)@,
            final(self).asked() == old(self).asked(),
            final(self).opening() == old(self).opening(),
    {
        let args: Vec<SqlArg> = Vec::new();
        assert(arg_values(args@) =~= crate::statement::statement_args(Write::Schema));
        match self.ask(Ghost(Write::Schema), CREATE_TASKS, &args, false) {
            Ok(_) => Ok(()),
            Err(kind) => Err(kind),
        }
    }

    /// Hands the insert of a task to the engine. The result is the id of the
    /// new row if the engine carried the statement out and a row was added,
    /// and only then is the write recorded; it is `None` if the engine
    /// reported success without adding a row.
    pub(crate) fn insert(&mut self, name: &str, status: Status) -> (added: Result<Option<i64>, Failure>)
        ensures
            added matches Ok(Some(_)) ==> final(self)@ == old(self)@.push(
                Write::Insert { name: name@, status },
            ),
            !(added matches Ok(Some(_))) ==> final(self)@ == old(self)@,
            final(self).asked() == old(self).asked(),
            final(self).opening() == old(self).opening(),
    {
        let mut args: Vec<SqlArg> = Vec::new();
        args.push(SqlArg::Text(name.to_owned()));
        args.push(SqlArg::Text(status.as_text().to_owned()));
        let ghost write = Write::Insert { name: name@, status };
        assert(arg_values(args@) =~= crate::statement::statement_args(write));
        match self.ask(Ghost(write), INSERT_TASK, &args, true) {
            // A row was added, so the latest row id is this row's.
            Ok(true) => Ok(Some(last_insert_rowid(&self.conn))),
            Ok(false) => Ok(None),
            Err(kind) => Err(kind),
        }
    }

    /// Hands the update of one row to the engine. The result is `true` if the
    /// engine carried the statement out and a row was changed by it, and only
    /// then is the write recorded; it is `false` if the statement found no row
    /// to change.
    pub(crate) fn update(&mut self, Ghost(write): Ghost<Write>, sql: &str, args: &Vec<SqlArg>) -> (changed: Result<bool, Failure>)
        requires
            write is Rename || write is SetStatus,
            carries_out(write, sql@, arg_values(args@)),
        ensures
            changed == Ok::<bool, Failure>(true) ==> final(self)@ == old(self)@.push(write),
            changed != Ok::<bool, Failure>(true) ==> final(self)@ == old(self)@,
            final(self).asked() == old(self).asked(),
            final(self).opening() == old(self).opening(),
    {
        self.ask(Ghost(write), sql, args, true)
    }

    /// Hands the statement of `read` to the engine and returns the rows
    /// that came back, or the kind of the failure. The read is recorded,
    /// whatever came back. Every read of this library goes through here, and
    /// nothing else adds to that record.
    fn look(&mut self, Ghost(read): Ghost<Read>, sql: &str, ids: &Vec<i64>) -> (rows: Result<Vec<Vec<Cell>>, Failure>)
        requires
            asks(read, sql@, ids@),
        ensures
            final(self).asked() == old(self).asked().push(read),
            final(self)@ == old(self)@,
            final(self).opening() == old(self).opening(),
    {
        self.asked = Ghost(self.asked@.push(read));
        match query(&self.conn, sql, ids) {
            Ok(rows) => Ok(rows),
            Err(failure) => Err(classify(extended_code(&failure))),
        }
    }

    /// Asks one of the reads of the row `id`: the first row that came back,
    /// `None` if none did.
    pub(crate) fn read(&mut self, Ghost(read): Ghost<Read>, sql: &str, id: i64) -> (row: Result<Option<Vec<Cell>>, Failure>)
        requires
            sql@ == crate::statement::query_text(read),
            query_ids(read) == seq![id as int],
        ensures
            final(self).asked() == old(self).asked().push(read),
            final(self)@ == old(self)@,
            final(self).opening() == old(self).opening(),
    {
        let mut ids: Vec<i64> = Vec::new();
        ids.push(id);
        assert(id_values(ids@) =~= seq![id as int]);
        match self.look(Ghost(read), sql, &ids) {
            Ok(rows) => Ok(first_row(rows)),
            Err(kind) => Err(kind),
        }
    }

    /// Asks for the columns of the table of tasks, one row for each; no row
    /// if there is no such table.
    pub(crate) fn columns(&mut self) -> (columns: Result<Vec<Vec<Cell>>, Failure>)
        ensures
            final(self).asked() == old(self).asked().push(Read::Columns),
            final(self)@ == old(self)@,
            final(self).opening() == old(self).opening(),
    {
        let ids: Vec<i64> = Vec::new();
        assert(id_values(ids@) =~= query_ids(Read::Columns));
        self.look(Ghost(Read::Columns), SELECT_COLUMNS, &ids)
    }
}

} // verus!
