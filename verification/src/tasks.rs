//! Tasks: adding one, renaming one, and moving one forward in its
//! lifecycle.

use vstd::prelude::*;
use vstd::string::*;
use vstd::utf8::encode_utf8;
use crate::error::{read_error_of, write_error_of, Failure, RepoError};
use crate::project::{database_path, database_path_of, is_valid_project_name, valid_project_name};
use crate::statement::{arg_values, statement_args, ArgValue, Cell, Read, SqlArg, Write, OPEN_EXISTING, SELECT_ID, SELECT_STATUS, SELECT_TASK, UPDATE_NAME, UPDATE_STATUS};
use crate::status::{lemma_text_is_exact, lemma_text_round_trip, rank, status_of_text, status_text, successor, Status};
use crate::store::TaskStore;

verus! {

/// One task, as it was read from the storage.
#[derive(Debug, PartialEq, Eq)]
pub struct Task {
    pub id: i64,
    pub name: String,
    pub status: Status,
    pub description: Option<Vec<u8>>,
}

/// What a task holds.
pub struct TaskView {
    pub id: i64,
    pub name: Seq<char>,
    pub status: Status,
    pub description: Option<Seq<u8>>,
}

impl View for Task {
    type V = TaskView;

    open spec fn view(&self) -> TaskView {
        TaskView {
            id: self.id,
            name: self.name@,
            status: self.status,
            description: match self.description {
                None => None,
                Some(bytes) => Some(bytes@),
            },
        }
    }
}

/// The values of a row that may be missing.
pub open spec fn row_view(row: Option<Vec<Cell>>) -> Option<Seq<Cell>> {
    match row {
        None => None,
        Some(cells) => Some(cells@),
    }
}

/// The text in the first column of a row, if that column holds text.
pub open spec fn first_text(row: Seq<Cell>) -> Option<Seq<char>> {
    if row.len() > 0 {
        match row[0] {
            Cell::Text(text) => Some(text@),
            _ => None,
        }
    } else {
        None
    }
}

/// The result of advancing a task for which the read of its status gave
/// `row`: no row is `NotFound`; a status that is not text, or a text that
/// names no status, is `InvalidState`; and a status gives the one that
/// follows it.
pub open spec fn advance_of(row: Option<Seq<Cell>>) -> Result<Status, RepoError> {
    match row {
        None => Err(RepoError::NotFound),
        Some(cells) => match first_text(cells) {
            None => Err(RepoError::InvalidState),
            Some(text) => match status_of_text(text) {
                None => Err(RepoError::InvalidState),
                Some(status) => Ok(successor(status)),
            },
        },
    }
}

/// Decides what advancing a task does, from what the read of its status
/// gave.
pub fn next_status(row: &Option<Vec<Cell>>) -> (next: Result<Status, RepoError>)
    ensures
        next == advance_of(row_view(*row)),
{
    match row {
        None => Err(RepoError::NotFound),
        Some(cells) => {
            if cells.len() == 0 {
                return Err(RepoError::InvalidState);
            }
            match &cells[0] {
                Cell::Text(text) => match Status::parse(text.as_str()) {
                    None => Err(RepoError::InvalidState),
                    Some(status) => Ok(status.next()),
                },
                _ => Err(RepoError::InvalidState),
            }
        },
    }
}

/// The description that a stored value stands for: none for a null, the
/// bytes of a blob, the bytes of a text in UTF-8. A number is no description.
pub open spec fn description_of(cell: Cell) -> Option<Option<Seq<u8>>> {
    match cell {
        Cell::Null => Some(None),
        Cell::Blob(bytes) => Some(Some(bytes@)),
        Cell::Text(text) => Some(Some(encode_utf8(text@))),
        _ => None,
    }
}

/// The task that the read of name, status and description for `id` gives:
/// no row is `NotFound`; a row of a name that is text, a status text that
/// names a status and a description is that task; anything else is
/// `InvalidState`.
pub open spec fn task_of(id: i64, row: Option<Seq<Cell>>) -> Result<TaskView, RepoError> {
    match row {
        None => Err(RepoError::NotFound),
        Some(cells) => if cells.len() == 3 {
            match (cells[0], cells[1], description_of(cells[2])) {
                (Cell::Text(name), Cell::Text(text), Some(description)) => match status_of_text(
                    text@,
                ) {
                    None => Err(RepoError::InvalidState),
                    Some(status) => Ok(TaskView { id, name: name@, status, description }),
                },
                _ => Err(RepoError::InvalidState),
            }
        } else {
            Err(RepoError::InvalidState)
        },
    }
}

/// Turns what the read of name, status and description for `id` gave into a
/// task.
pub fn decode(id: i64, row: Option<Vec<Cell>>) -> (task: Result<Task, RepoError>)
    ensures
        match task_of(id, row_view(row)) {
            Ok(view) => task matches Ok(found) && found@ == view,
            Err(e) => task == Err::<Task, RepoError>(e),
        },
{
    let mut cells: Vec<Cell> = match row {
        None => {
            return Err(RepoError::NotFound);
        },
        Some(cells) => cells,
    };
    if cells.len() != 3 {
        return Err(RepoError::InvalidState);
    }
    let ghost all = cells@;
    let third: Option<Cell> = cells.pop();
    let second: Option<Cell> = cells.pop();
    let first: Option<Cell> = cells.pop();
    assert(first == Some(all[0]) && second == Some(all[1]) && third == Some(all[2]));
    let description: Option<Vec<u8>> = match third {
        Some(Cell::Null) => None,
        Some(Cell::Blob(bytes)) => Some(bytes),
        Some(Cell::Text(text)) => Some(text.as_str().as_bytes_vec()),
        _ => {
            return Err(RepoError::InvalidState);
        },
    };
    let status: Status = match second {
        Some(Cell::Text(text)) => match Status::parse(text.as_str()) {
            None => {
                return Err(RepoError::InvalidState);
            },
            Some(status) => status,
        },
        _ => {
            return Err(RepoError::InvalidState);
        },
    };
    match first {
        Some(Cell::Text(name)) => Ok(Task { id, name, status, description }),
        _ => Err(RepoError::InvalidState),
    }
}

/// The result of adding a task, from what the insert came to: the id of the
/// row that was added; `Schema` if the engine reported success without
/// adding a row; and for a failure the error of its kind.
pub open spec fn add_result_of(outcome: Result<Option<i64>, Failure>) -> Result<i64, RepoError> {
    match outcome {
        Ok(Some(id)) => Ok(id),
        Ok(None) => Err(RepoError::Schema),
        Err(kind) => Err(write_error_of(kind)),
    }
}

/// Tells the result of adding a task, from what the insert came to.
pub fn add_result(outcome: Result<Option<i64>, Failure>) -> (added: Result<i64, RepoError>)
    ensures
        added == add_result_of(outcome),
{
    match outcome {
        Ok(Some(id)) => Ok(id),
        Ok(None) => Err(RepoError::Schema),
        Err(kind) => Err(kind.as_write_error()),
    }
}

/// The result of renaming a task, from what the update came to: success if
/// a row was changed; `NotFound` if the statement found no row to change;
/// and for a failure the error of its kind.
pub open spec fn rename_result_of(outcome: Result<bool, Failure>) -> Result<(), RepoError> {
    match outcome {
        Ok(true) => Ok(()),
        Ok(false) => Err(RepoError::NotFound),
        Err(kind) => Err(write_error_of(kind)),
    }
}

/// Tells the result of renaming a task, from what the update came to.
pub fn rename_result(outcome: Result<bool, Failure>) -> (renamed: Result<(), RepoError>)
    ensures
        renamed == rename_result_of(outcome),
{
    match outcome {
        Ok(true) => Ok(()),
        Ok(false) => Err(RepoError::NotFound),
        Err(kind) => Err(kind.as_write_error()),
    }
}

/// The result of advancing a task to `next`, from what the update came to:
/// `next` if a row was changed; `NotFound` if the statement found no row to
/// change; and for a failure the error of its kind.
pub open spec fn advance_result_of(next: Status, outcome: Result<bool, Failure>) -> Result<
    Status,
    RepoError,
> {
    match outcome {
        Ok(true) => Ok(next),
        Ok(false) => Err(RepoError::NotFound),
        Err(kind) => Err(write_error_of(kind)),
    }
}

/// Tells the result of advancing a task to `next`, from what the update came
/// to.
pub fn advance_result(next: Status, outcome: Result<bool, Failure>) -> (advanced: Result<
    Status,
    RepoError,
>)
    ensures
        advanced == advance_result_of(next, outcome),
{
    match outcome {
        Ok(true) => Ok(next),
        Ok(false) => Err(RepoError::NotFound),
        Err(kind) => Err(kind.as_write_error()),
    }
}

/// The result of a whole advance, from what the read of the status gave and
/// what the update came to: a failed read is the error of its kind, a row
/// that cannot advance is the error of `advance_of`, and otherwise the update
/// decides by `advance_result_of`.
pub open spec fn advance_outcome_of(
    read: Result<Option<Seq<Cell>>, Failure>,
    written: Result<bool, Failure>,
) -> Result<Status, RepoError> {
    match read {
        Err(kind) => Err(read_error_of(kind)),
        Ok(row) => match advance_of(row) {
            Err(e) => Err(e),
            Ok(next) => advance_result_of(next, written),
        },
    }
}

/// The result of a whole rename to a name that is not empty, from what the
/// read of the row gave and what the update came to: a failed read is the
/// error of its kind, no row is `NotFound`, and otherwise the update decides
/// by `rename_result_of`.
pub open spec fn rename_outcome_of(
    read: Result<Option<Seq<Cell>>, Failure>,
    written: Result<bool, Failure>,
) -> Result<(), RepoError> {
    match read {
        Err(kind) => Err(read_error_of(kind)),
        Ok(None) => Err(RepoError::NotFound),
        Ok(Some(_)) => rename_result_of(written),
    }
}

/// A task reads back as it was added: a row that holds what the insert of
/// `name` as `Pending` bound to its statement, and any description, is a task
/// with that name, in state `Pending`.
pub proof fn lemma_added_task_reads_back(id: i64, name: Seq<char>, row: Seq<Cell>)
    requires
        row.len() == 3,
        row[0] matches Cell::Text(stored_name) && row[1] matches Cell::Text(stored_status)
            && statement_args(Write::Insert { name, status: Status::Pending }) == seq![
            ArgValue::Text(stored_name@),
            ArgValue::Text(stored_status@),
        ],
        description_of(row[2]) is Some,
    ensures
        task_of(id, Some(row)) matches Ok(task) && task.id == id && task.name == name
            && task.status == Status::Pending && Some(task.description) == description_of(row[2]),
{
    let bound = statement_args(Write::Insert { name, status: Status::Pending });
    assert(bound[0] == ArgValue::Text(name));
    assert(bound[1] == ArgValue::Text(status_text(Status::Pending)));
    lemma_text_round_trip(Status::Pending);
}

/// Advancing walks the lifecycle forward and stops at its end. A row that
/// holds the text of a status advances to the status that follows it, which
/// is never an earlier one; a row that holds the text that this advance
/// writes advances to `Completed`. So a pending task becomes in progress,
/// then completed, and stays completed from then on.
pub proof fn lemma_advance_walks_forward(status: Status, row: Seq<Cell>, later: Seq<Cell>)
    requires
        first_text(row) == Some(status_text(status)),
        first_text(later) == Some(status_text(successor(status))),
    ensures
        advance_of(Some(row)) == Ok::<Status, RepoError>(successor(status)),
        rank(successor(status)) >= rank(status),
        advance_of(Some(later)) == Ok::<Status, RepoError>(Status::Completed),
        status == Status::Pending ==> advance_of(Some(row)) == Ok::<Status, RepoError>(
            Status::InProgress,
        ),
        status == Status::InProgress ==> advance_of(Some(row)) == Ok::<Status, RepoError>(
            Status::Completed,
        ),
        status == Status::Completed ==> advance_of(Some(row)) == Ok::<Status, RepoError>(
            Status::Completed,
        ),
{
    lemma_text_round_trip(status);
    lemma_text_round_trip(successor(status));
}

/// Advancing is refused exactly for a task that has no row, with `NotFound`,
/// and for a row whose status is not the text of one of the three, with
/// `InvalidState`.
pub proof fn lemma_advance_refusals(row: Option<Seq<Cell>>)
    ensures
        advance_of(row) == Err::<Status, RepoError>(RepoError::NotFound) <==> row is None,
        advance_of(row) == Err::<Status, RepoError>(RepoError::InvalidState) <==> (
        row matches Some(cells) && first_text(cells) != Some(status_text(Status::Pending))
            && first_text(cells) != Some(status_text(Status::InProgress)) && first_text(cells)
            != Some(status_text(Status::Completed))),
{
    if let Some(cells) = row {
        if let Some(text) = first_text(cells) {
            lemma_text_is_exact(text, Status::Pending);
            lemma_text_is_exact(text, Status::InProgress);
            lemma_text_is_exact(text, Status::Completed);
        }
    }
}

impl TaskStore {
    /// Adds a task named `name` in state `Pending` and returns the id that
    /// the storage gave it.
    ///
    /// An empty name is refused with `Validation`, and only an empty name is;
    /// nothing is handed to the engine then. Otherwise the insert of `name`
    /// as `Pending` is handed over and `add_result_of` gives the result from
    /// what it came to. On success exactly that write took effect; on any
    /// failure none did.
    pub fn add(&mut self, name: &str) -> (added: Result<i64, RepoError>)
        ensures
            name@.len() == 0 <==> added == Err::<i64, RepoError>(RepoError::Validation),
            name@.len() > 0 ==> exists|outcome: Result<Option<i64>, Failure>|
                added == #[trigger] add_result_of(outcome),
            added is Ok ==> final(self)@ == old(self)@.push(
                Write::Insert { name: name@, status: Status::Pending },
            ),
            added is Err ==> final(self)@ == old(self)@,
            final(self).asked() == old(self).asked(),
            final(self).opening() == old(self).opening(),
    {
        if name.is_empty() {
            return Err(RepoError::Validation);
        }
        let outcome: Result<Option<i64>, Failure> = self.insert(name, Status::Pending);
        add_result(outcome)
    }

    /// Renames the task `id`, given what a read of its row has just returned.
    ///
    /// An empty name is `Validation`, whatever was read. Otherwise a missing
    /// row is `NotFound`. In both cases nothing is written. Otherwise the new
    /// name is handed over and `rename_result_of` gives the result from what
    /// the update came to: on success exactly that write took effect, on
    /// failure none did.
    pub fn rename_from(&mut self, id: i64, new_name: &str, row: &Option<Vec<Cell>>) -> (renamed:
        Result<(), RepoError>)
        ensures
            new_name@.len() == 0 <==> renamed == Err::<(), RepoError>(RepoError::Validation),
            new_name@.len() > 0 && row is None ==> renamed == Err::<(), RepoError>(
                RepoError::NotFound,
            ),
            new_name@.len() > 0 && row is Some ==> exists|outcome: Result<bool, Failure>|
                renamed == #[trigger] rename_result_of(outcome),
            renamed is Ok ==> final(self)@ == old(self)@.push(
                Write::Rename { id: id as int, name: new_name@ },
            ),
            renamed is Err ==> final(self)@ == old(self)@,
            final(self).asked() == old(self).asked(),
            final(self).opening() == old(self).opening(),
    {
        if new_name.is_empty() {
            return Err(RepoError::Validation);
        }
        if row.is_none() {
            return Err(RepoError::NotFound);
        }
        let mut args: Vec<SqlArg> = Vec::new();
        args.push(SqlArg::Text(new_name.to_owned()));
        args.push(SqlArg::Integer(id));
        let ghost write = Write::Rename { id: id as int, name: new_name@ };
        assert(arg_values(args@) =~= statement_args(write));
        let outcome: Result<bool, Failure> = self.update(Ghost(write), UPDATE_NAME, &args);
        rename_result(outcome)
    }

    /// Gives the task `id` the name `new_name`; its status and id stay.
    ///
    /// An empty name is refused with `Validation` before the storage is
    /// touched, and only an empty name is. Then the row's id is read, no
    /// other column of it, and `rename_from` does the rest: the result is
    /// `rename_outcome_of` what the read gave and what the update came to. On
    /// success exactly one write took effect, the new name for `id`; on any
    /// failure none did.
    pub fn rename(&mut self, id: i64, new_name: &str) -> (renamed: Result<(), RepoError>)
        ensures
            new_name@.len() == 0 <==> renamed == Err::<(), RepoError>(RepoError::Validation),
            new_name@.len() > 0 ==> exists|
                read: Result<Option<Seq<Cell>>, Failure>,
                written: Result<bool, Failure>,
            | renamed == #[trigger] rename_outcome_of(read, written),
            renamed is Ok ==> final(self)@ == old(self)@.push(
                Write::Rename { id: id as int, name: new_name@ },
            ),
            renamed is Err ==> final(self)@ == old(self)@,
            new_name@.len() == 0 ==> final(self).asked() == old(self).asked(),
            new_name@.len() > 0 ==> final(self).asked() == old(self).asked().push(
                Read::Id { id: id as int },
            ),
            final(self).opening() == old(self).opening(),
    {
        if new_name.is_empty() {
            return Err(RepoError::Validation);
        }
        match self.read(Ghost(Read::Id { id: id as int }), SELECT_ID, id) {
            Err(kind) => {
                let ghost read = Err::<Option<Seq<Cell>>, Failure>(kind);
                assert(Err::<(), RepoError>(read_error_of(kind)) == rename_outcome_of(
                    read,
                    Ok(true),
                ));
                Err(kind.as_read_error())
            },
            Ok(row) => {
                let renamed = self.rename_from(id, new_name, &row);
                proof {
                    let read = Ok::<Option<Seq<Cell>>, Failure>(row_view(row));
                    if row is None {
                        assert(renamed == rename_outcome_of(read, Ok(true)));
                    } else {
                        let outcome = choose|outcome: Result<bool, Failure>|
                            renamed == #[trigger] rename_result_of(outcome);
                        assert(renamed == rename_outcome_of(read, outcome));
                    }
                }
                renamed
            },
        }
    }

    /// Advances the task `id`, given what a read of its status has just
    /// returned.
    ///
    /// Where `advance_of` gives an error for what was read, a missing row or
    /// a status that names none, that error is returned and nothing is
    /// written. Where it gives a status, that status is handed over and
    /// `advance_result_of` gives the result from what the update came to: on
    /// success it is that status and exactly that write took effect, on
    /// failure none did.
    pub fn advance_from(&mut self, id: i64, row: &Option<Vec<Cell>>) -> (advanced: Result<
        Status,
        RepoError,
    >)
        ensures
            match advance_of(row_view(*row)) {
                Err(e) => advanced == Err::<Status, RepoError>(e) && final(self)@ == old(self)@,
                Ok(next) => (exists|outcome: Result<bool, Failure>|
                    advanced == #[trigger] advance_result_of(next, outcome)) && match advanced {
                    Ok(status) => status == next && final(self)@ == old(self)@.push(
                        Write::SetStatus { id: id as int, status: next },
                    ),
                    Err(_) => final(self)@ == old(self)@,
                },
            },
            final(self).asked() == old(self).asked(),
            final(self).opening() == old(self).opening(),
    {
        let next: Status = match next_status(row) {
            Err(e) => {
                return Err(e);
            },
            Ok(next) => next,
        };
        let mut args: Vec<SqlArg> = Vec::new();
        args.push(SqlArg::Text(next.as_text().to_owned()));
        args.push(SqlArg::Integer(id));
        let ghost write = Write::SetStatus { id: id as int, status: next };
        assert(arg_values(args@) =~= statement_args(write));
        let outcome: Result<bool, Failure> = self.update(Ghost(write), UPDATE_STATUS, &args);
        advance_result(next, outcome)
    }

    /// Moves the task `id` one step forward and returns its new status.
    ///
    /// The row's status is read, no other column of it, and `advance_from`
    /// does the rest: the result is `advance_outcome_of` what the read gave
    /// and what the update came to. On success exactly one write took effect,
    /// the returned status for `id`, and that status is never `Pending`; on
    /// any failure, a missing task and an unreadable status among them, none
    /// did.
    pub fn advance(&mut self, id: i64) -> (advanced: Result<Status, RepoError>)
        ensures
            exists|read: Result<Option<Seq<Cell>>, Failure>, written: Result<bool, Failure>|
                advanced == #[trigger] advance_outcome_of(read, written),
            advanced matches Ok(status) ==> status != Status::Pending
                && final(self)@ == old(self)@.push(Write::SetStatus { id: id as int, status }),
            advanced is Err ==> final(self)@ == old(self)@,
            final(self).asked() == old(self).asked().push(Read::Status { id: id as int }),
            final(self).opening() == old(self).opening(),
    {
        match self.read(Ghost(Read::Status { id: id as int }), SELECT_STATUS, id) {
            Err(kind) => {
                let ghost read = Err::<Option<Seq<Cell>>, Failure>(kind);
                assert(Err::<Status, RepoError>(read_error_of(kind)) == advance_outcome_of(
                    read,
                    Ok(true),
                ));
                Err(kind.as_read_error())
            },
            Ok(row) => {
                let advanced = self.advance_from(id, &row);
                proof {
                    let read = Ok::<Option<Seq<Cell>>, Failure>(row_view(row));
                    match advance_of(row_view(row)) {
                        Err(e) => {
                            assert(advanced == advance_outcome_of(read, Ok(true)));
                        },
                        Ok(next) => {
                            let outcome = choose|outcome: Result<bool, Failure>|
                                advanced == #[trigger] advance_result_of(next, outcome);
                            assert(advanced == advance_outcome_of(read, outcome));
                        },
                    }
                }
                advanced
            },
        }
    }

    /// Reads the task `id`: name, status and description of its row are
    /// asked for, and `decode` says what each answer gives. A task that has
    /// no row is `NotFound`; a row that is no task is `InvalidState`. Nothing
    /// is written.
    pub fn find(&mut self, id: i64) -> (found: Result<Task, RepoError>)
        ensures
            found matches Ok(task) ==> task.id == id,
            found matches Err(e) ==> e != RepoError::Validation,
            final(self).asked() == old(self).asked().push(Read::Task { id: id as int }),
            final(self)@ == old(self)@,
            final(self).opening() == old(self).opening(),
    {
        match self.read(Ghost(Read::Task { id: id as int }), SELECT_TASK, id) {
            Err(kind) => Err(kind.as_read_error()),
            Ok(row) => decode(id, row),
        }
    }
}

/// Opens the storage of a project that must exist already: the file that
/// `database_path` names for it, in the mode that creates none.
pub(crate) fn open_project(project_name: &str) -> (opened: Result<TaskStore, RepoError>)
    ensures
        opened matches Ok(store) ==> store.opening() == (
            database_path_of(project_name@),
            OPEN_EXISTING,
        ) && store.asked() == Seq::<Read>::empty() && store@ == Seq::<Write>::empty(),
        opened matches Err(e) ==> e == RepoError::NotFound || e == RepoError::Io,
{
    let path: String = database_path(project_name);
    TaskStore::open(path.as_str())
}

/// Adds a task named `task_name` to the project and returns its id.
///
/// `Validation` is returned exactly when the project name is not a valid one
/// or the task name is empty; nothing is opened then. A project without
/// storage is `NotFound`, and one that cannot be opened is `Io`. Otherwise
/// the project's storage is opened, the file that `database_path` names, and
/// `TaskStore::add` does the rest: the result is `add_result_of` what the
/// insert came to.
pub fn add_task(project_name: &str, task_name: &str) -> (added: Result<i64, RepoError>)
    ensures
        (!valid_project_name(project_name@) || task_name@.len() == 0) <==> added == Err::<
            i64,
            RepoError,
        >(RepoError::Validation),
        valid_project_name(project_name@) && task_name@.len() > 0 ==> added == Err::<
            i64,
            RepoError,
        >(RepoError::NotFound) || added == Err::<i64, RepoError>(RepoError::Io) || exists|
            outcome: Result<Option<i64>, Failure>,
        | added == #[trigger] add_result_of(outcome),
{
    if !is_valid_project_name(project_name) || task_name.is_empty() {
        return Err(RepoError::Validation);
    }
    let mut store: TaskStore = match open_project(project_name) {
        Err(e) => {
            return Err(e);
        },
        Ok(store) => store,
    };
    store.add(task_name)
}

/// Gives the task `task_id` of the project the name `new_name`.
///
/// `Validation` is returned exactly when the project name is not a valid one
/// or the new name is empty; nothing is opened then. A project without
/// storage, and a task without a row, are `NotFound`. Otherwise the
/// project's storage is opened, the file that `database_path` names, and
/// `TaskStore::rename` does the rest: the result is `rename_outcome_of` what
/// the read gave and what the update came to.
pub fn update_task(project_name: &str, task_id: i32, new_name: &str) -> (renamed: Result<
    (),
    RepoError,
>)
    ensures
        (!valid_project_name(project_name@) || new_name@.len() == 0) <==> renamed == Err::<
            (),
            RepoError,
        >(RepoError::Validation),
        valid_project_name(project_name@) && new_name@.len() > 0 ==> renamed == Err::<
            (),
            RepoError,
        >(RepoError::NotFound) || renamed == Err::<(), RepoError>(RepoError::Io) || exists|
            read: Result<Option<Seq<Cell>>, Failure>,
            written: Result<bool, Failure>,
        | renamed == #[trigger] rename_outcome_of(read, written),
{
    if !is_valid_project_name(project_name) || new_name.is_empty() {
        return Err(RepoError::Validation);
    }
    let mut store: TaskStore = match open_project(project_name) {
        Err(e) => {
            return Err(e);
        },
        Ok(store) => store,
    };
    store.rename(task_id as i64, new_name)
}

/// Moves the task `task_id` of the project one step forward and returns its
/// new status, which is never `Pending`.
///
/// `Validation` is returned exactly when the project name is not a valid
/// one; nothing is opened then. A project without storage, and a task without
/// a row, are `NotFound`; a row whose status names none is `InvalidState`.
/// Otherwise the project's storage is opened, the file that `database_path`
/// names, and `TaskStore::advance` does the rest: the result is
/// `advance_outcome_of` what the read gave and what the update came to.
pub fn move_status_forward(project_name: &str, task_id: i32) -> (advanced: Result<
    Status,
    RepoError,
>)
    ensures
        !valid_project_name(project_name@) <==> advanced == Err::<Status, RepoError>(
            RepoError::Validation,
        ),
        advanced matches Ok(status) ==> status != Status::Pending,
        valid_project_name(project_name@) ==> advanced == Err::<Status, RepoError>(
            RepoError::NotFound,
        ) || advanced == Err::<Status, RepoError>(RepoError::Io) || exists|
            read: Result<Option<Seq<Cell>>, Failure>,
            written: Result<bool, Failure>,
        | advanced == #[trigger] advance_outcome_of(read, written),
{
    if !is_valid_project_name(project_name) {
        return Err(RepoError::Validation);
    }
    let mut store: TaskStore = match open_project(project_name) {
        Err(e) => {
            return Err(e);
        },
        Ok(store) => store,
    };
    store.advance(task_id as i64)
}

} // verus!
