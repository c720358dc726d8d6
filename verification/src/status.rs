//! The task lifecycle and the text under which each state is stored.

use vstd::prelude::*;

verus! {

/// Where a task stands in its lifecycle.
#[derive(Clone, Copy, Debug, PartialEq, Eq, Structural)]
pub enum Status {
    Pending,
    InProgress,
    Completed,
}

/// The text that stands for a status in the `status` column.
pub open spec fn status_text(s: Status) -> Seq<char> {
    match s {
        Status::Pending => "pending"@,
        Status::InProgress => "in_progress"@,
        Status::Completed => "completed"@,
    }
}

/// The status that a stored text stands for, if it stands for one.
pub open spec fn status_of_text(text: Seq<char>) -> Option<Status> {
    if text == "pending"@ {
        Some(Status::Pending)
    } else if text == "in_progress"@ {
        Some(Status::InProgress)
    } else if text == "completed"@ {
        Some(Status::Completed)
    } else {
        None
    }
}

/// The state that follows `s`; `Completed` follows itself.
pub open spec fn successor(s: Status) -> Status {
    match s {
        Status::Pending => Status::InProgress,
        Status::InProgress => Status::Completed,
        Status::Completed => Status::Completed,
    }
}

/// How far along the lifecycle a status is.
pub open spec fn rank(s: Status) -> nat {
    match s {
        Status::Pending => 0,
        Status::InProgress => 1,
        Status::Completed => 2,
    }
}

/// Tells whether two texts are the same, character for character.
pub fn same_text(left: &str, right: &str) -> (same: bool)
    ensures
        same == (left@ == right@),
{
    left.to_owned() == right.to_owned()
}

impl Status {
    /// The text stored for this status.
    pub fn as_text(self) -> (text: &'static str)
        ensures
            text@ == status_text(self),
    {
        match self {
            Status::Pending => "pending",
            Status::InProgress => "in_progress",
            Status::Completed => "completed",
        }
    }

    /// Reads a stored text back; `None` for any text that names no status.
    pub fn parse(text: &str) -> (parsed: Option<Status>)
        ensures
            parsed == status_of_text(text@),
    {
        if same_text(text, "pending") {
            Some(Status::Pending)
        } else if same_text(text, "in_progress") {
            Some(Status::InProgress)
        } else if same_text(text, "completed") {
            Some(Status::Completed)
        } else {
            None
        }
    }

    /// One step forward in the lifecycle.
    pub fn next(self) -> (after: Status)
        ensures
            after == successor(self),
    {
        match self {
            Status::Pending => Status::InProgress,
            Status::InProgress => Status::Completed,
            Status::Completed => Status::Completed,
        }
    }
}

/// The three stored texts are pairwise different.
pub proof fn lemma_texts_differ()
    ensures
        "pending"@ != "in_progress"@,
        "pending"@ != "completed"@,
        "in_progress"@ != "completed"@,
{
    reveal_strlit("pending");
    reveal_strlit("in_progress");
    reveal_strlit("completed");
    assert("pending"@.len() == 7);
    assert("in_progress"@.len() == 11);
    assert("completed"@.len() == 9);
}

/// Each status is read back from its own text: the encoding loses nothing.
pub proof fn lemma_text_round_trip(s: Status)
    ensures
        status_of_text(status_text(s)) == Some(s),
{
    lemma_texts_differ();
}

/// A text is read as a status only if it is that status's own text.
pub proof fn lemma_text_is_exact(text: Seq<char>, s: Status)
    ensures
        status_of_text(text) == Some(s) <==> text == status_text(s),
{
    lemma_texts_differ();
}

/// Advancing never moves a task backwards, reaches `Completed` after at most
/// two steps from any state, and leaves a completed task completed.
pub proof fn lemma_advance_is_monotonic(s: Status)
    ensures
        rank(successor(s)) >= rank(s),
        rank(successor(s)) <= rank(s) + 1,
        successor(s) == s <==> s == Status::Completed,
        successor(successor(s)) == Status::Completed,
        successor(Status::Pending) == Status::InProgress,
        successor(Status::InProgress) == Status::Completed,
        successor(Status::Completed) == Status::Completed,
{
}

} // verus!
