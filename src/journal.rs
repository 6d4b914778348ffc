//! The records of the task journal and the rule for completing one.
//! Reading and writing the journal file is left to the caller.
use vstd::prelude::*;

verus! {

/// One journal entry: its text and when it was made, in whole seconds since
/// the Unix epoch (UTC).
pub struct Task {
    pub text: String,
    pub created_at: i64,
}

/// Why a journal operation was refused.
#[derive(Clone, Copy, Debug, PartialEq, Eq, Structural)]
pub enum JournalError {
    /// The position names no task: positions count from 1.
    InvalidTaskId,
}

/// Relies on chrono's `Utc::now` and `DateTime::timestamp`: the current
/// time in whole seconds since the epoch. Nothing is promised of its value.
#[verifier::external_body]
fn now_seconds() -> (r: i64) {
    chrono::Utc::now().timestamp()
}

impl Task {
    /// A task with this text, stamped with the current time.
    pub fn new(text: String) -> (r: Task)
        ensures
            r.text == text,
    {
        Task { text, created_at: now_seconds() }
    }
}

/// Removes the task at `position`, counted from 1, and returns it. A
/// position of 0 or past the end is refused and the list is left as it was.
pub fn remove_task(tasks: &mut Vec<Task>, position: usize) -> (r: Result<Task, JournalError>)
    ensures
        match r {
            Ok(t) => {
                &&& 1 <= position <= old(tasks)@.len()
                &&& t == old(tasks)@[position - 1]
                &&& final(tasks)@ == old(tasks)@.remove(position - 1)
            },
            Err(e) => {
                &&& (position == 0 || position > old(tasks)@.len())
                &&& e == JournalError::InvalidTaskId
                &&& final(tasks)@ == old(tasks)@
            },
        },
{
    if position == 0 || position > tasks.len() {
        return Err(JournalError::InvalidTaskId);
    }
    Ok(tasks.remove(position - 1))
}

} // verus!
