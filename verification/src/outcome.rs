//! How work ends.

use crate::journal::TaskState;
use vstd::prelude::*;

verus! {

/// Which of the exceptions that matter here an exception is an instance of. It
/// may be one of several.
#[derive(Clone, Copy, Debug, PartialEq, Eq, Structural)]
pub struct ErrorKind {
    /// A timeout.
    pub timeout: bool,
    /// A cancellation.
    pub cancelled: bool,
    /// The end of an asynchronous iteration.
    pub stop_iteration: bool,
}

/// Why work did not end with a value.
pub enum TaskError<E> {
    /// It was cancelled.
    Cancelled,
    /// It ran out of time.
    TimedOut,
    /// It could not get a permit because the semaphore was closed.
    SemaphoreClosed,
    /// It raised an exception.
    Raised { error: E, kind: ErrorKind },
}

impl<E> TaskError<E> {
    /// The exceptions that the error is an instance of.
    pub open spec fn kind(self) -> ErrorKind {
        match self {
            TaskError::Cancelled => ErrorKind {
                timeout: false,
                cancelled: true,
                stop_iteration: false,
            },
            TaskError::TimedOut => ErrorKind {
                timeout: true,
                cancelled: false,
                stop_iteration: false,
            },
            TaskError::SemaphoreClosed => ErrorKind {
                timeout: false,
                cancelled: false,
                stop_iteration: false,
            },
            TaskError::Raised { kind, .. } => kind,
        }
    }

    pub fn get_kind(&self) -> (kind: ErrorKind)
        ensures
            kind == self.kind(),
    {
        match self {
            TaskError::Cancelled => ErrorKind {
                timeout: false,
                cancelled: true,
                stop_iteration: false,
            },
            TaskError::TimedOut => ErrorKind {
                timeout: true,
                cancelled: false,
                stop_iteration: false,
            },
            TaskError::SemaphoreClosed => ErrorKind {
                timeout: false,
                cancelled: false,
                stop_iteration: false,
            },
            TaskError::Raised { kind, .. } => *kind,
        }
    }
}

/// The error of work that was cancelled.
pub fn cancelled_error<E>() -> (error: TaskError<E>)
    ensures
        error == TaskError::<E>::Cancelled,
{
    TaskError::Cancelled
}

/// The error of work that ran out of time.
pub fn timeout_error<E>() -> (error: TaskError<E>)
    ensures
        error == TaskError::<E>::TimedOut,
{
    TaskError::TimedOut
}

/// The text of the error of work that ran out of time.
pub fn timeout_text() -> (text: &'static str)
    ensures
        text@ == "task timed out"@,
{
    "task timed out"
}

/// The text of the error of work that found the semaphore closed.
pub fn semaphore_closed_text() -> (text: &'static str)
    ensures
        text@ == "runtime semaphore closed"@,
{
    "runtime semaphore closed"
}

/// Whether an error is a cancellation.
pub fn is_cancelled<E>(error: &TaskError<E>) -> (yes: bool)
    ensures
        yes == error.kind().cancelled,
{
    error.get_kind().cancelled
}

/// The state in which work that ended like this is left.
pub open spec fn end_state<V, E>(result: Result<V, TaskError<E>>) -> TaskState {
    match result {
        Ok(_) => TaskState::Succeeded,
        Err(error) => if error.kind().timeout {
            TaskState::TimedOut
        } else if error.kind().cancelled {
            TaskState::Cancelled
        } else {
            TaskState::Failed
        },
    }
}

/// The state in which work that ended like this is left. An error that is both
/// a timeout and a cancellation counts as a timeout.
pub fn state_from_result<V, E>(result: &Result<V, TaskError<E>>) -> (state: TaskState)
    ensures
        state == end_state(*result),
{
    match result {
        Ok(_) => TaskState::Succeeded,
        Err(error) => {
            let kind = error.get_kind();
            if kind.timeout {
                TaskState::TimedOut
            } else if kind.cancelled {
                TaskState::Cancelled
            } else {
                TaskState::Failed
            }
        },
    }
}

/// Work always ends in an end state, and in the one for success exactly when
/// it ended with a value.
pub proof fn law_work_ends_in_end_state<V, E>(result: Result<V, TaskError<E>>)
    ensures
        end_state(result).terminal(),
        end_state(result) == TaskState::Succeeded <==> result is Ok,
{
}

/// What each error counts as. An exception counts as what it is an instance of.
pub proof fn law_error_kinds<E>(error: TaskError<E>, raised: E, kind: ErrorKind)
    ensures
        error is Cancelled ==> error.kind().cancelled && !error.kind().timeout
            && !error.kind().stop_iteration,
        error is TimedOut ==> error.kind().timeout && !error.kind().cancelled
            && !error.kind().stop_iteration,
        error is SemaphoreClosed ==> !error.kind().timeout && !error.kind().cancelled
            && !error.kind().stop_iteration,
        (TaskError::<E>::Raised { error: raised, kind }).kind() == kind,
{
}

/// The state in which work is left, by how it ended: a timeout comes before a
/// cancellation, and what is neither has failed.
pub proof fn law_end_states<V, E>(value: V, raised: E, kind: ErrorKind)
    ensures
        end_state(Ok::<V, TaskError<E>>(value)) == TaskState::Succeeded,
        end_state(Err::<V, TaskError<E>>(TaskError::Cancelled)) == TaskState::Cancelled,
        end_state(Err::<V, TaskError<E>>(TaskError::TimedOut)) == TaskState::TimedOut,
        end_state(Err::<V, TaskError<E>>(TaskError::SemaphoreClosed)) == TaskState::Failed,
        kind.timeout ==> end_state(
            Err::<V, TaskError<E>>(TaskError::Raised { error: raised, kind }),
        ) == TaskState::TimedOut,
        !kind.timeout && kind.cancelled ==> end_state(
            Err::<V, TaskError<E>>(TaskError::Raised { error: raised, kind }),
        ) == TaskState::Cancelled,
        !kind.timeout && !kind.cancelled ==> end_state(
            Err::<V, TaskError<E>>(TaskError::Raised { error: raised, kind }),
        ) == TaskState::Failed,
{
}

} // verus!
