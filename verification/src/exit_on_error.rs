//! Fatal conditions.
//!
//! Nothing in this crate ends the process. A condition that must end it is
//! handed to the caller as a [`Fatal`]: the line to log and the exit status.
use vstd::prelude::*;

verus! {

/// The exit status of a process that ends on a fatal condition.
pub const EXIT_FAILURE: i32 = 1;

/// A condition on which the process must end.
#[derive(Debug, Clone, PartialEq, Eq)]
pub struct Fatal {
    /// What to log before the process ends.
    pub info: String,
    /// The status to end the process with.
    pub status: i32,
}

/// Turning a missing value into a fatal condition.
pub trait ExitOnError<T>: Sized {
    /// The value that `self` holds, if it holds one.
    spec fn value(self) -> Option<T>;

    /// Gives back the value that `self` holds. Where it holds none, the
    /// process must end: the outcome is the fatal condition with `info` as
    /// its log line and [`EXIT_FAILURE`] as its status.
    fn exit_on_error(self, info: &str) -> (outcome: Result<T, Fatal>)
        ensures
            match outcome {
                Ok(value) => self.value() == Some(value),
                Err(fatal) => self.value() is None && fatal.info@ == info@ && fatal.status
                    == EXIT_FAILURE,
            },
    ;
}

impl<T, E> ExitOnError<T> for Result<T, E> {
    open spec fn value(self) -> Option<T> {
        match self {
            Ok(value) => Some(value),
            Err(_) => None,
        }
    }

    fn exit_on_error(self, info: &str) -> (outcome: Result<T, Fatal>) {
        match self {
            Ok(value) => Ok(value),
            Err(_) => Err(Fatal { info: info.to_owned(), status: EXIT_FAILURE }),
        }
    }
}

impl<T> ExitOnError<T> for Option<T> {
    open spec fn value(self) -> Option<T> {
        self
    }

    fn exit_on_error(self, info: &str) -> (outcome: Result<T, Fatal>) {
        match self {
            Some(value) => Ok(value),
            None => Err(Fatal { info: info.to_owned(), status: EXIT_FAILURE }),
        }
    }
}

} // verus!
