//! Descriptions of work.

use crate::binary64::Binary64;
use vstd::prelude::*;

verus! {

/// Work to submit: what to call, and with what. It is called anew for every
/// attempt.
pub struct Task<F, A> {
    pub func: F,
    pub args: A,
    /// The timeout in seconds, if it is not to be the runtime's.
    pub timeout: Option<Binary64>,
}

impl<F, A> Task<F, A> {
    pub fn new(func: F, args: A, timeout: Option<Binary64>) -> (task: Self)
        ensures
            task == (Task { func, args, timeout }),
    {
        Task { func, args, timeout }
    }
}

} // verus!
