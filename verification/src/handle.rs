//! Handles of submitted work.

use crate::bridge::TaskCell;
use crate::cancel::token_told;
use crate::cancel::Cancel;
use crate::journal::TaskSlot;
use crate::journal::TaskState;
use vstd::prelude::*;

verus! {

/// Submitted work: its state, its cancellation scope, and the event loop's
/// task that runs it at present.
pub struct Handle<T> {
    pub slot: TaskSlot,
    pub cancel: Cancel,
    pub py_task: TaskCell<T>,
}

impl<T> Handle<T> {
    pub fn new(slot: TaskSlot, cancel: Cancel, py_task: TaskCell<T>) -> (handle: Handle<T>)
        ensures
            handle.slot == slot,
            handle.cancel == cancel,
            handle.py_task == py_task,
    {
        Handle { slot, cancel, py_task }
    }

    /// Cancels the work: its scope, and the event loop's task if it has
    /// started, which is handed back to be cancelled there.
    pub fn cancel(&mut self) -> (task: Option<&T>)
        ensures
            final(self).cancel.fired(),
            final(self).cancel.carrier() == old(self).cancel.carrier(),
            token_told(old(self).cancel.carrier()),
            final(self).slot == old(self).slot,
            final(self).py_task == old(self).py_task,
            task is Some <==> old(self).py_task@ is Some,
            task matches Some(t) ==> *t == old(self).py_task@->0,
    {
        self.cancel.cancel();
        self.py_task.get()
    }

    /// Whether the work's cancellation was asked for: by its owner, or else as
    /// the token of its scope says.
    pub fn cancelled(&self) -> (yes: bool)
        ensures
            self.cancel.answers(yes),
    {
        self.cancel.is_cancelled()
    }

    /// The name of the work's state: `queued`, `running`, `succeeded`,
    /// `failed`, `cancelled` or `timed_out`.
    pub fn status(&self) -> (text: &'static str)
        ensures
            text@ == self.slot@.text(),
    {
        self.slot.get().as_str()
    }

    /// Whether the work has ended.
    pub fn done(&self) -> (yes: bool)
        ensures
            yes == self.slot@.terminal(),
    {
        self.slot.get().is_terminal()
    }
}

/// A handle of a submitted task reports one of six names, and never another.
pub proof fn law_status_names(state: TaskState)
    requires
        state.pending() || state.terminal(),
    ensures
        ({
            ||| state.text() == "queued"@
            ||| state.text() == "running"@
            ||| state.text() == "succeeded"@
            ||| state.text() == "failed"@
            ||| state.text() == "cancelled"@
            ||| state.text() == "timed_out"@
        }),
{
}

} // verus!
