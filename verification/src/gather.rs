//! The results of several tasks, in the order of the tasks.

use crate::outcome::cancelled_error;
use crate::outcome::TaskError;
use vstd::prelude::*;

verus! {

/// The results of some of the tasks, each at the place of its task.
pub struct Gather<V, E> {
    slots: Vec<Option<Result<V, TaskError<E>>>>,
    return_exceptions: bool,
    broken_off: bool,
}

/// The result at a place; a task without one counts as cancelled.
pub open spec fn filled<V, E>(slot: Option<Result<V, TaskError<E>>>) -> Result<V, TaskError<E>> {
    match slot {
        Some(result) => result,
        None => Err(TaskError::Cancelled),
    }
}

/// The results with one more, at the place of its task.
pub open spec fn placed<V, E>(
    slots: Seq<Option<Result<V, TaskError<E>>>>,
    index: int,
    result: Result<V, TaskError<E>>,
) -> Seq<Option<Result<V, TaskError<E>>>> {
    slots.update(index, Some(result))
}

/// The exception to raise for a result, unless exceptions are results like
/// others.
pub open spec fn to_raise<V, E>(
    return_exceptions: bool,
    result: Result<V, TaskError<E>>,
) -> Option<TaskError<E>> {
    match result {
        Err(error) => if return_exceptions {
            None
        } else {
            Some(error)
        },
        Ok(_) => None,
    }
}

impl<V, E> Gather<V, E> {
    /// The results so far.
    pub closed spec fn slots(&self) -> Seq<Option<Result<V, TaskError<E>>>> {
        self.slots@
    }

    /// Exceptions are results like others.
    pub closed spec fn return_exceptions(&self) -> bool {
        self.return_exceptions
    }

    /// An exception was handed back to be raised, and none of the tasks is
    /// waited for any more.
    pub closed spec fn broken_off(&self) -> bool {
        self.broken_off
    }

    /// Waits for `n` tasks.
    pub fn new(n: usize, return_exceptions: bool) -> (gather: Self)
        ensures
            gather.slots() == Seq::new(n as nat, |i: int| None::<Result<V, TaskError<E>>>),
            gather.return_exceptions() == return_exceptions,
            !gather.broken_off(),
    {
        let mut slots: Vec<Option<Result<V, TaskError<E>>>> = Vec::new();
        let mut i: usize = 0;
        while i < n
            invariant
                i <= n,
                slots@ == Seq::new(i as nat, |j: int| None::<Result<V, TaskError<E>>>),
            decreases n - i,
        {
            slots.push(None);
            i = i + 1;
            assert(slots@ =~= Seq::new(i as nat, |j: int| None::<Result<V, TaskError<E>>>));
        }
        Gather { slots, return_exceptions, broken_off: false }
    }

    /// Takes the result of the task at place `index`. Unless exceptions are
    /// results like others, one is handed back: the other tasks are to be
    /// cancelled, and it is to be raised.
    pub fn on_result(&mut self, index: usize, result: Result<V, TaskError<E>>) -> (raised: Option<
        TaskError<E>,
    >)
        requires
            index < old(self).slots().len(),
        ensures
            final(self).return_exceptions() == old(self).return_exceptions(),
            raised == to_raise(old(self).return_exceptions(), result),
            final(self).broken_off() == (old(self).broken_off() || raised is Some),
            result is Ok || old(self).return_exceptions() ==> {
                &&& raised is None
                &&& final(self).slots() == placed(old(self).slots(), index as int, result)
            },
            result is Err && !old(self).return_exceptions() ==> {
                &&& raised == Some(result->Err_0)
                &&& final(self).slots() == old(self).slots()
            },
    {
        match result {
            Ok(value) => {
                self.slots.set(index, Some(Ok(value)));
                None
            },
            Err(error) => {
                if self.return_exceptions {
                    self.slots.set(index, Some(Err(error)));
                    None
                } else {
                    self.broken_off = true;
                    Some(error)
                }
            },
        }
    }

    /// Whether every one of the tasks is to be cancelled: an exception was
    /// handed back to be raised.
    pub fn cancels_rest(&self) -> (cancels: bool)
        ensures
            cancels == self.broken_off(),
    {
        self.broken_off
    }

    /// The results, in the order of the tasks. A task that gave none counts as
    /// cancelled.
    pub fn finish(self) -> (results: Vec<Result<V, TaskError<E>>>)
        ensures
            results@ == self.slots().map_values(
                |slot: Option<Result<V, TaskError<E>>>| filled(slot),
            ),
            results@.len() == self.slots().len(),
            forall|i: int|
                0 <= i < results@.len() ==> (self.slots()[i] matches Some(result)
                    ==> #[trigger] results@[i] == result),
            forall|i: int|
                0 <= i < results@.len() && self.slots()[i] is None ==> #[trigger] results@[i]
                    == Err::<V, TaskError<E>>(TaskError::Cancelled),
    {
        let mut slots = self.slots;
        let ghost all = slots@;
        let mut results: Vec<Result<V, TaskError<E>>> = Vec::new();
        let mut i: usize = 0;
        while i < slots.len()
            invariant
                i <= slots@.len() == all.len(),
                forall|j: int| i <= j < all.len() ==> slots@[j] == all[j],
                results@.len() == i,
                forall|j: int| 0 <= j < i ==> results@[j] == filled(#[trigger] all[j]),
            decreases slots.len() - i,
        {
            let slot = slots[i].take();
            match slot {
                Some(result) => results.push(result),
                None => results.push(Err(cancelled_error())),
            }
            i = i + 1;
        }
        assert(results@ =~= all.map_values(|slot: Option<Result<V, TaskError<E>>>| filled(slot)));
        results
    }
}

/// The results after these completions, each the place of a task and its
/// result.
pub open spec fn collected<V, E>(
    n: nat,
    completions: Seq<(int, Result<V, TaskError<E>>)>,
) -> Seq<Option<Result<V, TaskError<E>>>>
    decreases completions.len(),
{
    if completions.len() == 0 {
        Seq::new(n, |i: int| None::<Result<V, TaskError<E>>>)
    } else {
        let (index, result) = completions.last();
        placed(collected(n, completions.drop_last()), index, result)
    }
}

/// Each task completes at most once, and has a place among the `n`.
pub open spec fn each_once<V, E>(
    n: nat,
    completions: Seq<(int, Result<V, TaskError<E>>)>,
) -> bool {
    &&& forall|k: int| 0 <= k < completions.len() ==> 0 <= (#[trigger] completions[k]).0 < n
    &&& forall|k: int, l: int|
        0 <= k < l < completions.len() ==> (#[trigger] completions[k]).0 != (
        #[trigger] completions[l]).0
}

/// Results come out in the order of the tasks, in whatever order the tasks
/// complete: at the place of each task that has completed stands its result.
pub proof fn law_results_in_task_order<V, E>(
    n: nat,
    completions: Seq<(int, Result<V, TaskError<E>>)>,
)
    requires
        each_once(n, completions),
    ensures
        collected(n, completions).len() == n,
        forall|k: int|
            0 <= k < completions.len() ==> collected(n, completions)[(
            #[trigger] completions[k]).0] == Some(completions[k].1),
        forall|i: int|
            0 <= i < n && (forall|k: int|
                0 <= k < completions.len() ==> (#[trigger] completions[k]).0 != i)
                ==> #[trigger] collected(n, completions)[i] is None,
    decreases completions.len(),
{
    if completions.len() > 0 {
        let before = completions.drop_last();
        let last = completions.len() - 1;
        assert forall|k: int| 0 <= k < before.len() implies #[trigger] before[k] == completions[k] by {}
        law_results_in_task_order(n, before);
        assert(completions.last() == completions[last]);
        assert forall|k: int| 0 <= k < completions.len() implies collected(n, completions)[(
        #[trigger] completions[k]).0] == Some(completions[k].1) by {
            if k < last {
                assert(before[k] == completions[k]);
                assert(completions[k].0 != completions[last].0);
            }
        }
        assert forall|i: int|
            0 <= i < n && (forall|k: int|
                0 <= k < completions.len() ==> (#[trigger] completions[k]).0
                    != i) implies #[trigger] collected(n, completions)[i] is None by {
            assert(completions[last].0 != i);
            assert forall|k: int| 0 <= k < before.len() implies (#[trigger] before[k]).0 != i by {
                assert(completions[k].0 != i);
            }
        }
    }
}

/// The first exception that these completions, in the order in which they come,
/// have raised.
pub open spec fn first_raised<V, E>(
    return_exceptions: bool,
    completions: Seq<(int, Result<V, TaskError<E>>)>,
) -> Option<TaskError<E>>
    decreases completions.len(),
{
    if completions.len() == 0 {
        None
    } else {
        match first_raised(return_exceptions, completions.drop_last()) {
            Some(error) => Some(error),
            None => to_raise(return_exceptions, completions.last().1),
        }
    }
}

/// What is raised is the exception of the task that failed first in time,
/// whatever its place among the tasks and whatever comes after it. Nothing is
/// raised when none failed, or when exceptions are results like others.
pub proof fn law_first_failure_raised<V, E>(
    return_exceptions: bool,
    completions: Seq<(int, Result<V, TaskError<E>>)>,
)
    ensures
        return_exceptions ==> first_raised(return_exceptions, completions) is None,
        (forall|k: int| 0 <= k < completions.len() ==> (#[trigger] completions[k]).1 is Ok)
            ==> first_raised(return_exceptions, completions) is None,
        forall|k: int|
            !return_exceptions && 0 <= k < completions.len() && (
            #[trigger] completions[k]).1 is Err && (forall|j: int|
                0 <= j < k ==> (#[trigger] completions[j]).1 is Ok) ==> first_raised(
                return_exceptions,
                completions,
            ) == Some(completions[k].1->Err_0),
    decreases completions.len(),
{
    if completions.len() > 0 {
        let before = completions.drop_last();
        let last = completions.len() - 1;
        law_first_failure_raised(return_exceptions, before);
        assert(completions.last() == completions[last]);
        assert forall|k: int| 0 <= k < before.len() implies #[trigger] before[k]
            == completions[k] by {}
        if forall|k: int| 0 <= k < completions.len() ==> (#[trigger] completions[k]).1 is Ok {
            assert forall|k: int| 0 <= k < before.len() implies (#[trigger] before[k]).1 is Ok by {
                assert(completions[k].1 is Ok);
            }
        }
        assert forall|k: int|
            !return_exceptions && 0 <= k < completions.len() && (
            #[trigger] completions[k]).1 is Err && (forall|j: int|
                0 <= j < k ==> (#[trigger] completions[j]).1 is Ok) implies first_raised(
            return_exceptions,
            completions,
        ) == Some(completions[k].1->Err_0) by {
            assert forall|j: int| 0 <= j < k && j < before.len() implies (
            #[trigger] before[j]).1 is Ok by {
                assert(completions[j].1 is Ok);
            }
            if k < last {
                assert(before[k] == completions[k]);
            }
        }
    }
}

/// Whether all tasks are to be cancelled after these completions.
pub open spec fn broken_off_after<V, E>(
    return_exceptions: bool,
    completions: Seq<(int, Result<V, TaskError<E>>)>,
) -> bool
    decreases completions.len(),
{
    completions.len() > 0 && (broken_off_after(return_exceptions, completions.drop_last())
        || to_raise(return_exceptions, completions.last().1) is Some)
}

/// All tasks are to be cancelled exactly when an exception is raised.
pub proof fn law_failure_cancels_all<V, E>(
    return_exceptions: bool,
    completions: Seq<(int, Result<V, TaskError<E>>)>,
)
    ensures
        broken_off_after(return_exceptions, completions) <==> first_raised(
            return_exceptions,
            completions,
        ) is Some,
    decreases completions.len(),
{
    if completions.len() > 0 {
        law_failure_cancels_all(return_exceptions, completions.drop_last());
    }
}

/// A result that was taken comes out exactly as it was, value or error of
/// whatever kind, and only a place without one counts as cancelled.
pub proof fn law_results_come_out_unchanged<V, E>(
    slot: Option<Result<V, TaskError<E>>>,
    result: Result<V, TaskError<E>>,
)
    ensures
        slot == Some(result) ==> filled(slot) == result,
        slot is None ==> filled(slot) == Err::<V, TaskError<E>>(TaskError::Cancelled),
{
}

/// Taking a result changes its own place and no other.
pub proof fn law_result_placed<V, E>(
    slots: Seq<Option<Result<V, TaskError<E>>>>,
    index: int,
    result: Result<V, TaskError<E>>,
)
    requires
        0 <= index < slots.len(),
    ensures
        placed(slots, index, result).len() == slots.len(),
        placed(slots, index, result)[index] == Some(result),
        forall|i: int|
            0 <= i < slots.len() && i != index ==> #[trigger] placed(slots, index, result)[i]
                == slots[i],
{
}

/// An exception is raised exactly when exceptions are not results like others,
/// and then as it is, whatever its kind. A value is never raised.
pub proof fn law_what_is_raised<V, E>(
    return_exceptions: bool,
    result: Result<V, TaskError<E>>,
    error: TaskError<E>,
)
    ensures
        result is Ok || return_exceptions ==> to_raise(return_exceptions, result) is None,
        result == Err::<V, TaskError<E>>(error) && !return_exceptions ==> to_raise(
            return_exceptions,
            result,
        ) == Some(error),
{
}

/// What is gathered at the place of a task is that task's own result, unchanged,
/// in whatever order the tasks complete. A task that has not completed counts as
/// cancelled.
pub proof fn law_gathered_results<V, E>(
    n: nat,
    completions: Seq<(int, Result<V, TaskError<E>>)>,
)
    requires
        each_once(n, completions),
    ensures
        forall|k: int|
            0 <= k < completions.len() ==> filled(
                collected(n, completions)[(#[trigger] completions[k]).0],
            ) == completions[k].1,
        forall|i: int|
            0 <= i < n && (forall|k: int|
                0 <= k < completions.len() ==> (#[trigger] completions[k]).0 != i) ==> filled(
                #[trigger] collected(n, completions)[i],
            ) == Err::<V, TaskError<E>>(TaskError::Cancelled),
{
    law_results_in_task_order(n, completions);
}

} // verus!
