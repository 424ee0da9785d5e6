//! Waiting for a task of the event loop, under cancellation and a timeout.

use crate::outcome::cancelled_error;
use crate::outcome::timeout_error;
use crate::outcome::TaskError;
use futures_channel::oneshot::Canceled;
use vstd::prelude::*;

verus! {

/// The error of `futures_channel` that a one-shot receiver gives when its
/// sender is gone.
#[verifier::external_type_specification]
#[verifier::external_body]
pub struct ExCanceled(Canceled);

/// The event loop's task that runs some work at present, if there is one.
pub struct TaskCell<T> {
    task: Option<T>,
}

impl<T> View for TaskCell<T> {
    type V = Option<T>;

    closed spec fn view(&self) -> Option<T> {
        self.task
    }
}

/// A cell without a task.
pub fn shared_py_task<T>() -> (cell: TaskCell<T>)
    ensures
        cell@ == None::<T>,
{
    TaskCell { task: None }
}

impl<T> TaskCell<T> {
    pub fn store(&mut self, task: T)
        ensures
            final(self)@ == Some(task),
    {
        self.task = Some(task);
    }

    pub fn clear(&mut self)
        ensures
            final(self)@ == None::<T>,
    {
        self.task = None;
    }

    pub fn take(&mut self) -> (task: Option<T>)
        ensures
            task == old(self)@,
            final(self)@ == None::<T>,
    {
        self.task.take()
    }

    pub fn get(&self) -> (task: Option<&T>)
        ensures
            task is Some <==> self@ is Some,
            task matches Some(t) ==> *t == self@->0,
    {
        self.task.as_ref()
    }
}

/// What a one-shot receiver gave: the result that was sent, or a cancellation
/// where the sender went away without one.
pub open spec fn received<V, E>(result: Result<Result<V, TaskError<E>>, Canceled>) -> Result<
    V,
    TaskError<E>,
> {
    match result {
        Ok(inner) => inner,
        Err(_) => Err(TaskError::Cancelled),
    }
}

pub fn map_oneshot<V, E>(result: Result<Result<V, TaskError<E>>, Canceled>) -> (mapped: Result<
    V,
    TaskError<E>,
>)
    ensures
        mapped == received(result),
        result matches Ok(inner) ==> mapped == inner,
        result is Err ==> mapped == Err::<V, TaskError<E>>(TaskError::Cancelled),
{
    match result {
        Ok(inner) => inner,
        Err(_) => Err(cancelled_error()),
    }
}

/// What became of the request to start a task.
#[derive(Clone, Copy, Debug, PartialEq, Eq, Structural)]
pub enum StartPoll {
    Pending,
    /// The event loop has created the task.
    Started,
    /// The event loop has dropped the request.
    Lost,
}

/// What a look at everything that is waited for shows.
pub struct Seen<V, E> {
    pub start: StartPoll,
    /// What the task's result channel has given, if anything.
    pub result: Option<Result<Result<V, TaskError<E>>, Canceled>>,
    pub cancelled: bool,
    /// The time is up.
    pub elapsed: bool,
}

/// How far the wait has come.
#[derive(Clone, Copy, Debug, PartialEq, Eq, Structural)]
pub enum BridgeStage {
    /// The event loop has been asked to start the task.
    Starting,
    /// The task exists, and has been handed over.
    Started,
    /// The task's result is waited for.
    Waiting,
    /// The wait is over; whether the task had been handed over, and whether it
    /// gave a value.
    Ended { started: bool, value: bool },
}

/// What is to be done after a look.
pub enum BridgeAction<V, E> {
    /// Wait, and look again.
    Pend,
    /// Keep the task where the handle finds it, start the clock, and look
    /// again.
    Store,
    /// Return this.
    End(Result<V, TaskError<E>>),
}

impl BridgeStage {
    /// A wait that stops here has to cancel the event loop's task: the task
    /// was handed over, and no value came of it.
    pub open spec fn leaves_task(self) -> bool {
        match self {
            BridgeStage::Starting => false,
            BridgeStage::Started => true,
            BridgeStage::Waiting => true,
            BridgeStage::Ended { started, value } => started && !value,
        }
    }

    /// A wait that is given up here is over, without a value if it had none.
    pub open spec fn given_up(self) -> BridgeStage {
        match self {
            BridgeStage::Starting => BridgeStage::Ended { started: false, value: false },
            BridgeStage::Started => BridgeStage::Ended { started: true, value: false },
            BridgeStage::Waiting => BridgeStage::Ended { started: true, value: false },
            BridgeStage::Ended { .. } => self,
        }
    }

    /// A task of the event loop that arrives now has to be cancelled: the wait
    /// for it is over.
    pub open spec fn cancels_late(self) -> bool {
        self is Ended
    }
}

impl<V, E> Seen<V, E> {
    /// What the wait for a result ends with, if it ends: the result first,
    /// then the cancellation, then the timeout.
    pub open spec fn verdict(self) -> Option<Result<V, TaskError<E>>> {
        match self.result {
            Some(result) => Some(received(result)),
            None => if self.cancelled {
                Some(Err(TaskError::Cancelled))
            } else if self.elapsed {
                Some(Err(TaskError::TimedOut))
            } else {
                None
            },
        }
    }
}

/// The end of a wait.
pub open spec fn end<V, E>(started: bool, result: Result<V, TaskError<E>>) -> (
    BridgeStage,
    BridgeAction<V, E>,
) {
    (BridgeStage::Ended { started, value: result is Ok }, BridgeAction::End(result))
}

/// What a look leads to.
pub open spec fn advance<V, E>(stage: BridgeStage, seen: Seen<V, E>) -> (
    BridgeStage,
    BridgeAction<V, E>,
) {
    match stage {
        BridgeStage::Starting => match seen.start {
            StartPoll::Started => (BridgeStage::Started, BridgeAction::Store),
            StartPoll::Lost => end(false, Err(TaskError::Cancelled)),
            StartPoll::Pending => if seen.cancelled {
                end(false, Err(TaskError::Cancelled))
            } else {
                (stage, BridgeAction::Pend)
            },
        },
        BridgeStage::Started => if seen.cancelled {
            end(true, Err(TaskError::Cancelled))
        } else {
            match seen.verdict() {
                Some(result) => end(true, result),
                None => (BridgeStage::Waiting, BridgeAction::Pend),
            }
        },
        BridgeStage::Waiting => match seen.verdict() {
            Some(result) => end(true, result),
            None => (stage, BridgeAction::Pend),
        },
        BridgeStage::Ended { .. } => (stage, BridgeAction::Pend),
    }
}

/// One wait for a task of the event loop.
pub struct Bridge {
    stage: BridgeStage,
}

impl View for Bridge {
    type V = BridgeStage;

    closed spec fn view(&self) -> BridgeStage {
        self.stage
    }
}

impl Bridge {
    /// A wait for a task that the event loop was asked to start.
    pub fn new() -> (bridge: Bridge)
        ensures
            bridge@ == BridgeStage::Starting,
    {
        Bridge { stage: BridgeStage::Starting }
    }

    fn end<V, E>(&mut self, started: bool, result: Result<V, TaskError<E>>) -> (action:
        BridgeAction<V, E>)
        ensures
            (final(self)@, action) == end(started, result),
    {
        let value = result.is_ok();
        self.stage = BridgeStage::Ended { started, value };
        BridgeAction::End(result)
    }

    fn wait<V, E>(&mut self, seen: Seen<V, E>) -> (action: BridgeAction<V, E>)
        ensures
            match seen.verdict() {
                Some(result) => (final(self)@, action) == end(true, result),
                None => final(self)@ == BridgeStage::Waiting && action == BridgeAction::<V, E>::Pend,
            },
    {
        match seen.result {
            Some(result) => self.end(true, map_oneshot(result)),
            None => if seen.cancelled {
                self.end(true, Err(cancelled_error()))
            } else if seen.elapsed {
                self.end(true, Err(timeout_error()))
            } else {
                self.stage = BridgeStage::Waiting;
                BridgeAction::Pend
            },
        }
    }

    /// Goes on after a look at what is waited for.
    pub fn poll<V, E>(&mut self, seen: Seen<V, E>) -> (action: BridgeAction<V, E>)
        ensures
            (final(self)@, action) == advance(old(self)@, seen),
    {
        match self.stage {
            BridgeStage::Starting => match seen.start {
                StartPoll::Started => {
                    self.stage = BridgeStage::Started;
                    BridgeAction::Store
                },
                StartPoll::Lost => self.end(false, Err(cancelled_error())),
                StartPoll::Pending => if seen.cancelled {
                    self.end(false, Err(cancelled_error()))
                } else {
                    BridgeAction::Pend
                },
            },
            BridgeStage::Started => if seen.cancelled {
                self.end(true, Err(cancelled_error()))
            } else {
                self.wait(seen)
            },
            BridgeStage::Waiting => self.wait(seen),
            BridgeStage::Ended { .. } => BridgeAction::Pend,
        }
    }

    /// The event loop's task that has to be cancelled now that the wait is
    /// over or given up; it leaves its cell.
    pub fn release<T>(&self, cell: &mut TaskCell<T>) -> (task: Option<T>)
        ensures
            self@.leaves_task() ==> task == old(cell)@ && final(cell)@ == None::<T>,
            !self@.leaves_task() ==> task == None::<T> && final(cell)@ == old(cell)@,
    {
        let leaves_task = match self.stage {
            BridgeStage::Starting => false,
            BridgeStage::Started | BridgeStage::Waiting => true,
            BridgeStage::Ended { started, value } => started && !value,
        };
        if leaves_task {
            cell.take()
        } else {
            None
        }
    }

    /// Ends the wait where it stands.
    pub fn give_up(&mut self)
        ensures
            final(self)@ == old(self)@.given_up(),
    {
        match self.stage {
            BridgeStage::Starting => {
                self.stage = BridgeStage::Ended { started: false, value: false };
            },
            BridgeStage::Started | BridgeStage::Waiting => {
                self.stage = BridgeStage::Ended { started: true, value: false };
            },
            BridgeStage::Ended { .. } => {},
        }
    }

    /// The event loop's task, if it arrives too late: the wait is over, and the
    /// task has to be cancelled. Before that, a task is handed over by a look.
    pub fn late<T>(&self, task: T) -> (cancel: Option<T>)
        ensures
            self@.cancels_late() ==> cancel == Some(task),
            !self@.cancels_late() ==> cancel == None::<T>,
    {
        match self.stage {
            BridgeStage::Ended { .. } => Some(task),
            _ => None,
        }
    }
}

/// How far a wait has come after these looks.
pub open spec fn stage_after<V, E>(looks: Seq<Seen<V, E>>) -> BridgeStage
    decreases looks.len(),
{
    if looks.len() == 0 {
        BridgeStage::Starting
    } else {
        advance(stage_after(looks.drop_last()), looks.last()).0
    }
}

/// What the last of these looks led to.
pub open spec fn action_after<V, E>(looks: Seq<Seen<V, E>>) -> BridgeAction<V, E>
    recommends
        looks.len() > 0,
{
    advance(stage_after(looks.drop_last()), looks.last()).1
}

/// One of these looks led to keeping the task.
pub open spec fn task_kept<V, E>(looks: Seq<Seen<V, E>>) -> bool {
    exists|n: int| 0 < n <= looks.len() && action_after(#[trigger] looks.take(n)) is Store
}

/// One of these looks led to returning a value.
pub open spec fn value_returned<V, E>(looks: Seq<Seen<V, E>>) -> bool {
    exists|n: int|
        0 < n <= looks.len() && (action_after(#[trigger] looks.take(n)) matches BridgeAction::End(
            Ok(_),
        ))
}

/// Cancellation and timeout cancel the event loop's task and not only the wait
/// for it: whatever is seen, and wherever the wait stops or is given up, a task
/// that was handed over is cancelled exactly when no value came of it, and a
/// task that only arrives when the wait is over is cancelled then.
pub proof fn law_task_never_left_behind<V, E>(looks: Seq<Seen<V, E>>)
    ensures
        stage_after(looks).leaves_task() <==> task_kept(looks) && !value_returned(looks),
        stage_after(looks).given_up().leaves_task() <==> task_kept(looks) && !value_returned(looks),
        stage_after(looks).given_up().cancels_late(),
        looks.len() > 0 && action_after(looks) is End ==> stage_after(looks).cancels_late(),
        stage_after(looks) is Starting ==> !task_kept(looks),
        value_returned(looks) ==> stage_after(looks) is Ended,
    decreases looks.len(),
{
    if looks.len() == 0 {
    } else {
        let before = looks.drop_last();
        let len = looks.len() as int;
        law_task_never_left_behind(before);
        assert(looks.take(len) =~= looks);
        assert forall|n: int| 0 < n <= before.len() implies #[trigger] looks.take(n) == before.take(
            n,
        ) by {
            assert(looks.take(n) =~= before.take(n));
        }
        if task_kept(before) {
            let n = choose|n: int|
                0 < n <= before.len() && action_after(#[trigger] before.take(n)) is Store;
            assert(looks.take(n) == before.take(n));
        }
        if value_returned(before) {
            let n = choose|n: int|
                0 < n <= before.len() && (action_after(
                    #[trigger] before.take(n),
                ) matches BridgeAction::End(Ok(_)));
            assert(looks.take(n) == before.take(n));
        }
        if action_after(looks) is Store {
            assert(action_after(looks.take(len)) is Store);
        }
        if action_after(looks) matches BridgeAction::End(Ok(_)) {
            assert(action_after(looks.take(len)) matches BridgeAction::End(Ok(_)));
        }
        if task_kept(looks) && !task_kept(before) {
            let n = choose|n: int|
                0 < n <= looks.len() && action_after(#[trigger] looks.take(n)) is Store;
            assert(n == len || looks.take(n) == before.take(n));
        }
        if value_returned(looks) && !value_returned(before) {
            let n = choose|n: int|
                0 < n <= looks.len() && (action_after(
                    #[trigger] looks.take(n),
                ) matches BridgeAction::End(Ok(_)));
            assert(n == len || looks.take(n) == before.take(n));
        }
    }
}

/// A wait returns once: after it has, further looks lead to nothing, and a task
/// that arrives is still cancelled.
pub proof fn law_wait_returns_once<V, E>(looks: Seq<Seen<V, E>>, more: Seen<V, E>)
    requires
        looks.len() > 0,
        action_after(looks) is End,
    ensures
        action_after(looks.push(more)) == BridgeAction::<V, E>::Pend,
        stage_after(looks.push(more)) == stage_after(looks),
        stage_after(looks.push(more)).cancels_late(),
{
    assert(looks.push(more).drop_last() =~= looks);
}

/// A result that has arrived is returned even if the wait was cancelled or ran
/// out of time meanwhile.
pub proof fn law_result_comes_first<V, E>(seen: Seen<V, E>)
    requires
        seen.result is Some,
    ensures
        advance(BridgeStage::Waiting, seen).1 == BridgeAction::End(received(seen.result->0)),
{
}

/// While a result is waited for, whatever came of the task is returned exactly
/// as it came: a value, or an exception of whatever kind. Nothing else that has
/// happened meanwhile changes that, except that a wait which was cancelled
/// before it began waiting for the result ends as cancelled.
pub proof fn law_result_returned_unchanged<V, E>(seen: Seen<V, E>, result: Result<V, TaskError<E>>)
    requires
        seen.result == Some(Ok::<Result<V, TaskError<E>>, Canceled>(result)),
    ensures
        advance(BridgeStage::Waiting, seen) == (
            BridgeStage::Ended { started: true, value: result is Ok },
            BridgeAction::End(result),
        ),
        !seen.cancelled ==> advance(BridgeStage::Started, seen) == (
            BridgeStage::Ended { started: true, value: result is Ok },
            BridgeAction::End(result),
        ),
{
}

/// A task whose result can no longer come counts as cancelled.
pub proof fn law_lost_result_is_cancellation<V, E>(seen: Seen<V, E>)
    requires
        seen.result matches Some(Err(_)),
    ensures
        advance(BridgeStage::Waiting, seen) == (
            BridgeStage::Ended { started: true, value: false },
            BridgeAction::<V, E>::End(Err(TaskError::Cancelled)),
        ),
        advance(BridgeStage::Started, seen) == advance(BridgeStage::Waiting, seen),
{
}

/// While no result has arrived, a cancellation ends the wait as cancelled
/// whether or not the time is up, the time being up ends it as timed out, and
/// only when there is neither does it go on. A wait that was cancelled before it
/// began waiting for the result ends as cancelled whatever has arrived.
pub proof fn law_cancellation_then_timeout_end_the_wait<V, E>(seen: Seen<V, E>)
    ensures
        seen.result is None && seen.cancelled ==> advance(BridgeStage::Waiting, seen) == (
            BridgeStage::Ended { started: true, value: false },
            BridgeAction::<V, E>::End(Err(TaskError::Cancelled)),
        ),
        seen.cancelled ==> advance(BridgeStage::Started, seen) == (
            BridgeStage::Ended { started: true, value: false },
            BridgeAction::<V, E>::End(Err(TaskError::Cancelled)),
        ),
        seen.result is None && !seen.cancelled && seen.elapsed ==> {
            &&& advance(BridgeStage::Waiting, seen) == (
                BridgeStage::Ended { started: true, value: false },
                BridgeAction::<V, E>::End(Err(TaskError::TimedOut)),
            )
            &&& advance(BridgeStage::Started, seen) == advance(BridgeStage::Waiting, seen)
        },
        seen.result is None && !seen.cancelled && !seen.elapsed ==> {
            &&& advance(BridgeStage::Waiting, seen) == (
                BridgeStage::Waiting,
                BridgeAction::<V, E>::Pend,
            )
            &&& advance(BridgeStage::Started, seen) == advance(BridgeStage::Waiting, seen)
        },
        advance(BridgeStage::Waiting, seen).1 is Pend <==> seen.result is None && !seen.cancelled
            && !seen.elapsed,
{
}

/// Before the task exists, only three things count: that it is created, which
/// comes first, that the request is lost, and that the wait is cancelled. What
/// the clock or a result channel shows plays no part.
pub proof fn law_start_of_the_wait<V, E>(seen: Seen<V, E>)
    ensures
        seen.start is Started ==> advance(BridgeStage::Starting, seen) == (
            BridgeStage::Started,
            BridgeAction::<V, E>::Store,
        ),
        seen.start is Lost || seen.start is Pending && seen.cancelled ==> advance(
            BridgeStage::Starting,
            seen,
        ) == (
            BridgeStage::Ended { started: false, value: false },
            BridgeAction::<V, E>::End(Err(TaskError::Cancelled)),
        ),
        seen.start is Pending && !seen.cancelled ==> advance(BridgeStage::Starting, seen) == (
            BridgeStage::Starting,
            BridgeAction::<V, E>::Pend,
        ),
{
}

/// A wait that is over stays so, and does nothing more.
pub proof fn law_ended_wait_stays<V, E>(started: bool, value: bool, seen: Seen<V, E>)
    ensures
        advance(BridgeStage::Ended { started, value }, seen) == (
            BridgeStage::Ended { started, value },
            BridgeAction::<V, E>::Pend,
        ),
{
}

/// What a one-shot receiver gives is what was sent, and a cancellation where
/// nothing was.
pub proof fn law_received_is_what_was_sent<V, E>(
    result: Result<Result<V, TaskError<E>>, Canceled>,
    sent: Result<V, TaskError<E>>,
)
    ensures
        result == Ok::<Result<V, TaskError<E>>, Canceled>(sent) ==> received(result) == sent,
        result is Err ==> received(result) == Err::<V, TaskError<E>>(TaskError::Cancelled),
{
}

/// Wherever a wait stops, its task is to be cancelled exactly when there is one
/// and it gave no value; giving up ends the wait and changes nothing about that;
/// and a task is late exactly when the wait is over.
pub proof fn law_stopping_anywhere(stage: BridgeStage, started: bool, value: bool)
    ensures
        !BridgeStage::Starting.leaves_task(),
        BridgeStage::Started.leaves_task(),
        BridgeStage::Waiting.leaves_task(),
        (BridgeStage::Ended { started, value }).leaves_task() <==> started && !value,
        stage.given_up() is Ended,
        stage.given_up().leaves_task() == stage.leaves_task(),
        stage is Ended ==> stage.given_up() == stage,
        BridgeStage::Starting.given_up() == (BridgeStage::Ended { started: false, value: false }),
        stage is Started || stage is Waiting ==> stage.given_up() == (BridgeStage::Ended {
            started: true,
            value: false,
        }),
        stage.cancels_late() <==> stage is Ended,
{
}

} // verus!
