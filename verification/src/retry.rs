//! Calls that are repeated until they succeed, or are given up.

use crate::bridge::TaskCell;
use crate::handle::Handle;
use crate::outcome::cancelled_error;
use crate::outcome::is_cancelled;
use crate::outcome::TaskError;
use crate::policy::Backoff;
use crate::policy::RetryConfig;
use vstd::prelude::*;

verus! {

/// Where a call stands.
#[derive(Clone, Copy, Debug, PartialEq, Eq, Structural)]
pub enum RunStage {
    /// The next attempt is due.
    Due,
    /// The next attempt is paused for.
    Pausing,
    /// An attempt is being made.
    Calling,
    /// It is over.
    Ended,
}

/// A call, and how far it has come.
pub struct RunView {
    pub config: RetryConfig,
    pub task_id: u64,
    /// The number of the attempt, from zero.
    pub attempt: u32,
    pub stage: RunStage,
}

/// What happens to a call.
pub enum RunEvent<V, E> {
    /// Its turn has come; whether it was cancelled by then.
    Turn { cancelled: bool },
    /// Its pause is over; whether it was cancelled by then.
    Resume { cancelled: bool },
    /// An attempt has ended.
    Returned(Result<V, TaskError<E>>),
}

/// What is to be done about a call.
pub enum RunAction<V, E> {
    /// Nothing: this does not happen at this stage.
    Ignore,
    /// Pause.
    Pause(Backoff),
    /// Make an attempt.
    Call,
    /// Give the call its next turn.
    Again,
    /// Return this.
    End(Result<V, TaskError<E>>),
}

impl RunView {
    /// A call that was not made yet.
    pub open spec fn fresh(config: RetryConfig, task_id: u64) -> RunView {
        RunView { config, task_id, attempt: 0, stage: RunStage::Due }
    }

    /// An attempt that ended like this is followed by another: it failed,
    /// other than by being cancelled, and attempts are left.
    pub open spec fn repeats<V, E>(self, result: Result<V, TaskError<E>>) -> bool {
        &&& result matches Err(error)
        &&& !error.kind().cancelled
        &&& self.attempt + 1 < self.config.attempts()
    }

    pub open spec fn ended<V, E>(self, result: Result<V, TaskError<E>>) -> (
        RunView,
        RunAction<V, E>,
    ) {
        (RunView { stage: RunStage::Ended, ..self }, RunAction::End(result))
    }

    pub open spec fn calling<V, E>(self) -> (RunView, RunAction<V, E>) {
        (RunView { stage: RunStage::Calling, ..self }, RunAction::Call)
    }

    /// What an event leads to.
    pub open spec fn step<V, E>(self, event: RunEvent<V, E>) -> (RunView, RunAction<V, E>) {
        match (self.stage, event) {
            (RunStage::Due, RunEvent::Turn { cancelled }) => if cancelled {
                self.ended(Err(TaskError::Cancelled))
            } else {
                match self.config.backoff(self.attempt, self.task_id) {
                    Backoff::Zero => self.calling(),
                    pause => (
                        RunView { stage: RunStage::Pausing, ..self },
                        RunAction::Pause(pause),
                    ),
                }
            },
            (RunStage::Pausing, RunEvent::Resume { cancelled }) => if cancelled {
                self.ended(Err(TaskError::Cancelled))
            } else {
                self.calling()
            },
            (RunStage::Calling, RunEvent::Returned(result)) => if self.repeats(result) {
                (
                    RunView {
                        attempt: (self.attempt + 1) as u32,
                        stage: RunStage::Due,
                        ..self
                    },
                    RunAction::Again,
                )
            } else {
                self.ended(result)
            },
            _ => (self, RunAction::Ignore),
        }
    }

    /// An event starts a repeated attempt, for which the task of the attempt
    /// before is forgotten.
    pub open spec fn forgets_task<V, E>(self, event: RunEvent<V, E>) -> bool {
        self.stage == RunStage::Due && self.attempt > 0 && event == RunEvent::<V, E>::Turn {
            cancelled: false,
        }
    }
}

/// A call that is repeated as its runtime's retry parameters say.
pub struct TaskRun {
    config: RetryConfig,
    task_id: u64,
    attempt: u32,
    stage: RunStage,
}

impl View for TaskRun {
    type V = RunView;

    closed spec fn view(&self) -> RunView {
        RunView {
            config: self.config,
            task_id: self.task_id,
            attempt: self.attempt,
            stage: self.stage,
        }
    }
}

impl TaskRun {
    #[verifier::type_invariant]
    spec fn within_attempts(self) -> bool {
        self.attempt < self.config.attempts()
    }

    pub(crate) fn new(config: RetryConfig, task_id: u64) -> (run: TaskRun)
        ensures
            run@ == RunView::fresh(config, task_id),
    {
        TaskRun { config, task_id, attempt: 0, stage: RunStage::Due }
    }

    /// Goes on after an event. A repeated attempt forgets the event loop's
    /// task of the one before.
    pub fn on_event<T, V, E>(&mut self, cell: &mut TaskCell<T>, event: RunEvent<V, E>) -> (action:
        RunAction<V, E>)
        ensures
            (final(self)@, action) == old(self)@.step(event),
            final(cell)@ == (if old(self)@.forgets_task(event) {
                None::<T>
            } else {
                old(cell)@
            }),
    {
        proof {
            use_type_invariant(&*self);
        }
        match event {
            RunEvent::Turn { cancelled } => {
                if self.stage != RunStage::Due {
                    return RunAction::Ignore;
                }
                if cancelled {
                    self.stage = RunStage::Ended;
                    return RunAction::End(Err(cancelled_error()));
                }
                if self.attempt > 0 {
                    cell.clear();
                }
                match self.config.backoff_for(self.attempt, self.task_id) {
                    Backoff::Zero => {
                        self.stage = RunStage::Calling;
                        RunAction::Call
                    },
                    pause => {
                        self.stage = RunStage::Pausing;
                        RunAction::Pause(pause)
                    },
                }
            },
            RunEvent::Resume { cancelled } => {
                if self.stage != RunStage::Pausing {
                    return RunAction::Ignore;
                }
                if cancelled {
                    self.stage = RunStage::Ended;
                    return RunAction::End(Err(cancelled_error()));
                }
                self.stage = RunStage::Calling;
                RunAction::Call
            },
            RunEvent::Returned(result) => {
                if self.stage != RunStage::Calling {
                    return RunAction::Ignore;
                }
                let attempts: u32 = if self.config.max_attempts >= 1 {
                    self.config.max_attempts
                } else {
                    1
                };
                match result {
                    Ok(value) => {
                        self.stage = RunStage::Ended;
                        RunAction::End(Ok(value))
                    },
                    Err(error) => {
                        if self.attempt + 1 < attempts && !is_cancelled(&error) {
                            self.attempt = self.attempt + 1;
                            self.stage = RunStage::Due;
                            RunAction::Again
                        } else {
                            self.stage = RunStage::Ended;
                            RunAction::End(Err(error))
                        }
                    },
                }
            },
        }
    }

    /// Gives the call its turn, with its scope as it is found.
    pub fn turn<T, V, E>(&mut self, handle: &mut Handle<T>) -> (action: RunAction<V, E>)
        ensures
            final(handle).slot == old(handle).slot,
            final(handle).cancel == old(handle).cancel,
            exists|cancelled: bool| #[trigger]
                old(handle).cancel.answers(cancelled) && turn_given(
                    cancelled,
                    old(self)@,
                    final(self)@,
                    action,
                    old(handle).py_task@,
                    final(handle).py_task@,
                ),
    {
        let cancelled = handle.cancel.is_cancelled();
        assert(handle.cancel.answers(cancelled));
        let event = RunEvent::Turn { cancelled };
        self.on_event(&mut handle.py_task, event)
    }
}

/// What a turn comes to when the call's scope is found cancelled, or not.
pub open spec fn turn_given<T, V, E>(
    cancelled: bool,
    before: RunView,
    after: RunView,
    action: RunAction<V, E>,
    task_before: Option<T>,
    task_after: Option<T>,
) -> bool {
    let event = RunEvent::<V, E>::Turn { cancelled };
    &&& (after, action) == before.step(event)
    &&& task_after == (if before.forgets_task(event) {
        None
    } else {
        task_before
    })
}

/// A call after these events.
pub open spec fn run_after<V, E>(
    config: RetryConfig,
    task_id: u64,
    events: Seq<RunEvent<V, E>>,
) -> RunView
    decreases events.len(),
{
    if events.len() == 0 {
        RunView::fresh(config, task_id)
    } else {
        run_after(config, task_id, events.drop_last()).step(events.last()).0
    }
}

/// How many attempts these events lead to.
pub open spec fn attempts_made<V, E>(
    config: RetryConfig,
    task_id: u64,
    events: Seq<RunEvent<V, E>>,
) -> nat
    decreases events.len(),
{
    if events.len() == 0 {
        0
    } else {
        let before = events.drop_last();
        let action = run_after(config, task_id, before).step(events.last()).1;
        attempts_made(config, task_id, before) + if action is Call {
            1nat
        } else {
            0nat
        }
    }
}

/// Whatever happens to a call, it is made no more often than its retry
/// parameters allow.
pub proof fn law_attempts_bounded<V, E>(
    config: RetryConfig,
    task_id: u64,
    events: Seq<RunEvent<V, E>>,
)
    ensures
        attempts_made(config, task_id, events) <= config.attempts(),
{
    lemma_attempts_counted(config, task_id, events);
}

/// The number of the attempt counts those that were made.
proof fn lemma_attempts_counted<V, E>(
    config: RetryConfig,
    task_id: u64,
    events: Seq<RunEvent<V, E>>,
)
    ensures
        ({
            let run = run_after(config, task_id, events);
            let made = attempts_made(config, task_id, events);
            &&& run.config == config
            &&& run.task_id == task_id
            &&& run.attempt < config.attempts()
            &&& match run.stage {
                RunStage::Due => made == run.attempt,
                RunStage::Pausing => made == run.attempt,
                RunStage::Calling => made == run.attempt + 1,
                RunStage::Ended => run.attempt <= made <= run.attempt + 1,
            }
        }),
    decreases events.len(),
{
    if events.len() > 0 {
        lemma_attempts_counted(config, task_id, events.drop_last());
    }
}

/// An attempt is followed by another exactly when it failed, other than by
/// being cancelled, and attempts are left. Otherwise its result is the call's.
pub proof fn law_only_failures_repeat<V, E>(run: RunView, result: Result<V, TaskError<E>>)
    requires
        run.stage == RunStage::Calling,
    ensures
        ({
            let action = run.step(RunEvent::Returned(result)).1;
            let left = run.attempt + 1 < run.config.attempts();
            &&& result is Ok ==> action == RunAction::End(result)
            &&& result matches Err(error) ==> if error.kind().cancelled || !left {
                action == RunAction::End(result)
            } else {
                action == RunAction::<V, E>::Again
            }
        }),
{
}

/// A call that ends with a failure other than a cancellation was made as often
/// as its retry parameters allow, and its result is that of the last attempt.
pub proof fn law_failing_call_uses_all_attempts<V, E>(
    config: RetryConfig,
    task_id: u64,
    events: Seq<RunEvent<V, E>>,
)
    requires
        events.len() > 0,
        run_after(config, task_id, events.drop_last()).stage == RunStage::Calling,
        events.last() matches RunEvent::Returned(Err(error)) && !error.kind().cancelled,
        run_after(config, task_id, events).stage == RunStage::Ended,
    ensures
        attempts_made(config, task_id, events) == config.attempts(),
        run_after(config, task_id, events.drop_last()).step(events.last()).1 == RunAction::End(
            events.last()->Returned_0,
        ),
{
    lemma_attempts_counted(config, task_id, events.drop_last());
}

/// A call that was cancelled is not made any more: its next turn ends it, and
/// so does the end of its pause.
pub proof fn law_cancelled_call_not_made<V, E>(run: RunView)
    ensures
        run.stage == RunStage::Due ==> run.step(
            (RunEvent::<V, E>::Turn { cancelled: true }),
        ).1 == RunAction::<V, E>::End(Err(TaskError::Cancelled)),
        run.stage == RunStage::Pausing ==> run.step(
            (RunEvent::<V, E>::Resume { cancelled: true }),
        ).1 == RunAction::<V, E>::End(Err(TaskError::Cancelled)),
{
}

/// What its turn and the end of its pause do to a call. A cancelled call ends as
/// cancelled. Otherwise the first attempt, and every one without a configured
/// pause, is made at once, and any other is paused for first and made after
/// that.
pub proof fn law_turn_outcomes<V, E>(run: RunView, cancelled: bool)
    ensures
        ({
            let (after, action) = run.step((RunEvent::<V, E>::Turn { cancelled }));
            run.stage == RunStage::Due ==> {
                &&& cancelled ==> after.stage == RunStage::Ended && action == RunAction::<
                    V,
                    E,
                >::End(Err(TaskError::Cancelled))
                &&& !cancelled && (run.attempt == 0 || run.config.backoff_ms == 0) ==> after.stage
                    == RunStage::Calling && action == RunAction::<V, E>::Call
                &&& !cancelled && run.attempt > 0 && run.config.backoff_ms > 0 ==> after.stage
                    == RunStage::Pausing && action == RunAction::<V, E>::Pause(
                    run.config.backoff(run.attempt, run.task_id),
                )
            }
        }),
        ({
            let (after, action) = run.step((RunEvent::<V, E>::Resume { cancelled }));
            run.stage == RunStage::Pausing ==> {
                &&& cancelled ==> after.stage == RunStage::Ended && action == RunAction::<
                    V,
                    E,
                >::End(Err(TaskError::Cancelled))
                &&& !cancelled ==> after.stage == RunStage::Calling && action == RunAction::<
                    V,
                    E,
                >::Call
            }
        }),
{
}

/// What the end of an attempt does to a call. A value, a cancellation of
/// whatever origin, and the failure of the last attempt are the call's result,
/// unchanged; any other failure, whatever its kind, is followed by the next
/// attempt.
pub proof fn law_attempt_outcomes<V, E>(run: RunView, value: V, error: TaskError<E>)
    requires
        run.stage == RunStage::Calling,
    ensures
        ({
            let (after, action) = run.step(RunEvent::<V, E>::Returned(Ok(value)));
            after.stage == RunStage::Ended && after.attempt == run.attempt && action
                == RunAction::<V, E>::End(Ok(value))
        }),
        ({
            let (after, action) = run.step(RunEvent::<V, E>::Returned(Err(error)));
            if error.kind().cancelled || run.attempt + 1 >= run.config.max_attempts {
                after.stage == RunStage::Ended && after.attempt == run.attempt && action
                    == RunAction::<V, E>::End(Err(error))
            } else {
                after.stage == RunStage::Due && after.attempt == run.attempt + 1 && action
                    == RunAction::<V, E>::Again
            }
        }),
{
}

/// What a call is for never changes, only the end of an attempt moves on to the
/// next, and what does not belong to its stage is ignored.
pub proof fn law_call_keeps_its_terms<V, E>(run: RunView, event: RunEvent<V, E>)
    ensures
        run.step(event).0.config == run.config,
        run.step(event).0.task_id == run.task_id,
        !(event is Returned) ==> run.step(event).0.attempt == run.attempt,
        !(run.stage == RunStage::Due && event is Turn || run.stage == RunStage::Pausing
            && event is Resume || run.stage == RunStage::Calling && event is Returned)
            ==> run.step(event) == (run, RunAction::<V, E>::Ignore),
{
}

/// A call starts with its first attempt due. The event loop's task of the attempt
/// before is forgotten exactly when a repeated attempt gets its turn and is not
/// cancelled.
pub proof fn law_start_and_repeat<V, E>(
    run: RunView,
    event: RunEvent<V, E>,
    config: RetryConfig,
    task_id: u64,
)
    ensures
        RunView::fresh(config, task_id).config == config,
        RunView::fresh(config, task_id).task_id == task_id,
        RunView::fresh(config, task_id).attempt == 0,
        RunView::fresh(config, task_id).stage == RunStage::Due,
        run.forgets_task(event) <==> run.stage == RunStage::Due && run.attempt > 0 && event == (
        RunEvent::<V, E>::Turn { cancelled: false }),
{
}

/// What a turn that finds the scope cancelled or not comes to: the step for that
/// answer, with the event loop's task kept unless a repeated attempt starts.
pub proof fn law_turn_taken<T, V, E>(
    cancelled: bool,
    before: RunView,
    after: RunView,
    action: RunAction<V, E>,
    task_before: Option<T>,
    task_after: Option<T>,
)
    requires
        turn_given(cancelled, before, after, action, task_before, task_after),
    ensures
        (after, action) == before.step((RunEvent::<V, E>::Turn { cancelled })),
        !cancelled && before.stage == RunStage::Due && before.attempt > 0 ==> task_after is None,
        cancelled || before.stage != RunStage::Due || before.attempt == 0 ==> task_after
            == task_before,
{
}

} // verus!
