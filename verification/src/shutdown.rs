//! Shutting a runtime down.

use crate::binary64::Binary64;
use crate::cancel::token_told;
use crate::runtime::Inner;
use crate::runtime::InnerStep;
use crate::runtime::InnerView;
use crate::timeout::Timeout;
use vstd::prelude::*;

verus! {

/// How far a shutdown has come.
pub enum DrainStage {
    /// It has not begun; work in flight will be waited for this long.
    Requested(Option<Timeout>),
    /// Work in flight is waited for this long. Without a time, as long as it
    /// takes.
    Draining(Option<Timeout>),
    /// What was left was told to stop, and is waited for a little longer.
    Cancelling,
    /// It is over.
    Done,
}

/// What a shutdown does next.
pub enum DrainAction {
    /// Start the clock, look again, and from then on wait for the last work to
    /// end or for this time to pass. Without a time, wait as long as it takes.
    StartClock(Option<Timeout>),
    /// Wait on.
    Wait,
    /// Return.
    Done,
}

/// What a look at the runtime leads to; whether the time has passed.
pub open spec fn drain(stage: DrainStage, inner: InnerView, elapsed: bool) -> (
    DrainStage,
    InnerView,
) {
    match stage {
        DrainStage::Requested(timeout) => (
            DrainStage::Draining(timeout),
            InnerView { closed: true, ..inner },
        ),
        DrainStage::Draining(timeout) => if inner.work_count == 0 {
            (DrainStage::Done, inner)
        } else if elapsed && timeout is Some {
            (DrainStage::Cancelling, InnerView { shutdown: true, ..inner })
        } else {
            (stage, inner)
        },
        DrainStage::Cancelling => if inner.work_count == 0 || elapsed {
            (DrainStage::Done, inner)
        } else {
            (stage, inner)
        },
        DrainStage::Done => (stage, inner),
    }
}

/// How long, in seconds, work that was told to stop is waited for: five.
pub open spec fn grace_secs() -> Binary64 {
    Binary64 { bits: 0x4014_0000_0000_0000 }
}

/// What a shutdown does next, given how far it had and has come.
pub open spec fn drain_action_fits(
    before: DrainStage,
    after: DrainStage,
    action: DrainAction,
) -> bool {
    match before {
        DrainStage::Requested(timeout) => action == DrainAction::StartClock(timeout),
        DrainStage::Draining(_) => match after {
            DrainStage::Done => action is Done,
            DrainStage::Cancelling => action matches DrainAction::StartClock(Some(grace))
                && grace@ == grace_secs(),
            _ => action is Wait,
        },
        DrainStage::Cancelling => match after {
            DrainStage::Done => action is Done,
            _ => action is Wait,
        },
        DrainStage::Done => action is Done,
    }
}

/// A shutdown: admissions stop, work in flight is waited for, and what is left
/// in the end is cancelled.
pub struct Drain {
    stage: DrainStage,
}

impl View for Drain {
    type V = DrainStage;

    closed spec fn view(&self) -> DrainStage {
        self.stage
    }
}

impl Drain {
    /// A shutdown that waits this long for work in flight.
    pub fn new(timeout: Option<Timeout>) -> (drain: Drain)
        ensures
            drain@ == DrainStage::Requested(timeout),
    {
        Drain { stage: DrainStage::Requested(timeout) }
    }

    /// Goes on after a wait, or for the first time.
    pub fn poll(&mut self, inner: &mut Inner, elapsed: bool) -> (action: DrainAction)
        requires
            old(inner).wf(),
        ensures
            final(inner).wf(),
            (final(self)@, final(inner)@) == drain(old(self)@, old(inner)@, elapsed),
            drain_action_fits(old(self)@, final(self)@, action),
            old(self)@ is Draining && final(self)@ is Cancelling ==> token_told(
                old(inner)@.shutdown_token,
            ),
    {
        match self.stage {
            DrainStage::Requested(timeout) => {
                inner.close();
                self.stage = DrainStage::Draining(timeout);
                DrainAction::StartClock(timeout)
            },
            DrainStage::Draining(timeout) => {
                if inner.work_count() == 0 {
                    self.stage = DrainStage::Done;
                    DrainAction::Done
                } else if elapsed && timeout.is_some() {
                    inner.cancel_work();
                    self.stage = DrainStage::Cancelling;
                    DrainAction::StartClock(Some(Timeout::cancel_grace()))
                } else {
                    DrainAction::Wait
                }
            },
            DrainStage::Cancelling => {
                if inner.work_count() == 0 || elapsed {
                    self.stage = DrainStage::Done;
                    DrainAction::Done
                } else {
                    DrainAction::Wait
                }
            },
            DrainStage::Done => DrainAction::Done,
        }
    }
}

/// What a shutdown has brought about so far: it stops admissions first, and
/// from the moment that it gives up waiting all work is told to stop.
pub open spec fn drain_effect(stage: DrainStage, inner: InnerView) -> bool {
    &&& !(stage is Requested) ==> inner.closed
    &&& stage is Cancelling ==> inner.shutdown
}

/// A shutdown keeps what it has brought about, whatever happens to the runtime
/// meanwhile. When it is over, no work is left or all that is left was told to
/// stop.
pub proof fn law_shutdown(stage: DrainStage, inner: InnerView, elapsed: bool, step: InnerStep)
    requires
        drain_effect(stage, inner),
    ensures
        drain_effect(stage, inner.step(step)),
        ({
            let (next, after) = drain(stage, inner, elapsed);
            &&& drain_effect(next, after)
            &&& next is Done && !(stage is Done) ==> after.work_count == 0 || after.shutdown
        }),
{
}

/// Work in flight is not told to stop by a shutdown whose time has not passed,
/// and is waited for on. Without a time limit it always is, whatever the clock
/// says.
pub proof fn law_shutdown_waits(stage: DrainStage, inner: InnerView, elapsed: bool)
    ensures
        drain(stage, inner, false).1.shutdown == inner.shutdown,
        stage is Draining && inner.work_count > 0 ==> drain(stage, inner, false).0 == stage,
        stage == DrainStage::Draining(None) ==> {
            &&& drain(stage, inner, elapsed).1 == inner
            &&& inner.work_count > 0 ==> drain(stage, inner, elapsed).0 == stage
        },
{
}

/// What a look leads to at each stage. The first stops admissions. Then the
/// shutdown is over as soon as no work is left; when its time has passed before
/// that, what is left is told to stop, and when the time of grace has passed as
/// well, or no work is left, it is over. Nothing else about the runtime changes.
pub proof fn law_drain_outcomes(inner: InnerView, elapsed: bool, timeout: Option<Timeout>)
    ensures
        drain(DrainStage::Requested(timeout), inner, elapsed).0 == DrainStage::Draining(timeout),
        ({
            let after = drain(DrainStage::Requested(timeout), inner, elapsed).1;
            after.closed && (InnerView { closed: inner.closed, ..after }) == inner
        }),
        inner.work_count == 0 ==> drain(DrainStage::Draining(timeout), inner, elapsed) == (
            DrainStage::Done,
            inner,
        ),
        inner.work_count > 0 && elapsed && timeout is Some ==> {
            let (next, after) = drain(DrainStage::Draining(timeout), inner, elapsed);
            &&& next == DrainStage::Cancelling
            &&& after.shutdown
            &&& (InnerView { shutdown: inner.shutdown, ..after }) == inner
        },
        inner.work_count > 0 && !(elapsed && timeout is Some) ==> drain(
            DrainStage::Draining(timeout),
            inner,
            elapsed,
        ) == (DrainStage::Draining(timeout), inner),
        inner.work_count == 0 || elapsed ==> drain(DrainStage::Cancelling, inner, elapsed) == (
            DrainStage::Done,
            inner,
        ),
        inner.work_count > 0 && !elapsed ==> drain(DrainStage::Cancelling, inner, elapsed) == (
            DrainStage::Cancelling,
            inner,
        ),
        drain(DrainStage::Done, inner, elapsed) == (DrainStage::Done, inner),
{
}

/// What is to be done at each stage: the clock is started with the time that was
/// asked for, and again with five seconds when what is left was told to stop.
/// In between there is nothing to do but wait, until it is over.
pub proof fn law_drain_actions(
    before: DrainStage,
    after: DrainStage,
    action: DrainAction,
    timeout: Option<Timeout>,
)
    requires
        drain_action_fits(before, after, action),
    ensures
        before == DrainStage::Requested(timeout) ==> action == DrainAction::StartClock(timeout),
        before is Draining && after is Cancelling ==> (action matches DrainAction::StartClock(
            Some(grace),
        ) && grace@.bits == 0x4014_0000_0000_0000),
        (before is Draining || before is Cancelling) && after is Done ==> action is Done,
        before is Draining && after is Draining ==> action is Wait,
        before is Cancelling && after is Cancelling ==> action is Wait,
        before is Done ==> action is Done,
{
}

} // verus!
