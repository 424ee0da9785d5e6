//! Closing a runtime that has nothing to do.

use crate::cancel::token_told;
use crate::runtime::Inner;
use crate::runtime::InnerStep;
use crate::runtime::InnerView;
use crate::timeout::Timeout;
use vstd::prelude::*;

verus! {

/// What the watcher waits for.
#[derive(Clone, Copy, Debug, PartialEq, Eq, Structural)]
pub enum WatchStage {
    /// The first work to begin.
    FirstWork,
    /// Nothing: it is about to look whether there is work.
    Look,
    /// The last work to end.
    Idle,
    /// The idle time to pass, or new work to begin.
    Countdown,
    /// Nothing any more.
    Stopped,
}

/// What has ended the watcher's wait.
#[derive(Clone, Copy, Debug, PartialEq, Eq, Structural)]
pub struct Wake {
    /// All work was told to stop.
    pub cancelled: bool,
    /// What is waited for has been announced.
    pub notified: bool,
    /// The idle time has passed.
    pub elapsed: bool,
}

/// What the watcher is to do next.
pub enum WatchAction {
    /// Look again at once.
    Again,
    /// Wait for work to begin, or for all work to be told to stop.
    AwaitWork,
    /// Wait for the last work to end, or for all work to be told to stop.
    AwaitIdle,
    /// Start the idle time, and wait for it to pass, for work to begin, or for
    /// all work to be told to stop.
    StartCountdown(Timeout),
    /// Wait on, as in the countdown so far.
    KeepCounting,
    /// Nothing any more.
    Stop,
}

/// The countdown is broken off: work has begun, or the runtime was closed, and
/// the watcher was told so.
pub open spec fn interrupted(inner: InnerView, wake: Wake) -> bool {
    wake.notified && (inner.closed || inner.work_count > 0)
}

/// The watcher closes the runtime, and tells what is left to stop: the idle
/// time has passed without work.
pub open spec fn closes(stage: WatchStage, inner: InnerView, wake: Wake) -> bool {
    &&& stage == WatchStage::Countdown
    &&& !wake.cancelled
    &&& !interrupted(inner, wake)
    &&& wake.elapsed
    &&& inner.work_count == 0
}

/// What the watcher waits for after it was woken. Of what can end a countdown,
/// the end of all work comes first, then new work, then the idle time.
pub open spec fn watch(stage: WatchStage, inner: InnerView, wake: Wake) -> WatchStage {
    match stage {
        WatchStage::Stopped => stage,
        WatchStage::Look => if inner.closed {
            WatchStage::Stopped
        } else if inner.work_count > 0 {
            WatchStage::Idle
        } else {
            WatchStage::Countdown
        },
        WatchStage::FirstWork => if wake.cancelled || inner.closed {
            WatchStage::Stopped
        } else if inner.ever_worked {
            WatchStage::Look
        } else {
            stage
        },
        WatchStage::Idle => if wake.cancelled || inner.closed {
            WatchStage::Stopped
        } else if inner.work_count == 0 {
            WatchStage::Look
        } else {
            stage
        },
        WatchStage::Countdown => if wake.cancelled {
            WatchStage::Stopped
        } else if interrupted(inner, wake) {
            WatchStage::Look
        } else if !wake.elapsed {
            stage
        } else if inner.work_count == 0 {
            WatchStage::Stopped
        } else {
            WatchStage::Look
        },
    }
}

/// What the watcher is to do, given what it waited for and waits for now.
pub open spec fn watch_action_fits(
    before: WatchStage,
    after: WatchStage,
    action: WatchAction,
    ttl: Timeout,
) -> bool {
    match after {
        WatchStage::FirstWork => action is AwaitWork,
        WatchStage::Look => action is Again,
        WatchStage::Idle => action is AwaitIdle,
        WatchStage::Countdown => if before == WatchStage::Look {
            action == WatchAction::StartCountdown(ttl)
        } else {
            action is KeepCounting
        },
        WatchStage::Stopped => action is Stop,
    }
}

/// Closes a runtime when it has had nothing to do for a while, once it has
/// had something to do.
pub struct IdleWatcher {
    ttl: Timeout,
    stage: WatchStage,
}

impl View for IdleWatcher {
    type V = WatchStage;

    closed spec fn view(&self) -> WatchStage {
        self.stage
    }
}

impl IdleWatcher {
    /// The idle time after which the runtime is closed.
    pub closed spec fn ttl(&self) -> Timeout {
        self.ttl
    }

    /// A watcher, if the runtime is to be closed when idle.
    pub fn spawn(inner: &Inner) -> (watcher: Option<IdleWatcher>)
        ensures
            watcher is Some <==> inner@.idle_ttl is Some,
            watcher matches Some(w) ==> {
                &&& w@ == WatchStage::FirstWork
                &&& inner@.idle_ttl == Some(w.ttl()@)
            },
    {
        match inner.idle_ttl() {
            Some(ttl) => Some(IdleWatcher { ttl, stage: WatchStage::FirstWork }),
            None => None,
        }
    }

    /// Goes on after a wait, or for the first time.
    pub fn poll(&mut self, inner: &mut Inner, wake: Wake) -> (action: WatchAction)
        requires
            old(inner).wf(),
        ensures
            final(inner).wf(),
            final(self).ttl() == old(self).ttl(),
            final(self)@ == watch(old(self)@, old(inner)@, wake),
            watch_action_fits(old(self)@, final(self)@, action, old(self).ttl()),
            final(inner)@ == (if closes(old(self)@, old(inner)@, wake) {
                InnerView { closed: true, shutdown: true, ..old(inner)@ }
            } else {
                old(inner)@
            }),
            closes(old(self)@, old(inner)@, wake) ==> token_told(old(inner)@.shutdown_token),
    {
        match self.stage {
            WatchStage::Stopped => WatchAction::Stop,
            WatchStage::Look => {
                if inner.is_closed() {
                    self.stage = WatchStage::Stopped;
                    WatchAction::Stop
                } else if inner.work_count() > 0 {
                    self.stage = WatchStage::Idle;
                    WatchAction::AwaitIdle
                } else {
                    self.stage = WatchStage::Countdown;
                    WatchAction::StartCountdown(self.ttl)
                }
            },
            WatchStage::FirstWork => {
                if wake.cancelled || inner.is_closed() {
                    self.stage = WatchStage::Stopped;
                    WatchAction::Stop
                } else if inner.ever_worked() {
                    self.stage = WatchStage::Look;
                    WatchAction::Again
                } else {
                    WatchAction::AwaitWork
                }
            },
            WatchStage::Idle => {
                if wake.cancelled || inner.is_closed() {
                    self.stage = WatchStage::Stopped;
                    WatchAction::Stop
                } else if inner.work_count() == 0 {
                    self.stage = WatchStage::Look;
                    WatchAction::Again
                } else {
                    WatchAction::AwaitIdle
                }
            },
            WatchStage::Countdown => {
                if wake.cancelled {
                    self.stage = WatchStage::Stopped;
                    WatchAction::Stop
                } else if wake.notified && (inner.is_closed() || inner.work_count() > 0) {
                    self.stage = WatchStage::Look;
                    WatchAction::Again
                } else if !wake.elapsed {
                    WatchAction::KeepCounting
                } else if inner.work_count() == 0 {
                    inner.close();
                    inner.cancel_work();
                    self.stage = WatchStage::Stopped;
                    WatchAction::Stop
                } else {
                    self.stage = WatchStage::Look;
                    WatchAction::Again
                }
            },
        }
    }
}

/// Once the watcher is past the first work, the runtime has had some.
pub open spec fn past_first_work(stage: WatchStage, inner: InnerView) -> bool {
    stage != WatchStage::FirstWork && stage != WatchStage::Stopped ==> inner.ever_worked
}

/// The watcher keeps to that when it is polled, and whatever happens to the
/// runtime meanwhile.
pub proof fn law_watcher_waits_for_first_work(
    stage: WatchStage,
    inner: InnerView,
    wake: Wake,
    step: InnerStep,
)
    requires
        past_first_work(stage, inner),
    ensures
        past_first_work(watch(stage, inner, wake), inner),
        past_first_work(stage, inner.step(step)),
{
}

/// The watcher closes a runtime only when it is idle, has had work, and the
/// idle time has passed. It then stops.
pub proof fn law_idle_close(stage: WatchStage, inner: InnerView, wake: Wake)
    requires
        past_first_work(stage, inner),
        closes(stage, inner, wake),
    ensures
        inner.work_count == 0,
        inner.ever_worked,
        wake.elapsed,
        watch(stage, inner, wake) == WatchStage::Stopped,
{
}

/// New work breaks a countdown off: a watcher that is told of it does not close
/// the runtime, even if the idle time has passed meanwhile.
pub proof fn law_work_stops_countdown(stage: WatchStage, inner: InnerView, wake: Wake)
    requires
        inner.work_count > 0,
    ensures
        !closes(stage, inner, wake),
        stage == WatchStage::Countdown && !wake.cancelled && (wake.notified || wake.elapsed)
            ==> watch(stage, inner, wake) == WatchStage::Look,
{
}

/// The watcher of a closed runtime stops, at the latest when it is polled for
/// the second time after something woke it.
pub proof fn law_watcher_stops_with_runtime(
    stage: WatchStage,
    inner: InnerView,
    first: Wake,
    second: Wake,
)
    requires
        inner.closed,
        first.cancelled || first.notified || first.elapsed,
    ensures
        watch(watch(stage, inner, first), inner, second) == WatchStage::Stopped,
{
}

/// What the watcher waits for next, at each stage. It first waits for some work
/// to have begun, then for the last to end, and then counts. All work being told
/// to stop ends each of these waits, and the runtime being closed ends all but
/// the count, which ends when the watcher is told of it. The count is broken off
/// when it is told of new work, and runs out when the idle time has passed.
pub proof fn law_watch_outcomes(inner: InnerView, wake: Wake)
    ensures
        watch(WatchStage::Stopped, inner, wake) == WatchStage::Stopped,
        inner.closed ==> watch(WatchStage::Look, inner, wake) == WatchStage::Stopped,
        !inner.closed && inner.work_count > 0 ==> watch(WatchStage::Look, inner, wake)
            == WatchStage::Idle,
        !inner.closed && inner.work_count == 0 ==> watch(WatchStage::Look, inner, wake)
            == WatchStage::Countdown,
        wake.cancelled || inner.closed ==> watch(WatchStage::FirstWork, inner, wake)
            == WatchStage::Stopped && watch(WatchStage::Idle, inner, wake) == WatchStage::Stopped,
        !wake.cancelled && !inner.closed ==> {
            &&& inner.ever_worked ==> watch(WatchStage::FirstWork, inner, wake) == WatchStage::Look
            &&& !inner.ever_worked ==> watch(WatchStage::FirstWork, inner, wake)
                == WatchStage::FirstWork
            &&& inner.work_count == 0 ==> watch(WatchStage::Idle, inner, wake) == WatchStage::Look
            &&& inner.work_count > 0 ==> watch(WatchStage::Idle, inner, wake) == WatchStage::Idle
        },
        wake.cancelled ==> watch(WatchStage::Countdown, inner, wake) == WatchStage::Stopped,
        !wake.cancelled && wake.notified && (inner.closed || inner.work_count > 0) ==> watch(
            WatchStage::Countdown,
            inner,
            wake,
        ) == WatchStage::Look,
        !wake.cancelled && !wake.elapsed && (!wake.notified || !inner.closed && inner.work_count
            == 0) ==> watch(WatchStage::Countdown, inner, wake) == WatchStage::Countdown,
        !wake.cancelled && wake.elapsed && inner.work_count > 0 ==> watch(
            WatchStage::Countdown,
            inner,
            wake,
        ) == WatchStage::Look,
        !wake.cancelled && wake.elapsed && inner.work_count == 0 && !(wake.notified
            && inner.closed) ==> watch(WatchStage::Countdown, inner, wake) == WatchStage::Stopped,
{
}

/// The watcher closes the runtime exactly when its count runs out without work:
/// the idle time has passed, no work is left, and neither was all work told to
/// stop nor was the watcher told that the runtime is closed.
pub proof fn law_when_the_watcher_closes(stage: WatchStage, inner: InnerView, wake: Wake)
    ensures
        closes(stage, inner, wake) <==> stage == WatchStage::Countdown && wake.elapsed
            && inner.work_count == 0 && !wake.cancelled && !(wake.notified && inner.closed),
{
}

/// What is to be done, by what is waited for: the wait for it, and when a count
/// begins, the start of the idle time.
pub proof fn law_watch_actions(
    before: WatchStage,
    after: WatchStage,
    action: WatchAction,
    ttl: Timeout,
)
    requires
        watch_action_fits(before, after, action, ttl),
    ensures
        after == WatchStage::FirstWork ==> action is AwaitWork,
        after == WatchStage::Look ==> action is Again,
        after == WatchStage::Idle ==> action is AwaitIdle,
        after == WatchStage::Countdown && before == WatchStage::Look ==> action
            == WatchAction::StartCountdown(ttl),
        after == WatchStage::Countdown && before != WatchStage::Look ==> action is KeepCounting,
        after == WatchStage::Stopped ==> action is Stop,
{
}

} // verus!
