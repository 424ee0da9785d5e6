//! Passing the completions of several tasks on as they come.

use vstd::prelude::*;

verus! {

/// What is waited for.
#[derive(Clone, Copy, Debug, PartialEq, Eq, Structural)]
pub enum ForwardStage {
    /// The next task to finish.
    Waiting,
    /// A completion to be delivered.
    Sending,
    /// Nothing any more.
    Ended,
}

/// What happens.
pub enum ForwardEvent<R> {
    /// A task has finished: its place among the tasks, and its result.
    Finished { index: usize, result: R },
    /// All tasks have finished before.
    Exhausted,
    /// Sending is over; whether the receiver was there to take it.
    Sent { delivered: bool },
}

/// What is to be done.
pub enum ForwardAction<R> {
    /// Nothing: this does not happen at this stage.
    Ignore,
    /// Wait for the next task to finish.
    Next,
    /// Send this completion to the receiver.
    Send { index: usize, result: R },
    /// Return.
    End,
}

impl ForwardStage {
    /// What an event leads to. A finished task is passed on, the next is waited
    /// for when that is delivered, and it is over when the receiver is gone or
    /// no task is left.
    pub open spec fn step<R>(self, event: ForwardEvent<R>) -> (ForwardStage, ForwardAction<R>) {
        match (self, event) {
            (ForwardStage::Waiting, ForwardEvent::Finished { index, result }) => (
                ForwardStage::Sending,
                ForwardAction::Send { index, result },
            ),
            (ForwardStage::Waiting, ForwardEvent::Exhausted) => (
                ForwardStage::Ended,
                ForwardAction::End,
            ),
            (ForwardStage::Sending, ForwardEvent::Sent { delivered }) => if delivered {
                (ForwardStage::Waiting, ForwardAction::Next)
            } else {
                (ForwardStage::Ended, ForwardAction::End)
            },
            _ => (self, ForwardAction::Ignore),
        }
    }
}

/// Passes completions on.
pub struct ForwardRun {
    stage: ForwardStage,
}

impl View for ForwardRun {
    type V = ForwardStage;

    closed spec fn view(&self) -> ForwardStage {
        self.stage
    }
}

impl ForwardRun {
    pub fn new() -> (run: ForwardRun)
        ensures
            run@ == ForwardStage::Waiting,
    {
        ForwardRun { stage: ForwardStage::Waiting }
    }

    /// Goes on after an event.
    pub fn on_event<R>(&mut self, event: ForwardEvent<R>) -> (action: ForwardAction<R>)
        ensures
            (final(self)@, action) == old(self)@.step(event),
    {
        match (self.stage, event) {
            (ForwardStage::Waiting, ForwardEvent::Finished { index, result }) => {
                self.stage = ForwardStage::Sending;
                ForwardAction::Send { index, result }
            },
            (ForwardStage::Waiting, ForwardEvent::Exhausted) => {
                self.stage = ForwardStage::Ended;
                ForwardAction::End
            },
            (ForwardStage::Sending, ForwardEvent::Sent { delivered }) => {
                if delivered {
                    self.stage = ForwardStage::Waiting;
                    ForwardAction::Next
                } else {
                    self.stage = ForwardStage::Ended;
                    ForwardAction::End
                }
            },
            _ => ForwardAction::Ignore,
        }
    }
}

/// What is waited for after these events.
pub open spec fn forward_after<R>(events: Seq<ForwardEvent<R>>) -> ForwardStage
    decreases events.len(),
{
    if events.len() == 0 {
        ForwardStage::Waiting
    } else {
        forward_after(events.drop_last()).step(events.last()).0
    }
}

/// What the last of these events led to.
pub open spec fn forward_action<R>(events: Seq<ForwardEvent<R>>) -> ForwardAction<R>
    recommends
        events.len() > 0,
{
    forward_after(events.drop_last()).step(events.last()).1
}

/// Every one of these events is an answer to what was asked for.
pub open spec fn forward_heeded<R>(events: Seq<ForwardEvent<R>>) -> bool
    decreases events.len(),
{
    events.len() > 0 ==> forward_heeded(events.drop_last()) && !(forward_action(events) is Ignore)
}

/// The tasks that finished in these events, in order: the place and the result
/// of each.
pub open spec fn finished<R>(events: Seq<ForwardEvent<R>>) -> Seq<(usize, R)>
    decreases events.len(),
{
    if events.len() == 0 {
        Seq::empty()
    } else {
        let before = finished(events.drop_last());
        match events.last() {
            ForwardEvent::Finished { index, result } => before.push((index, result)),
            _ => before,
        }
    }
}

/// The completions that are sent because of these events, in order.
pub open spec fn forwarded<R>(events: Seq<ForwardEvent<R>>) -> Seq<(usize, R)>
    decreases events.len(),
{
    if events.len() == 0 {
        Seq::empty()
    } else {
        let before = forwarded(events.drop_last());
        match forward_action(events) {
            ForwardAction::Send { index, result } => before.push((index, result)),
            _ => before,
        }
    }
}

/// No two of these have the same place.
pub open spec fn places_differ<R>(completions: Seq<(usize, R)>) -> bool {
    forall|k: int, l: int|
        0 <= k < l < completions.len() ==> (#[trigger] completions[k]).0 != (
        #[trigger] completions[l]).0
}

/// What is sent is what finished: one completion for each task, in the order in
/// which the tasks finish. Where each task finishes once, each place is sent
/// once.
pub proof fn law_completions_forwarded<R>(events: Seq<ForwardEvent<R>>)
    requires
        forward_heeded(events),
    ensures
        forwarded(events) == finished(events),
        places_differ(finished(events)) ==> places_differ(forwarded(events)),
    decreases events.len(),
{
    if events.len() > 0 {
        law_completions_forwarded(events.drop_last());
    }
}

/// Passing on does not stop early: it is over only when no task is left, or when
/// the receiver was gone at the last delivery.
pub proof fn law_forwarding_ends<R>(events: Seq<ForwardEvent<R>>)
    requires
        events.len() > 0,
        forward_heeded(events),
        forward_after(events) is Ended,
    ensures
        events.last() is Exhausted || events.last() == (ForwardEvent::<R>::Sent {
            delivered: false,
        }),
{
}

/// What each event leads to: a task that finishes is passed on as it is, and is
/// followed by the next when it was delivered. It is over when it could not be
/// delivered, or when no task is left.
pub proof fn law_forward_outcomes<R>(index: usize, result: R, delivered: bool)
    ensures
        ForwardStage::Waiting.step((ForwardEvent::Finished { index, result })) == (
            ForwardStage::Sending,
            ForwardAction::Send { index, result },
        ),
        ForwardStage::Waiting.step(ForwardEvent::<R>::Exhausted) == (
            ForwardStage::Ended,
            ForwardAction::<R>::End,
        ),
        delivered ==> ForwardStage::Sending.step((ForwardEvent::<R>::Sent { delivered })) == (
            ForwardStage::Waiting,
            ForwardAction::<R>::Next,
        ),
        !delivered ==> ForwardStage::Sending.step((ForwardEvent::<R>::Sent { delivered })) == (
            ForwardStage::Ended,
            ForwardAction::<R>::End,
        ),
{
}

/// What does not belong to its stage is ignored, and when it is over it stays
/// so.
pub proof fn law_forward_ignores<R>(stage: ForwardStage, event: ForwardEvent<R>)
    requires
        !(stage is Waiting && (event is Finished || event is Exhausted) || stage is Sending
            && event is Sent),
    ensures
        stage.step(event) == (stage, ForwardAction::<R>::Ignore),
{
}

} // verus!
