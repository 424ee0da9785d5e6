//! Streams of items and of completions.

use crate::cancel::token_told;
use crate::cancel::Cancel;
use crate::gate::MAX_PERMITS;
use crate::outcome::cancelled_error;
use crate::outcome::TaskError;
use tokio::sync::mpsc;
use tokio::sync::mpsc::Receiver;
use tokio::sync::mpsc::Sender;
use vstd::prelude::*;

verus! {

/// The sending end of a bounded channel of `tokio`.
#[verifier::external_type_specification]
#[verifier::external_body]
#[verifier::reject_recursive_types(T)]
pub struct ExSender<T>(Sender<T>);

/// The receiving end of a bounded channel of `tokio`.
#[verifier::external_type_specification]
#[verifier::external_body]
#[verifier::reject_recursive_types(T)]
pub struct ExReceiver<T>(Receiver<T>);

/// `mpsc::channel` makes a channel that holds up to `buffer` items, and panics
/// on a buffer of zero or on one larger than a semaphore can count.
/// `Sender::max_capacity` reads off how many items the channel was made to
/// hold, which is `buffer`. Items come and go behind shared references, so
/// nothing is claimed of the two ends.
#[verifier::external_body]
fn bounded_channel<T>(buffer: usize) -> (res: (Sender<T>, Receiver<T>, usize))
    requires
        0 < buffer <= MAX_PERMITS,
    ensures
        res.2 == buffer,
{
    let (tx, rx) = mpsc::channel(buffer);
    let capacity = tx.max_capacity();
    (tx, rx, capacity)
}

/// `Sender::is_closed` tells whether the channel is closed at the moment of the
/// call, because its receiver is gone. Nothing is claimed of the answer.
pub assume_specification<T>[ Sender::<T>::is_closed ](sender: &Sender<T>) -> bool;

/// The sender gives this answer to the question whether its channel is closed,
/// at some moment at which it is asked.
pub open spec fn sender_answers<T>(sender: Sender<T>, closed: bool) -> bool {
    call_ensures(Sender::<T>::is_closed, (&sender,), closed)
}

/// A bounded channel.
#[verifier::reject_recursive_types(T)]
pub struct Channel<T> {
    capacity: usize,
    pub tx: Sender<T>,
    pub rx: Receiver<T>,
}

impl<T> Channel<T> {
    /// How many items the channel holds.
    pub closed spec fn capacity(&self) -> usize {
        self.capacity
    }

    /// The two ends are those of a channel that was made to hold `n` items.
    pub closed spec fn made_for(&self, n: usize) -> bool {
        call_ensures(bounded_channel::<T>, (n,), (self.tx, self.rx, n))
    }

    fn new(capacity: usize) -> (channel: Channel<T>)
        requires
            0 < capacity <= MAX_PERMITS,
        ensures
            channel.capacity() == capacity,
            channel.made_for(capacity),
    {
        let (tx, rx, capacity) = bounded_channel(capacity);
        Channel { capacity, tx, rx }
    }
}

/// The number itself, or one instead of zero.
pub open spec fn at_least_one(n: usize) -> usize {
    if n == 0 {
        1
    } else {
        n
    }
}

/// A channel for streamed items; it holds at least one.
pub fn item_channel<T>(buffer: usize) -> (channel: Channel<T>)
    requires
        buffer <= MAX_PERMITS,
    ensures
        channel.capacity() == at_least_one(buffer),
        channel.made_for(at_least_one(buffer)),
{
    Channel::new(if buffer == 0 { 1 } else { buffer })
}

/// A channel for the completions of `n` tasks; it holds at least one.
pub fn completion_channel<T>(n: usize) -> (channel: Channel<T>)
    requires
        n <= MAX_PERMITS,
    ensures
        channel.capacity() == at_least_one(n),
        channel.made_for(at_least_one(n)),
{
    Channel::new(if n == 0 { 1 } else { n })
}

/// One finished task of several, in the order in which they finish.
pub struct Completion<V> {
    /// The place of the task among those submitted.
    pub index: usize,
    /// It ended with a value, and not with an exception.
    pub ok: bool,
    /// The value, or the exception.
    pub value: V,
}

impl<V> Completion<V> {
    pub fn new(index: usize, result: Result<V, V>) -> (completion: Self)
        ensures
            completion.index == index,
            completion.ok == (result is Ok),
            completion.value == (match result {
                Ok(value) => value,
                Err(error) => error,
            }),
    {
        match result {
            Ok(value) => Completion { index, ok: true, value },
            Err(value) => Completion { index, ok: false, value },
        }
    }
}

/// The receiving end of a stream, until the stream has ended.
#[verifier::reject_recursive_types(T)]
pub struct SharedRx<T> {
    pub rx: Option<Receiver<T>>,
}

pub fn share_rx<T>(rx: Receiver<T>) -> (shared: SharedRx<T>)
    ensures
        shared.rx == Some(rx),
{
    SharedRx { rx: Some(rx) }
}

impl<T> SharedRx<T> {
    /// Goes on after an item was received, or after none was because the
    /// sender is gone. Hands on the item; `None` ends the stream for good.
    pub fn poll_rx(&mut self, received: Option<T>) -> (item: Option<T>)
        ensures
            old(self).rx is None ==> item is None && final(self).rx is None,
            old(self).rx is Some ==> item == received,
            old(self).rx is Some && received is Some ==> final(self).rx == old(self).rx,
            old(self).rx is Some && received is None ==> final(self).rx is None,
    {
        if self.rx.is_none() {
            return None;
        }
        match received {
            Some(item) => Some(item),
            None => {
                self.rx = None;
                None
            },
        }
    }
}

/// The completions of several tasks.
#[verifier::reject_recursive_types(T)]
pub struct CompletionStream<T> {
    pub rx: SharedRx<T>,
}

impl<T> CompletionStream<T> {
    pub fn new(rx: Receiver<T>) -> (stream: Self)
        ensures
            stream.rx.rx == Some(rx),
    {
        CompletionStream { rx: share_rx(rx) }
    }
}

/// The items of a generator, whose work can be cancelled from here.
#[verifier::reject_recursive_types(T)]
pub struct ItemStream<T> {
    pub rx: SharedRx<T>,
    pub cancel: Cancel,
}

impl<T> ItemStream<T> {
    pub fn new(rx: Receiver<T>, cancel: Cancel) -> (stream: Self)
        ensures
            stream.rx.rx == Some(rx),
            stream.cancel == cancel,
    {
        ItemStream { rx: share_rx(rx), cancel }
    }

    /// Cancels the generator's work.
    pub fn cancel(&mut self)
        ensures
            final(self).cancel.fired(),
            final(self).cancel.carrier() == old(self).cancel.carrier(),
            token_told(old(self).cancel.carrier()),
            final(self).rx == old(self).rx,
    {
        self.cancel.cancel();
    }
}

/// Where a stream's work stands.
#[derive(Clone, Copy, Debug, PartialEq, Eq, Structural)]
pub enum StreamStage {
    /// The next item is due.
    Due,
    /// The generator was asked for an item.
    Pulling,
    /// An item is being sent; `last` says that it is an exception, and the
    /// last.
    Sending { last: bool },
    /// It is over.
    Ended,
}

/// What happens to a stream's work.
pub enum StreamEvent<I, E> {
    /// Its turn has come; whether it was cancelled by then, and whether nobody
    /// receives its items any more.
    Turn { cancelled: bool, closed: bool },
    /// The generator gave an item, or raised an exception.
    Pulled(Result<I, TaskError<E>>),
    /// Sending is over; whether the receiver was there to take it.
    Sent { delivered: bool },
}

/// What is to be done about a stream's work.
pub enum StreamAction<I, E> {
    /// Nothing: this does not happen at this stage.
    Ignore,
    /// Ask the generator for an item.
    Pull,
    /// Send this to the receiver.
    Send(Result<I, TaskError<E>>),
    /// Give the work its next turn.
    Again,
    /// Return this.
    End(Result<(), TaskError<E>>),
}

impl StreamStage {
    /// What an event leads to.
    pub open spec fn step<I, E>(self, event: StreamEvent<I, E>) -> (
        StreamStage,
        StreamAction<I, E>,
    ) {
        match (self, event) {
            (StreamStage::Due, StreamEvent::Turn { cancelled, closed }) => if cancelled {
                (StreamStage::Ended, StreamAction::End(Err(TaskError::Cancelled)))
            } else if closed {
                (StreamStage::Ended, StreamAction::End(Ok(())))
            } else {
                (StreamStage::Pulling, StreamAction::Pull)
            },
            (StreamStage::Pulling, StreamEvent::Pulled(Ok(item))) => (
                StreamStage::Sending { last: false },
                StreamAction::Send(Ok(item)),
            ),
            (StreamStage::Pulling, StreamEvent::Pulled(Err(error))) => if error.kind().stop_iteration {
                (StreamStage::Ended, StreamAction::End(Ok(())))
            } else {
                (StreamStage::Sending { last: true }, StreamAction::Send(Err(error)))
            },
            (StreamStage::Sending { last }, StreamEvent::Sent { delivered }) => if last
                || !delivered {
                (StreamStage::Ended, StreamAction::End(Ok(())))
            } else {
                (StreamStage::Due, StreamAction::Again)
            },
            _ => (self, StreamAction::Ignore),
        }
    }
}

/// The work of a stream: it takes items from a generator, and sends them.
pub struct StreamRun {
    stage: StreamStage,
}

impl View for StreamRun {
    type V = StreamStage;

    closed spec fn view(&self) -> StreamStage {
        self.stage
    }
}

impl StreamRun {
    pub(crate) fn new() -> (run: StreamRun)
        ensures
            run@ == StreamStage::Due,
    {
        StreamRun { stage: StreamStage::Due }
    }

    /// Goes on after an event.
    pub fn on_event<I, E>(&mut self, event: StreamEvent<I, E>) -> (action: StreamAction<I, E>)
        ensures
            (final(self)@, action) == old(self)@.step(event),
    {
        match (self.stage, event) {
            (StreamStage::Due, StreamEvent::Turn { cancelled, closed }) => {
                if cancelled {
                    self.stage = StreamStage::Ended;
                    StreamAction::End(Err(cancelled_error()))
                } else if closed {
                    self.stage = StreamStage::Ended;
                    StreamAction::End(Ok(()))
                } else {
                    self.stage = StreamStage::Pulling;
                    StreamAction::Pull
                }
            },
            (StreamStage::Pulling, StreamEvent::Pulled(Ok(item))) => {
                self.stage = StreamStage::Sending { last: false };
                StreamAction::Send(Ok(item))
            },
            (StreamStage::Pulling, StreamEvent::Pulled(Err(error))) => {
                if error.get_kind().stop_iteration {
                    self.stage = StreamStage::Ended;
                    StreamAction::End(Ok(()))
                } else {
                    self.stage = StreamStage::Sending { last: true };
                    StreamAction::Send(Err(error))
                }
            },
            (StreamStage::Sending { last }, StreamEvent::Sent { delivered }) => {
                if last || !delivered {
                    self.stage = StreamStage::Ended;
                    StreamAction::End(Ok(()))
                } else {
                    self.stage = StreamStage::Due;
                    StreamAction::Again
                }
            },
            _ => StreamAction::Ignore,
        }
    }

    /// Gives the work its turn, with its scope and its channel as they are
    /// found.
    pub fn turn<T, I, E>(&mut self, cancel: &Cancel, tx: &Sender<T>) -> (action: StreamAction<
        I,
        E,
    >)
        ensures
            exists|cancelled: bool, closed: bool|
                #![trigger cancel.answers(cancelled), sender_answers(*tx, closed)]
                cancel.answers(cancelled) && sender_answers(*tx, closed) && (final(self)@, action)
                    == old(self)@.step((StreamEvent::<I, E>::Turn { cancelled, closed })),
    {
        let cancelled = cancel.is_cancelled();
        let closed = tx.is_closed();
        assert(cancel.answers(cancelled) && sender_answers(*tx, closed));
        self.on_event(StreamEvent::Turn { cancelled, closed })
    }
}

/// An exception of the generator, other than the end of its iteration, reaches
/// the receiver and is the last that does; the work then counts as done.
pub proof fn law_stream_failure_delivered<I, E>(error: TaskError<E>, delivered: bool)
    requires
        !error.kind().stop_iteration,
    ensures
        ({
            let (stage, action) = StreamStage::Pulling.step(StreamEvent::<I, E>::Pulled(Err(error)));
            &&& action == StreamAction::<I, E>::Send(Err(error))
            &&& stage.step((StreamEvent::<I, E>::Sent { delivered })).1 == StreamAction::<
                I,
                E,
            >::End(Ok(()))
        }),
{
}

/// Items are sent one by one as they come: what the generator gives is sent
/// before it is asked for more.
pub proof fn law_stream_sends_each_item<I, E>(item: I)
    ensures
        ({
            let (stage, action) = StreamStage::Pulling.step(StreamEvent::<I, E>::Pulled(Ok(item)));
            &&& action == StreamAction::<I, E>::Send(Ok(item))
            &&& stage.step((StreamEvent::<I, E>::Sent { delivered: true })) == (
                StreamStage::Due,
                StreamAction::<I, E>::Again,
            )
        }),
{
}

/// A stream whose receiver is gone ends, and is not asked for more items.
pub proof fn law_stream_stops_without_receiver<I, E>(last: bool)
    ensures
        StreamStage::Due.step(
            (StreamEvent::<I, E>::Turn { cancelled: false, closed: true }),
        ).1 == StreamAction::<I, E>::End(Ok(())),
        (StreamStage::Sending { last }).step((StreamEvent::<I, E>::Sent { delivered: false })).1
            == StreamAction::<I, E>::End(Ok(())),
{
}

/// Where a stream's work stands after these events.
pub open spec fn stream_after<I, E>(events: Seq<StreamEvent<I, E>>) -> StreamStage
    decreases events.len(),
{
    if events.len() == 0 {
        StreamStage::Due
    } else {
        stream_after(events.drop_last()).step(events.last()).0
    }
}

/// What the last of these events led to.
pub open spec fn stream_action<I, E>(events: Seq<StreamEvent<I, E>>) -> StreamAction<I, E>
    recommends
        events.len() > 0,
{
    stream_after(events.drop_last()).step(events.last()).1
}

/// Every one of these events is an answer to what was asked for.
pub open spec fn stream_heeded<I, E>(events: Seq<StreamEvent<I, E>>) -> bool
    decreases events.len(),
{
    events.len() > 0 ==> stream_heeded(events.drop_last()) && !(stream_action(events) is Ignore)
}

/// What the generator gave in these events, in order, without the end of its
/// iteration.
pub open spec fn pulled<I, E>(events: Seq<StreamEvent<I, E>>) -> Seq<Result<I, TaskError<E>>>
    decreases events.len(),
{
    if events.len() == 0 {
        Seq::empty()
    } else {
        let before = pulled(events.drop_last());
        match events.last() {
            StreamEvent::Pulled(Err(error)) => if error.kind().stop_iteration {
                before
            } else {
                before.push(Err(error))
            },
            StreamEvent::Pulled(result) => before.push(result),
            _ => before,
        }
    }
}

/// What is sent to the receiver because of these events, in order.
pub open spec fn sent<I, E>(events: Seq<StreamEvent<I, E>>) -> Seq<Result<I, TaskError<E>>>
    decreases events.len(),
{
    if events.len() == 0 {
        Seq::empty()
    } else {
        let before = sent(events.drop_last());
        match stream_action(events) {
            StreamAction::Send(result) => before.push(result),
            _ => before,
        }
    }
}

/// Over its whole run, a stream sends what the generator gives: all of it, in
/// order, each once, and nothing else. Only the last that it sends can be an
/// exception.
pub proof fn law_stream_sends_what_is_pulled<I, E>(events: Seq<StreamEvent<I, E>>)
    requires
        stream_heeded(events),
    ensures
        sent(events) == pulled(events),
        forall|k: int| 0 <= k < sent(events).len() - 1 ==> #[trigger] sent(events)[k] is Ok,
{
    lemma_stream_run(events);
}

/// While more may be sent, all that was sent are items.
proof fn lemma_stream_run<I, E>(events: Seq<StreamEvent<I, E>>)
    requires
        stream_heeded(events),
    ensures
        sent(events) == pulled(events),
        forall|k: int| 0 <= k < sent(events).len() - 1 ==> #[trigger] sent(events)[k] is Ok,
        stream_after(events) is Due || stream_after(events) is Pulling || stream_after(events) == (
        StreamStage::Sending { last: false }) ==> forall|k: int|
            0 <= k < sent(events).len() ==> #[trigger] sent(events)[k] is Ok,
    decreases events.len(),
{
    if events.len() > 0 {
        lemma_stream_run(events.drop_last());
    }
}

/// What each event does to a stream's work. Its turn asks for an item, unless it
/// was cancelled, which is an error and comes first, or nobody receives, which
/// ends it well. An item is sent as it is. The end of the iteration ends it
/// well, and any other exception is sent as it is and is the last. After a
/// delivery it goes on, unless that was the last, or there was nobody to take
/// it.
pub proof fn law_stream_outcomes<I, E>(
    cancelled: bool,
    closed: bool,
    item: I,
    error: TaskError<E>,
    last: bool,
    delivered: bool,
)
    ensures
        cancelled ==> StreamStage::Due.step((StreamEvent::<I, E>::Turn { cancelled, closed })) == (
            StreamStage::Ended,
            StreamAction::<I, E>::End(Err(TaskError::Cancelled)),
        ),
        !cancelled && closed ==> StreamStage::Due.step(
            (StreamEvent::<I, E>::Turn { cancelled, closed }),
        ) == (StreamStage::Ended, StreamAction::<I, E>::End(Ok(()))),
        !cancelled && !closed ==> StreamStage::Due.step(
            (StreamEvent::<I, E>::Turn { cancelled, closed }),
        ) == (StreamStage::Pulling, StreamAction::<I, E>::Pull),
        StreamStage::Pulling.step(StreamEvent::<I, E>::Pulled(Ok(item))) == (
            StreamStage::Sending { last: false },
            StreamAction::<I, E>::Send(Ok(item)),
        ),
        error.kind().stop_iteration ==> StreamStage::Pulling.step(
            StreamEvent::<I, E>::Pulled(Err(error)),
        ) == (StreamStage::Ended, StreamAction::<I, E>::End(Ok(()))),
        !error.kind().stop_iteration ==> StreamStage::Pulling.step(
            StreamEvent::<I, E>::Pulled(Err(error)),
        ) == (StreamStage::Sending { last: true }, StreamAction::<I, E>::Send(Err(error))),
        last || !delivered ==> (StreamStage::Sending { last }).step(
            (StreamEvent::<I, E>::Sent { delivered }),
        ) == (StreamStage::Ended, StreamAction::<I, E>::End(Ok(()))),
        !last && delivered ==> (StreamStage::Sending { last }).step(
            (StreamEvent::<I, E>::Sent { delivered }),
        ) == (StreamStage::Due, StreamAction::<I, E>::Again),
{
}

/// What does not belong to its stage is ignored, and a stream that is over stays
/// so.
pub proof fn law_stream_ignores<I, E>(stage: StreamStage, event: StreamEvent<I, E>)
    requires
        !(stage is Due && event is Turn || stage is Pulling && event is Pulled || stage is Sending
            && event is Sent),
    ensures
        stage.step(event) == (stage, StreamAction::<I, E>::Ignore),
{
}

/// A channel is made for as many items as are asked for, and for one where none
/// are.
pub proof fn law_channel_size(n: usize)
    ensures
        n >= 1 ==> at_least_one(n) == n,
        n == 0 ==> at_least_one(n) == 1,
{
}

/// The sender's answer is that of `Sender::is_closed`.
pub proof fn law_sender_asked<T>(sender: Sender<T>, closed: bool)
    ensures
        sender_answers(sender, closed) <==> call_ensures(
            Sender::<T>::is_closed,
            (&sender,),
            closed,
        ),
{
}

/// A channel made for `n` items has the ends that `bounded_channel` gave for
/// `n`.
proof fn lemma_ends_of_one_channel<T>(channel: Channel<T>, n: usize)
    ensures
        channel.made_for(n) <==> call_ensures(
            bounded_channel::<T>,
            (n,),
            (channel.tx, channel.rx, n),
        ),
{
}

} // verus!
