//! The pattern broker: a closeable queue of search texts that hands a
//! receiver only the latest of a burst.

use crossbeam::sync::MsQueue;
use vstd::prelude::*;

verus! {

/// `crossbeam::sync::MsQueue`, a queue for many producers and consumers,
/// as an opaque type.
#[verifier::external_type_specification]
#[verifier::external_body]
#[verifier::reject_recursive_types(T)]
pub struct ExMsQueue<T>(MsQueue<T>);

/// The texts that wait in a queue, oldest first.
pub uninterp spec fn queued_events(queue: MsQueue<String>) -> Seq<Seq<char>>;

/// Calls `MsQueue::new`, which makes an empty queue.
#[verifier::external_body]
fn ms_queue_new() -> (queue: MsQueue<String>)
    ensures
        queued_events(queue) == Seq::<Seq<char>>::empty(),
{
    MsQueue::new()
}

/// Calls `MsQueue::push`, which adds the text at the back of the queue. No
/// thread ever blocks in the queue's own `pop`, which this module does not
/// call, so the text is queued and not handed over.
#[verifier::external_body]
fn ms_queue_push(queue: &mut MsQueue<String>, event: String)
    ensures
        queued_events(*final(queue)) == queued_events(*old(queue)).push(event@),
{
    queue.push(event)
}

/// Calls `MsQueue::try_pop`, which takes the text at the front of the queue,
/// or returns `None` when it finds the queue empty. The queue is held by
/// `&mut` here, so nobody else fills or empties it meanwhile.
#[verifier::external_body]
fn ms_queue_try_pop(queue: &mut MsQueue<String>) -> (popped: Option<String>)
    ensures
        match popped {
            Some(event) => {
                &&& queued_events(*old(queue)).len() > 0
                &&& event@ == queued_events(*old(queue)).first()
                &&& queued_events(*final(queue)) == queued_events(*old(queue)).drop_first()
            },
            None => {
                &&& queued_events(*old(queue)).len() == 0
                &&& queued_events(*final(queue)) == queued_events(*old(queue))
            },
        },
{
    queue.try_pop()
}

/// Calls `MsQueue::is_empty`, which tells whether a text waits in the queue.
#[verifier::external_body]
fn ms_queue_is_empty(queue: &MsQueue<String>) -> (empty: bool)
    ensures
        empty == (queued_events(*queue).len() == 0),
{
    queue.is_empty()
}

/// The model of a broker: the texts that were sent and not yet received,
/// oldest first, and whether the broker is still open.
pub struct BrokerView {
    pub queue: Seq<Seq<char>>,
    pub receiving: bool,
}

/// The answer of a broker that was closed.
#[derive(Debug, Clone, Copy, PartialEq, Eq)]
pub struct BrokerClosed;

impl BrokerClosed {
    /// The answer in words.
    pub fn as_str(&self) -> (text: &'static str)
        ensures
            text@ == "no longer receiving events"@,
    {
        "no longer receiving events"
    }
}

/// The broker after `event` was sent.
pub open spec fn after_send(broker: BrokerView, event: Seq<char>) -> BrokerView {
    BrokerView { queue: broker.queue.push(event), receiving: broker.receiving }
}

/// The broker after each text of `events` was sent, in order.
pub open spec fn after_sends(broker: BrokerView, events: Seq<Seq<char>>) -> BrokerView
    decreases events.len(),
{
    if events.len() == 0 {
        broker
    } else {
        after_send(after_sends(broker, events.drop_last()), events.last())
    }
}

/// The broker after it was closed.
pub open spec fn after_close(broker: BrokerView) -> BrokerView {
    BrokerView { queue: broker.queue, receiving: false }
}

/// What draining the queue hands out: the latest text, if any waits.
pub open spec fn latest(broker: BrokerView) -> Option<Seq<char>> {
    if broker.queue.len() == 0 {
        None
    } else {
        Some(broker.queue.last())
    }
}

/// The broker after its queue was drained.
pub open spec fn after_try_recv(broker: BrokerView) -> BrokerView {
    BrokerView { queue: Seq::empty(), receiving: broker.receiving }
}

/// What a receiver is told: that the broker is closed; else the latest text;
/// else, with `None`, that it has to wait.
pub open spec fn recv_answer(broker: BrokerView) -> Result<Option<Seq<char>>, BrokerClosed> {
    if !broker.receiving {
        Err(BrokerClosed)
    } else {
        Ok(latest(broker))
    }
}

/// The broker after a receiver was answered: a closed broker is left as it
/// is, an open one is drained.
pub open spec fn after_recv(broker: BrokerView) -> BrokerView {
    if !broker.receiving {
        broker
    } else {
        after_try_recv(broker)
    }
}

/// The channel from those who type search texts to the one who filters.
pub struct FilterEventBroker {
    events: MsQueue<String>,
    receiving_events: bool,
}

impl View for FilterEventBroker {
    type V = BrokerView;

    closed spec fn view(&self) -> BrokerView {
        BrokerView { queue: queued_events(self.events), receiving: self.receiving_events }
    }
}

impl FilterEventBroker {
    /// An open broker in which nothing waits.
    pub fn new() -> (broker: FilterEventBroker)
        ensures
            broker@ == (BrokerView { queue: Seq::empty(), receiving: true }),
    {
        FilterEventBroker { events: ms_queue_new(), receiving_events: true }
    }

    /// Queues a search text. This never fails; what is sent to a closed
    /// broker is queued too, and never received.
    pub fn send(&mut self, filter_event: String)
        ensures
            final(self)@ == after_send(old(self)@, filter_event@),
    {
        ms_queue_push(&mut self.events, filter_event);
    }

    /// Closes the broker for good. Closing a closed broker changes nothing.
    pub fn close(&mut self)
        ensures
            final(self)@ == after_close(old(self)@),
    {
        self.receiving_events = false;
    }

    /// Drains the queue and returns the latest text, or `None` when nothing
    /// waited. The older texts of a burst are dropped.
    pub fn try_recv(&mut self) -> (return_value: Option<String>)
        ensures
            final(self)@ == after_try_recv(old(self)@),
            match return_value {
                Some(event) => latest(old(self)@) == Some(event@),
                None => latest(old(self)@) is None,
            },
    {
        let ghost waiting = self@.queue;
        let ghost mut taken: int = 0;
        let mut return_value: Option<String> = None;
        let mut done = false;
        while !done
            invariant
                0 <= taken <= waiting.len(),
                self.receiving_events == old(self).receiving_events,
                queued_events(self.events) == waiting.skip(taken),
                done ==> taken == waiting.len(),
                match return_value {
                    Some(event) => taken > 0 && event@ == waiting[taken - 1],
                    None => taken == 0,
                },
            decreases waiting.len() - taken + if done { 0int } else { 1int },
        {
            match ms_queue_try_pop(&mut self.events) {
                Some(event) => {
                    proof {
                        taken = taken + 1;
                    }
                    return_value = Some(event);
                },
                None => {
                    done = true;
                },
            }
        }
        assert(queued_events(self.events) =~= Seq::<Seq<char>>::empty());
        return_value
    }

    /// One step of a receive. A closed broker answers `Err`, whatever waits
    /// in it. An open one is drained: it answers with the latest text, or
    /// with `None` when nothing waited; the receiver then has to wait until
    /// it is woken by a `send` or a `close`, and ask again.
    pub fn recv(&mut self) -> (answer: Result<Option<String>, BrokerClosed>)
        ensures
            final(self)@ == after_recv(old(self)@),
            match answer {
                Ok(Some(event)) => recv_answer(old(self)@) == Ok::<
                    Option<Seq<char>>,
                    BrokerClosed,
                >(Some(event@)),
                Ok(None) => recv_answer(old(self)@) == Ok::<Option<Seq<char>>, BrokerClosed>(None),
                Err(_) => recv_answer(old(self)@) is Err,
            },
    {
        if !self.receiving_events {
            return Err(BrokerClosed);
        }
        Ok(self.try_recv())
    }

    /// Whether a text was sent and not yet received.
    pub fn has_pending_events(&self) -> (pending: bool)
        ensures
            pending == (self@.queue.len() > 0),
    {
        !ms_queue_is_empty(&self.events)
    }

    /// Whether the broker is still open.
    pub fn is_receiving(&self) -> (receiving: bool)
        ensures
            receiving == self@.receiving,
    {
        self.receiving_events
    }
}

/// Sending a burst queues its texts behind those that waited.
pub proof fn lemma_after_sends(broker: BrokerView, events: Seq<Seq<char>>)
    ensures
        after_sends(broker, events).queue == broker.queue + events,
        after_sends(broker, events).receiving == broker.receiving,
    decreases events.len(),
{
    if events.len() > 0 {
        lemma_after_sends(broker, events.drop_last());
    }
}

/// A burst is coalesced. When a receiver waits on an open broker in which
/// nothing waits, and a burst of one or more texts is sent, the receiver is
/// answered with the last text of the burst, and nothing is left for a second
/// answer: whoever asks next has to wait.
pub proof fn lemma_burst_is_coalesced(broker: BrokerView, burst: Seq<Seq<char>>)
    requires
        broker.receiving,
        broker.queue.len() == 0,
        burst.len() > 0,
    ensures
        recv_answer(broker) == Ok::<Option<Seq<char>>, BrokerClosed>(None),
        recv_answer(after_sends(broker, burst)) == Ok::<Option<Seq<char>>, BrokerClosed>(
            Some(burst.last()),
        ),
        recv_answer(after_recv(after_sends(broker, burst))) == Ok::<
            Option<Seq<char>>,
            BrokerClosed,
        >(None),
{
    lemma_after_sends(broker, burst);
}

/// Once closed, a broker answers every receiver with `Err`, whatever is sent
/// afterwards.
pub proof fn lemma_closed_stays_closed(broker: BrokerView, later: Seq<Seq<char>>)
    ensures
        recv_answer(after_sends(after_close(broker), later)) is Err,
        recv_answer(after_recv(after_sends(after_close(broker), later))) is Err,
{
    lemma_after_sends(after_close(broker), later);
}

} // verus!
