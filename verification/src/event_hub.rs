//! The event queue: producers append normalized events, the loop takes them from the
//! head in the order in which they arrived.

use crate::event::Event;
use std::collections::VecDeque;
use vstd::prelude::*;

verus! {

/// What a drain of `queue` hands out under the user payload type `T`: every queued event
/// in queue order.
pub open spec fn retagged_all<T>(queue: Seq<Event<()>>) -> Seq<Event<T>> {
    Seq::new(queue.len(), |i: int| queue[i].retagged::<T>())
}

/// Whether no event of `queue` is a user event. User events travel through the channel;
/// one that sits in the queue has no counterpart under another payload type and cannot
/// be drained.
pub open spec fn no_user_events(queue: Seq<Event<()>>) -> bool {
    forall|i: int| 0 <= i < queue.len() ==> !((#[trigger] queue[i]) is UserEvent)
}

/// An ordered store of events with any number of producers and a single consumer.
#[derive(Debug, Clone)]
pub struct EventHub {
    queue: VecDeque<Event<()>>,
}

impl View for EventHub {
    type V = Seq<Event<()>>;

    /// The queued events, oldest first.
    closed spec fn view(&self) -> Seq<Event<()>> {
        self.queue@
    }
}

impl EventHub {
    /// An empty queue.
    pub fn new() -> (hub: EventHub)
        ensures
            hub@ == Seq::<Event<()>>::empty(),
    {
        EventHub { queue: VecDeque::new() }
    }

    /// Appends `event` to the tail of the queue.
    pub fn send_event(&mut self, event: Event<()>)
        ensures
            final(self)@ == old(self)@.push(event),
    {
        self.queue.push_back(event);
    }

    /// The number of queued events.
    pub fn len(&self) -> (n: usize)
        ensures
            n == self@.len(),
    {
        self.queue.len()
    }

    /// Whether no event is queued.
    pub fn is_empty(&self) -> (b: bool)
        ensures
            b == (self@.len() == 0),
    {
        self.queue.len() == 0
    }

    /// Whether the oldest queued event is a user event.
    pub fn front_is_user_event(&self) -> (b: bool)
        ensures
            b == (self@.len() > 0 && self@[0] is UserEvent),
    {
        if self.queue.len() == 0 {
            false
        } else {
            match &self.queue[0] {
                Event::UserEvent(_) => true,
                _ => false,
            }
        }
    }

    /// Whether a user event is queued.
    pub fn holds_user_event(&self) -> (b: bool)
        ensures
            b == !no_user_events(self@),
    {
        let mut i: usize = 0;
        while i < self.queue.len()
            invariant
                i <= self@.len(),
                no_user_events(self@.take(i as int)),
            decreases self@.len() - i,
        {
            match &self.queue[i] {
                Event::UserEvent(_) => {
                    assert(self@[i as int] is UserEvent);
                    return true;
                },
                _ => {},
            }
            assert forall|k: int| 0 <= k < i + 1 implies !((#[trigger] self@.take(i + 1)[k])
                is UserEvent) by {
                if k < i {
                    assert(self@.take(i + 1)[k] == self@.take(i as int)[k]);
                }
            }
            i += 1;
        }
        assert(self@.take(i as int) =~= self@);
        false
    }

    /// Takes the oldest event off the queue, if there is one.
    pub fn pop_event(&mut self) -> (head: Option<Event<()>>)
        ensures
            old(self)@.len() == 0 ==> head is None && final(self)@ == old(self)@,
            old(self)@.len() > 0 ==> head == Some(old(self)@[0]),
            old(self)@.len() > 0 ==> final(self)@ == old(self)@.subrange(1, old(self)@.len() as int),
    {
        self.queue.pop_front()
    }

    /// Drains the queue to exhaustion and hands out its events, oldest first, under the
    /// user payload type `T`. A queue that holds a user event cannot be drained;
    /// `holds_user_event` tells beforehand.
    pub fn poll_events<T>(&mut self) -> (events: Vec<Event<T>>)
        requires
            no_user_events(old(self)@),
        ensures
            final(self)@ == Seq::<Event<()>>::empty(),
            events@ == retagged_all::<T>(old(self)@),
    {
        let mut events: Vec<Event<T>> = Vec::new();
        let ghost queued = self@;
        loop
            invariant
                no_user_events(queued),
                events@.len() + self@.len() == queued.len(),
                self@ == queued.subrange(events@.len() as int, queued.len() as int),
                forall|i: int|
                    0 <= i < events@.len() ==> events@[i] == (#[trigger] queued[i]).retagged::<
                        T,
                    >(),
            ensures
                self@.len() == 0,
                events@.len() == queued.len(),
                forall|i: int|
                    0 <= i < events@.len() ==> events@[i] == (#[trigger] queued[i]).retagged::<
                        T,
                    >(),
            decreases self@.len(),
        {
            match self.pop_event() {
                Some(event) => {
                    assert(event == queued[events@.len() as int]);
                    events.push(event.map_nonuser_event::<T>().unwrap());
                },
                None => {
                    break ;
                },
            }
        }
        assert(events@ =~= retagged_all::<T>(queued));
        assert(self@ =~= Seq::<Event<()>>::empty());
        events
    }
}

/// One use of a queue: a producer sends an event, or the consumer takes the oldest.
pub enum QueueOp {
    Send(Event<()>),
    Pop,
}

/// The events that `ops` send, in the order of `ops`.
pub open spec fn sent_by(ops: Seq<QueueOp>) -> Seq<Event<()>>
    decreases ops.len(),
{
    if ops.len() == 0 {
        Seq::empty()
    } else {
        match ops[0] {
            QueueOp::Send(event) => seq![event] + sent_by(ops.drop_first()),
            QueueOp::Pop => sent_by(ops.drop_first()),
        }
    }
}

/// The queue that `ops` leave of `queue`. Taking from an empty queue leaves it empty.
pub open spec fn queue_after(queue: Seq<Event<()>>, ops: Seq<QueueOp>) -> Seq<Event<()>>
    decreases ops.len(),
{
    if ops.len() == 0 {
        queue
    } else {
        match ops[0] {
            QueueOp::Send(event) => queue_after(queue.push(event), ops.drop_first()),
            QueueOp::Pop => if queue.len() > 0 {
                queue_after(queue.drop_first(), ops.drop_first())
            } else {
                queue_after(queue, ops.drop_first())
            },
        }
    }
}

/// The events that `ops` take from `queue`, in the order in which they are taken.
pub open spec fn taken_by(queue: Seq<Event<()>>, ops: Seq<QueueOp>) -> Seq<Event<()>>
    decreases ops.len(),
{
    if ops.len() == 0 {
        Seq::empty()
    } else {
        match ops[0] {
            QueueOp::Send(event) => taken_by(queue.push(event), ops.drop_first()),
            QueueOp::Pop => if queue.len() > 0 {
                seq![queue[0]] + taken_by(queue.drop_first(), ops.drop_first())
            } else {
                taken_by(queue, ops.drop_first())
            },
        }
    }
}

/// The queue is first in, first out: however sends and takes alternate, the events taken,
/// followed by the events still queued, are the events that were in the queue followed by
/// the events sent, in the order in which they were sent.
pub proof fn lemma_drain_order_is_send_order(queue: Seq<Event<()>>, ops: Seq<QueueOp>)
    ensures
        taken_by(queue, ops) + queue_after(queue, ops) == queue + sent_by(ops),
    decreases ops.len(),
{
    if ops.len() == 0 {
        assert(taken_by(queue, ops) + queue_after(queue, ops) =~= queue + sent_by(ops));
    } else {
        let rest = ops.drop_first();
        match ops[0] {
            QueueOp::Send(event) => {
                lemma_drain_order_is_send_order(queue.push(event), rest);
                assert(queue.push(event) + sent_by(rest) =~= queue + sent_by(ops));
            },
            QueueOp::Pop => {
                if queue.len() > 0 {
                    lemma_drain_order_is_send_order(queue.drop_first(), rest);
                    assert(seq![queue[0]] + (queue.drop_first() + sent_by(rest)) =~= queue
                        + sent_by(ops));
                    assert(taken_by(queue, ops) + queue_after(queue, ops) =~= seq![queue[0]] + (
                    taken_by(queue.drop_first(), rest) + queue_after(queue.drop_first(), rest)));
                } else {
                    lemma_drain_order_is_send_order(queue, rest);
                }
            },
        }
    }
}

/// The uses of a queue that send `events`, one after the other, and take nothing.
pub open spec fn sends_of(events: Seq<Event<()>>) -> Seq<QueueOp> {
    events.map_values(|event: Event<()>| QueueOp::Send(event))
}

/// Drain order is send order: an empty queue that is sent `events` holds exactly
/// `events`, in their order, so that a drain hands them out in the order in which they
/// were sent.
pub proof fn lemma_drain_returns_what_was_sent<T>(events: Seq<Event<()>>)
    ensures
        queue_after(Seq::empty(), sends_of(events)) == events,
        retagged_all::<T>(queue_after(Seq::empty(), sends_of(events))) == retagged_all::<T>(
            events,
        ),
{
    lemma_sends_only(Seq::empty(), events);
    assert(Seq::<Event<()>>::empty() + events =~= events);
}

proof fn lemma_sends_only(queue: Seq<Event<()>>, events: Seq<Event<()>>)
    ensures
        queue_after(queue, sends_of(events)) == queue + events,
    decreases events.len(),
{
    if events.len() == 0 {
        assert(queue + events =~= queue);
    } else {
        let rest = events.drop_first();
        assert(sends_of(events).drop_first() =~= sends_of(rest));
        lemma_sends_only(queue.push(events[0]), rest);
        assert(queue.push(events[0]) + rest =~= queue + events);
    }
}

} // verus!
