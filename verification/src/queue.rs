//! The ordered hand-off point between network callbacks and the game
//! loop.
//!
//! Producers append at the tail, the single consumer removes from the
//! head; the queue is unbounded and never reorders. The loop that owns
//! the consumer side keeps the queue behind one guard; the critical
//! sections here are a single append or pop.

use vstd::prelude::*;

use crate::events::InboundEvent;

verus! {

/// An unbounded FIFO of inbound events.
pub struct EventQueue {
    items: Vec<InboundEvent>,
}

impl View for EventQueue {
    type V = Seq<InboundEvent>;

    closed spec fn view(&self) -> Seq<InboundEvent> {
        self.items@
    }
}

impl EventQueue {
    pub fn new() -> (r: EventQueue)
        ensures
            r@ == Seq::<InboundEvent>::empty(),
    {
        EventQueue { items: Vec::new() }
    }

    /// Appends one event at the tail.
    pub fn enqueue(&mut self, event: InboundEvent)
        ensures
            final(self)@ == old(self)@.push(event),
    {
        self.items.push(event);
    }

    /// Removes and returns the head event, oldest first.
    pub fn drain_one(&mut self) -> (r: Option<InboundEvent>)
        ensures
            old(self)@.len() == 0 ==> r is None && final(self)@ == old(self)@,
            old(self)@.len() > 0 ==> {
                &&& r == Some(old(self)@[0])
                &&& final(self)@ == old(self)@.drop_first()
            },
    {
        if self.items.len() == 0 {
            None
        } else {
            let e = self.items.remove(0);
            proof {
                assert(final(self)@ =~= old(self)@.drop_first());
            }
            Some(e)
        }
    }

    /// Removes and returns every queued event, in queue order.
    pub fn drain_all(&mut self) -> (r: Vec<InboundEvent>)
        ensures
            r@ == old(self)@,
            final(self)@ == Seq::<InboundEvent>::empty(),
    {
        let mut out: Vec<InboundEvent> = Vec::new();
        core::mem::swap(&mut out, &mut self.items);
        out
    }

    pub fn len(&self) -> (r: usize)
        ensures
            r == self@.len(),
    {
        self.items.len()
    }
}

/// Selects the arrivals tagged with producer `p`.
pub open spec fn from_producer(p: nat) -> spec_fn((nat, InboundEvent)) -> bool {
    |a: (nat, InboundEvent)| a.0 == p
}

/// Strips the producer tag off an arrival.
pub open spec fn arrival_event() -> spec_fn((nat, InboundEvent)) -> InboundEvent {
    |a: (nat, InboundEvent)| a.1
}

/// The events of producer `p` among tagged arrivals, in arrival order.
pub open spec fn producer_events(arrivals: Seq<(nat, InboundEvent)>, p: nat) -> Seq<InboundEvent> {
    arrivals.filter(from_producer(p)).map_values(arrival_event())
}

/// The queue positions (strictly increasing) at which producer `p`'s
/// events sit when the arrivals are enqueued in arrival order.
pub open spec fn producer_slots(arrivals: Seq<(nat, InboundEvent)>, p: nat) -> Seq<int>
    decreases arrivals.len(),
{
    if arrivals.len() == 0 {
        Seq::empty()
    } else {
        let prefix = producer_slots(arrivals.drop_last(), p);
        if from_producer(p)(arrivals.last()) {
            prefix.push(arrivals.len() - 1)
        } else {
            prefix
        }
    }
}

/// Per-producer FIFO: however enqueues from many producers interleave,
/// the drained sequence — which equals the arrival sequence, by the
/// queue's own contracts — holds each producer's events at strictly
/// increasing positions, in exactly that producer's own enqueue order.
/// No cross-producer order is claimed.
pub proof fn lemma_per_producer_fifo(arrivals: Seq<(nat, InboundEvent)>, p: nat)
    ensures
        producer_slots(arrivals, p).len() == producer_events(arrivals, p).len(),
        forall|k: int| 0 <= k < producer_slots(arrivals, p).len() ==> 0 <= #[trigger] producer_slots(
            arrivals,
            p,
        )[k] < arrivals.len(),
        forall|k1: int, k2: int|
            0 <= k1 < k2 < producer_slots(arrivals, p).len() ==> #[trigger] producer_slots(
                arrivals,
                p,
            )[k1] < #[trigger] producer_slots(arrivals, p)[k2],
        forall|k: int| 0 <= k < producer_slots(arrivals, p).len() ==> arrivals.map_values(
            arrival_event(),
        )[#[trigger] producer_slots(arrivals, p)[k]] == producer_events(arrivals, p)[k],
    decreases arrivals.len(),
{
    reveal(Seq::filter);
    if arrivals.len() == 0 {
    } else {
        let prefix = arrivals.drop_last();
        lemma_per_producer_fifo(prefix, p);
        assert forall|k: int| 0 <= k < producer_slots(prefix, p).len() implies arrivals.map_values(
            arrival_event(),
        )[#[trigger] producer_slots(prefix, p)[k]] == producer_events(prefix, p)[k] by {
            assert(arrivals.map_values(arrival_event())[producer_slots(prefix, p)[k]]
                == prefix.map_values(arrival_event())[producer_slots(prefix, p)[k]]);
        }
        if from_producer(p)(arrivals.last()) {
            assert(arrivals.filter(from_producer(p)) == prefix.filter(from_producer(p)).push(
                arrivals.last(),
            ));
            assert(producer_events(arrivals, p) =~= producer_events(prefix, p).push(
                arrival_event()(arrivals.last()),
            ));
        } else {
            assert(arrivals.filter(from_producer(p)) == prefix.filter(from_producer(p)));
            assert(producer_events(arrivals, p) =~= producer_events(prefix, p));
        }
    }
}

} // verus!
