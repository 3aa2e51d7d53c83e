//! The inbound event mailbox: an unbounded FIFO between the producers that
//! deliver events and the single consumer that drains them on each poll.
use vstd::prelude::*;
use crate::event::InboundEvent;

verus! {

/// The queue after each of `events` has been pushed, in order, onto `q`.
pub open spec fn push_all(q: Seq<InboundEvent>, events: Seq<InboundEvent>) -> Seq<InboundEvent>
    decreases events.len(),
{
    if events.len() == 0 {
        q
    } else {
        push_all(q, events.drop_last()).push(events.last())
    }
}

/// What a drain of the queue `q` hands out, and the queue it leaves.
pub open spec fn drain_spec(q: Seq<InboundEvent>) -> (Seq<InboundEvent>, Seq<InboundEvent>) {
    (q, Seq::empty())
}

/// Ordered queue of events that have arrived and not yet been consumed.
pub struct EventMailbox {
    pending: Vec<InboundEvent>,
}

impl View for EventMailbox {
    type V = Seq<InboundEvent>;

    closed spec fn view(&self) -> Seq<InboundEvent> {
        self.pending@
    }
}

impl EventMailbox {
    /// An empty mailbox.
    pub fn new() -> (r: EventMailbox)
        ensures
            r@ == Seq::<InboundEvent>::empty(),
    {
        EventMailbox { pending: Vec::new() }
    }

    /// Appends an event behind every event already queued.
    pub fn push(&mut self, event: InboundEvent)
        ensures
            final(self)@ == old(self)@.push(event),
    {
        self.pending.push(event);
    }

    /// Number of queued events.
    pub fn len(&self) -> (r: usize)
        ensures
            r == self@.len(),
    {
        self.pending.len()
    }

    /// Takes every queued event, oldest first, and leaves the mailbox empty.
    pub fn drain_all(&mut self) -> (r: Vec<InboundEvent>)
        ensures
            (r@, final(self)@) == drain_spec(old(self)@),
    {
        let mut taken: Vec<InboundEvent> = Vec::new();
        std::mem::swap(&mut taken, &mut self.pending);
        taken
    }
}

/// Pushing events one after another and then draining hands out exactly the
/// pushed events, in the order in which they were pushed: as many as were
/// pushed, none lost, none repeated, and each producer's own order kept.
pub proof fn lemma_drain_returns_pushes(events: Seq<InboundEvent>)
    ensures
        drain_spec(push_all(Seq::empty(), events)).0 == events,
        drain_spec(push_all(Seq::empty(), events)).0.len() == events.len(),
        forall|from_producer: spec_fn(InboundEvent) -> bool|
            #[trigger] drain_spec(push_all(Seq::empty(), events)).0.filter(from_producer) == events.filter(
                from_producer,
            ),
    decreases events.len(),
{
    if events.len() > 0 {
        lemma_drain_returns_pushes(events.drop_last());
        assert(events.drop_last().push(events.last()) =~= events);
    } else {
        assert(events =~= Seq::<InboundEvent>::empty());
    }
}

/// Draining twice with no push in between: the first drain hands out the
/// whole queue and the second hands out nothing.
pub proof fn lemma_second_drain_is_empty(q: Seq<InboundEvent>)
    ensures
        drain_spec(q).0 == q,
        drain_spec(drain_spec(q).1).0 == Seq::<InboundEvent>::empty(),
{
}

} // verus!
