use vstd::prelude::*;

verus! {

/// The buffering that the bridge uses between the local source and the radio:
/// one event, so that the producer feels backpressure at once.
pub const EVENT_QUEUE_CAPACITY: usize = 1;

/// What a receive finds.
#[derive(Debug, Clone, PartialEq, Eq)]
pub enum Received {
    Event(Vec<u8>),
    /// Nothing buffered yet: the consumer has to wait.
    Empty,
    /// Nothing buffered and the producer is gone.
    SourceClosed,
}

/// A bounded first-in first-out hand-off of raw events from one producer to
/// one consumer.
pub struct EventQueue {
    items: Vec<Vec<u8>>,
    capacity: usize,
    closed: bool,
}

impl EventQueue {
    /// The buffered events, oldest first.
    pub closed spec fn view(&self) -> Seq<Seq<u8>> {
        self.items@.map_values(|v: Vec<u8>| v@)
    }

    pub closed spec fn spec_capacity(&self) -> nat {
        self.capacity as nat
    }

    pub closed spec fn spec_closed(&self) -> bool {
        self.closed
    }

    /// At least one slot, and never more events than slots.
    pub closed spec fn wf(&self) -> bool {
        self.capacity >= 1 && self.items@.len() <= self.capacity
    }

    /// An empty, open queue with room for `capacity` events.
    pub fn new(capacity: usize) -> (r: EventQueue)
        requires
            capacity >= 1,
        ensures
            r.wf(),
            r@ == Seq::<Seq<u8>>::empty(),
            r.spec_capacity() == capacity,
            !r.spec_closed(),
    {
        EventQueue { items: Vec::new(), capacity, closed: false }
    }

    pub fn len(&self) -> (r: usize)
        ensures
            r == self@.len(),
    {
        self.items.len()
    }

    pub fn capacity(&self) -> (r: usize)
        ensures
            r == self.spec_capacity(),
    {
        self.capacity
    }

    pub fn is_closed(&self) -> (r: bool)
        ensures
            r == self.spec_closed(),
    {
        self.closed
    }

    /// Whether a send would have to wait for the consumer.
    pub fn is_full(&self) -> (r: bool)
        requires
            self.wf(),
        ensures
            r == (self@.len() >= self.spec_capacity()),
    {
        self.items.len() >= self.capacity
    }

    /// Offers an event. Where every slot is taken the event comes back and the
    /// producer has to wait until the consumer takes one.
    pub fn try_send(&mut self, event: Vec<u8>) -> (r: Result<(), Vec<u8>>)
        requires
            old(self).wf(),
        ensures
            final(self).wf(),
            final(self).spec_capacity() == old(self).spec_capacity(),
            final(self).spec_closed() == old(self).spec_closed(),
            old(self)@.len() < old(self).spec_capacity() ==> r is Ok && final(self)@ == old(
                self,
            )@.push(event@),
            old(self)@.len() >= old(self).spec_capacity() ==> (r matches Err(e) && e == event)
                && final(self)@ == old(self)@,
    {
        if self.items.len() >= self.capacity {
            return Err(event);
        }
        let ghost e = event@;
        self.items.push(event);
        assert(self@ =~= old(self)@.push(e));
        Ok(())
    }

    /// Takes the oldest event, if there is one.
    pub fn try_recv(&mut self) -> (r: Received)
        requires
            old(self).wf(),
        ensures
            final(self).wf(),
            final(self).spec_capacity() == old(self).spec_capacity(),
            final(self).spec_closed() == old(self).spec_closed(),
            old(self)@.len() > 0 ==> (r matches Received::Event(e) && e@ == old(self)@[0])
                && final(self)@ == old(self)@.drop_first(),
            old(self)@.len() == 0 ==> final(self)@ == old(self)@ && if old(self).spec_closed() {
                r == Received::SourceClosed
            } else {
                r == Received::Empty
            },
    {
        if self.items.len() == 0 {
            if self.closed {
                return Received::SourceClosed;
            }
            return Received::Empty;
        }
        let e = self.items.remove(0);
        assert(self@ =~= old(self)@.drop_first());
        Received::Event(e)
    }

    /// Marks the producer as gone; what is buffered can still be received.
    pub fn close(&mut self)
        requires
            old(self).wf(),
        ensures
            final(self).wf(),
            final(self)@ == old(self)@,
            final(self).spec_capacity() == old(self).spec_capacity(),
            final(self).spec_closed(),
    {
        self.closed = true;
    }
}

} // verus!
