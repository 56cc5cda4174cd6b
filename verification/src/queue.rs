//! The event queue: dispatch envelopes that wait to be handed on, oldest
//! first, up to a fixed number. When the queue is full an arriving envelope
//! is turned away and the ones that wait stay.

use vstd::prelude::*;
use crate::error::GatewayError;
use crate::packet::{Packet, PacketView};

verus! {

/// The envelopes of `items` as mathematical values, in the same order.
pub open spec fn packet_views(items: Seq<Packet>) -> Seq<PacketView> {
    Seq::new(items.len(), |i: int| items[i]@)
}

/// A bounded first-in, first-out buffer of envelopes.
pub struct EventQueue {
    items: Vec<Packet>,
    limit: usize,
}

impl View for EventQueue {
    type V = Seq<PacketView>;

    closed spec fn view(&self) -> Seq<PacketView> {
        packet_views(self.items@)
    }
}

impl EventQueue {
    /// The greatest number of envelopes that the queue holds at a time.
    pub closed spec fn capacity(&self) -> nat {
        self.limit as nat
    }

    /// Whether the queue holds no more than it may. Every queue that `new`
    /// made is within its capacity, and `push` and `pop` keep it so.
    pub open spec fn within_capacity(&self) -> bool {
        self@.len() <= self.capacity()
    }

    /// An empty queue that holds up to `capacity` envelopes.
    pub fn new(capacity: usize) -> (r: EventQueue)
        ensures
            r@ == Seq::<PacketView>::empty(),
            r.capacity() == capacity,
            r.within_capacity(),
    {
        let r = EventQueue { items: Vec::new(), limit: capacity };
        assert(r@ =~= Seq::<PacketView>::empty());
        r
    }

    /// The number of envelopes that wait.
    pub fn len(&self) -> (r: usize)
        ensures
            r == self@.len(),
    {
        self.items.len()
    }

    /// Whether no envelope waits.
    pub fn is_empty(&self) -> (r: bool)
        ensures
            r == (self@.len() == 0),
    {
        self.items.len() == 0
    }

    /// The greatest number of envelopes that the queue holds at a time.
    pub fn limit(&self) -> (r: usize)
        ensures
            r == self.capacity(),
    {
        self.limit
    }

    /// Appends `packet` behind the envelopes that wait. A full queue stays as
    /// it is and the envelope is dropped, with `QueueOverflow`.
    pub fn push(&mut self, packet: Packet) -> (r: Result<(), GatewayError>)
        ensures
            final(self).capacity() == old(self).capacity(),
            old(self)@.len() < old(self).capacity() ==> r is Ok && final(self)@ == old(self)@.push(
                packet@,
            ),
            old(self)@.len() >= old(self).capacity() ==> r == Err::<(), GatewayError>(
                GatewayError::QueueOverflow,
            ) && final(self)@ == old(self)@,
            old(self).within_capacity() ==> final(self).within_capacity(),
    {
        if self.items.len() < self.limit {
            self.items.push(packet);
            assert(self@ =~= old(self)@.push(packet@));
            Ok(())
        } else {
            Err(GatewayError::QueueOverflow)
        }
    }

    /// Takes out the envelope that has waited longest, if any waits.
    pub fn pop(&mut self) -> (r: Option<Packet>)
        ensures
            final(self).capacity() == old(self).capacity(),
            old(self)@.len() == 0 ==> r is None && final(self)@ == old(self)@,
            old(self)@.len() > 0 ==> r is Some && r.unwrap()@ == old(self)@[0] && final(self)@
                == old(self)@.skip(1),
            old(self).within_capacity() ==> final(self).within_capacity(),
    {
        if self.items.len() > 0 {
            let first = self.items.remove(0);
            assert(self@ =~= old(self)@.skip(1));
            Some(first)
        } else {
            None
        }
    }
}

} // verus!
