//! A bounded first-in first-out queue of packets.
//!
//! A producer that finds the queue full gets its packet back and waits;
//! nothing is ever dropped. This is the engine's only backpressure.

use vstd::prelude::*;
use std::collections::VecDeque;
use crate::packet::Packet;

verus! {

pub struct PacketQueue {
    items: VecDeque<Packet>,
    capacity: usize,
}

impl PacketQueue {
    /// The packets held, oldest first.
    pub closed spec fn view(&self) -> Seq<Packet> {
        self.items@
    }

    pub closed spec fn spec_capacity(&self) -> nat {
        self.capacity as nat
    }

    pub open spec fn wf(&self) -> bool {
        &&& self.spec_capacity() > 0
        &&& self@.len() <= self.spec_capacity()
    }

    /// An empty queue that holds at most `capacity` packets.
    pub fn new(capacity: usize) -> (r: PacketQueue)
        requires
            capacity > 0,
        ensures
            r.wf(),
            r@ == Seq::<Packet>::empty(),
            r.spec_capacity() == capacity,
    {
        PacketQueue { items: VecDeque::new(), capacity }
    }

    pub fn len(&self) -> (r: usize)
        ensures
            r == self@.len(),
    {
        self.items.len()
    }

    pub fn capacity(&self) -> (r: usize)
        ensures
            r == self.spec_capacity(),
    {
        self.capacity
    }

    pub fn is_full(&self) -> (r: bool)
        ensures
            r == (self@.len() >= self.spec_capacity()),
    {
        self.items.len() >= self.capacity
    }

    /// Appends `p` where there is room; otherwise hands `p` back and leaves
    /// the queue as it was.
    pub fn push(&mut self, p: Packet) -> (r: Option<Packet>)
        requires
            old(self).wf(),
        ensures
            final(self).wf(),
            final(self).spec_capacity() == old(self).spec_capacity(),
            old(self)@.len() < old(self).spec_capacity() ==> r is None && final(self)@ == old(
                self,
            )@.push(p),
            old(self)@.len() >= old(self).spec_capacity() ==> r == Some(p) && final(self)@ == old(
                self,
            )@,
    {
        if self.items.len() >= self.capacity {
            Some(p)
        } else {
            self.items.push_back(p);
            None
        }
    }

    /// Removes and returns the oldest packet, if any.
    pub fn pop(&mut self) -> (r: Option<Packet>)
        requires
            old(self).wf(),
        ensures
            final(self).wf(),
            final(self).spec_capacity() == old(self).spec_capacity(),
            old(self)@.len() > 0 ==> r == Some(old(self)@[0]) && final(self)@ == old(self)@.drop_first(),
            old(self)@.len() == 0 ==> r is None && final(self)@ == old(self)@,
    {
        self.items.pop_front()
    }

    /// Removes and returns the oldest `min(max, len)` packets, oldest first.
    pub fn pop_many(&mut self, max: usize) -> (r: Vec<Packet>)
        requires
            old(self).wf(),
        ensures
            final(self).wf(),
            final(self).spec_capacity() == old(self).spec_capacity(),
            r@ == old(self)@.take(take_count(max as nat, old(self)@.len()) as int),
            final(self)@ == old(self)@.skip(take_count(max as nat, old(self)@.len()) as int),
    {
        let mut out: Vec<Packet> = Vec::new();
        let ghost start = self@;
        while out.len() < max && self.items.len() > 0
            invariant
                self.wf(),
                self.spec_capacity() == old(self).spec_capacity(),
                start == old(self)@,
                out@.len() <= max,
                out@.len() <= start.len(),
                out@ == start.take(out@.len() as int),
                self@ == start.skip(out@.len() as int),
            decreases self@.len(),
        {
            match self.items.pop_front() {
                Some(p) => {
                    out.push(p);
                    assert(out@ =~= start.take(out@.len() as int));
                    assert(self@ =~= start.skip(out@.len() as int));
                },
                None => {},
            }
        }
        out
    }
}

/// How many items a batch of at most `max` takes from `len` waiting ones.
pub open spec fn take_count(max: nat, len: nat) -> nat {
    if max < len { max } else { len }
}

} // verus!
