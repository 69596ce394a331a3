//! Bounded FIFO hand-off between two pipeline stages.
//!
//! Each frame moves through a queue with exactly one owner at any instant.
//! A send on a full queue is refused and hands the item back, so the
//! producer must wait for the consumer instead of buffering unboundedly:
//! this is the backpressure that throttles capture to the consumption rate.

use std::collections::VecDeque;
use vstd::prelude::*;

verus! {

/// A bounded FIFO queue of fixed capacity.
pub struct BoundedQueue<T> {
    items: VecDeque<T>,
    capacity: usize,
}

impl<T> View for BoundedQueue<T> {
    type V = Seq<T>;

    closed spec fn view(&self) -> Seq<T> {
        self.items@
    }
}

impl<T> BoundedQueue<T> {
    /// The fixed capacity chosen at construction.
    pub closed spec fn cap(&self) -> nat {
        self.capacity as nat
    }

    /// The queue never holds more items than its capacity.
    pub open spec fn wf(&self) -> bool {
        &&& self@.len() <= self.cap()
        &&& self.cap() >= 1
    }

    /// Creates an empty queue of the given capacity.
    pub fn new(capacity: usize) -> (q: Self)
        requires
            capacity >= 1,
        ensures
            q.wf(),
            q@.len() == 0,
            q.cap() == capacity as nat,
    {
        BoundedQueue { items: VecDeque::new(), capacity }
    }

    /// The number of items currently queued.
    pub fn len(&self) -> (n: usize)
        ensures
            n == self@.len(),
    {
        self.items.len()
    }

    /// The fixed capacity.
    pub fn capacity(&self) -> (c: usize)
        ensures
            c as nat == self.cap(),
    {
        self.capacity
    }

    /// Law (backpressure): a send on a full queue refuses the item and
    /// leaves the queue exactly as it was — it never drops the item and
    /// never grows past the capacity. Otherwise the item joins the back.
    pub fn try_send(&mut self, item: T) -> (r: Result<(), T>)
        requires
            old(self).wf(),
        ensures
            final(self).wf(),
            final(self).cap() == old(self).cap(),
            old(self)@.len() < old(self).cap() ==> r is Ok && final(self)@ == old(self)@.push(item),
            old(self)@.len() >= old(self).cap() ==> (r matches Err(x) && x == item)
                && final(self)@ == old(self)@,
    {
        if self.items.len() < self.capacity {
            self.items.push_back(item);
            Ok(())
        } else {
            Err(item)
        }
    }

    /// Takes the oldest item, if any: items leave in the order they came.
    pub fn try_recv(&mut self) -> (r: Option<T>)
        requires
            old(self).wf(),
        ensures
            final(self).wf(),
            final(self).cap() == old(self).cap(),
            old(self)@.len() == 0 ==> r is None && final(self)@ == old(self)@,
            old(self)@.len() > 0 ==> (r matches Some(x) && x == old(self)@[0]) && final(self)@
                == old(self)@.skip(1),
    {
        let r = self.items.pop_front();
        proof {
            if old(self)@.len() > 0 {
                assert(self@ =~= old(self)@.skip(1));
            }
        }
        r
    }
}

} // verus!
