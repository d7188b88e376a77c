//! The typed channel set's queue: an unbounded first-in-first-out queue.
//! One queue per stream (message, peer-to-peer, request, event) decouples
//! the driver's callback thread from application-side consumption; ordering
//! is first-in-first-out within a queue, with no cross-queue guarantee.

use vstd::prelude::*;

verus! {

/// An unbounded first-in-first-out queue.
pub struct FifoChannel<T> {
    items: Vec<T>,
}

impl<T> View for FifoChannel<T> {
    type V = Seq<T>;

    closed spec fn view(&self) -> Seq<T> {
        self.items@
    }
}

impl<T> FifoChannel<T> {
    /// Creates an empty queue.
    pub fn new() -> (r: Self)
        ensures
            r@ == Seq::<T>::empty(),
    {
        FifoChannel { items: Vec::new() }
    }

    /// Number of queued items.
    pub fn len(&self) -> (r: usize)
        ensures
            r == self@.len(),
    {
        self.items.len()
    }

    /// Whether the queue is empty.
    pub fn is_empty(&self) -> (r: bool)
        ensures
            r == (self@.len() == 0),
    {
        self.items.len() == 0
    }

    /// Appends an item at the back.
    pub fn push(&mut self, item: T)
        ensures
            final(self)@ == old(self)@.push(item),
    {
        self.items.push(item);
    }

    /// Removes and returns the oldest item, or `None` when empty.
    pub fn try_pop(&mut self) -> (r: Option<T>)
        ensures
            old(self)@.len() == 0 ==> r is None && final(self)@ == old(self)@,
            old(self)@.len() > 0 ==> (r matches Some(it) && it == old(self)@[0] && final(self)@
                == old(self)@.drop_first()),
    {
        if self.items.len() == 0 {
            None
        } else {
            let it = self.items.remove(0);
            proof {
                assert(self.items@ =~= old(self)@.drop_first());
            }
            Some(it)
        }
    }
}

} // verus!
