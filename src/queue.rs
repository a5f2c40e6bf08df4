//! A bounded first-in first-out queue with a non-blocking, drop-when-full
//! send.

use std::collections::VecDeque;
use vstd::prelude::*;

verus! {

/// Why a receive returned nothing.
#[derive(Clone, Copy, Debug, PartialEq, Eq, Structural)]
pub enum TryRecvError {
    /// No message is waiting.
    Empty,
}

/// What a queue holds after `x` was offered to it: `x` is appended while
/// there is room and dropped otherwise.
pub open spec fn offered<T>(items: Seq<T>, capacity: nat, x: T) -> Seq<T> {
    if items.len() < capacity {
        items.push(x)
    } else {
        items
    }
}

/// A queue that never holds more than its capacity.
pub struct BoundedQueue<T> {
    items: VecDeque<T>,
    capacity: usize,
}

impl<T> BoundedQueue<T> {
    /// The waiting items, oldest first.
    pub closed spec fn view(&self) -> Seq<T> {
        self.items@
    }

    /// The most items the queue holds at once.
    pub closed spec fn capacity_spec(&self) -> nat {
        self.capacity as nat
    }

    /// An empty queue that holds at most `capacity` items.
    pub fn new(capacity: usize) -> (q: Self)
        ensures
            q@ == Seq::<T>::empty(),
            q.capacity_spec() == capacity,
    {
        BoundedQueue { items: VecDeque::new(), capacity }
    }

    /// The most items the queue holds at once.
    pub fn capacity(&self) -> (r: usize)
        ensures
            r == self.capacity_spec(),
    {
        self.capacity
    }

    /// Number of waiting items.
    pub fn len(&self) -> (r: usize)
        ensures
            r == self@.len(),
    {
        self.items.len()
    }

    /// Appends `x` if there is room; returns whether it was kept.
    /// A full queue drops `x` and stays as it was.
    pub fn try_send(&mut self, x: T) -> (kept: bool)
        ensures
            kept == (old(self)@.len() < old(self).capacity_spec()),
            final(self)@ == offered(old(self)@, old(self).capacity_spec(), x),
            final(self).capacity_spec() == old(self).capacity_spec(),
    {
        if self.items.len() < self.capacity {
            self.items.push_back(x);
            true
        } else {
            false
        }
    }

    /// Takes the oldest waiting item.
    pub fn try_recv(&mut self) -> (r: Result<T, TryRecvError>)
        ensures
            final(self).capacity_spec() == old(self).capacity_spec(),
            old(self)@.len() == 0 ==> r == Err::<T, TryRecvError>(TryRecvError::Empty)
                && final(self)@ == old(self)@,
            old(self)@.len() > 0 ==> r == Ok::<T, TryRecvError>(old(self)@[0])
                && final(self)@ == old(self)@.drop_first(),
    {
        match self.items.pop_front() {
            Some(x) => Ok(x),
            None => Err(TryRecvError::Empty),
        }
    }
}

} // verus!
