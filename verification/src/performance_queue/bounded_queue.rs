use std::collections::VecDeque;
use vstd::prelude::*;
use vstd::std_specs::iter::IteratorSpec;
use crate::models::bounded_queue_model::{accepts_item, bounded_push};

verus! {

/// A history of performance samples that keeps the `capacity` most recent ones,
/// oldest first. Samples are cloned in.
pub struct PerformanceQueue<T> {
    pub performance_items: VecDeque<T>,
    capacity: usize,
}

impl<T> View for PerformanceQueue<T> {
    type V = Seq<T>;

    closed spec fn view(&self) -> Seq<T> {
        self.performance_items@
    }
}

impl<T: Clone> PerformanceQueue<T> {
    /// The largest number of samples the queue keeps.
    pub closed spec fn spec_capacity(&self) -> nat {
        self.capacity as nat
    }

    pub fn new(capacity: usize) -> (r: Self)
        ensures
            r@ == Seq::<T>::empty(),
            r.spec_capacity() == capacity,
    {
        Self { performance_items: VecDeque::with_capacity(capacity), capacity }
    }

    /// Adds a clone of `item` at the back; the oldest samples leave from the front until,
    /// with the new one, no more than `capacity` remain.
    pub fn add_item(&mut self, item: &T)
        requires
            accepts_item(old(self)@, old(self).spec_capacity()),
        ensures
            final(self)@.len() > 0,
            cloned(*item, final(self)@.last()),
            final(self)@ == bounded_push(
                old(self)@,
                old(self).spec_capacity(),
                final(self)@.last(),
            ),
            final(self).spec_capacity() == old(self).spec_capacity(),
    {
        if self.performance_items.len() < self.capacity {
            let item = item.clone();
            self.performance_items.push_back(item);
        } else if self.performance_items.len() == self.capacity {
            self.performance_items.pop_front();
            let item = item.clone();
            self.performance_items.push_back(item);
        } else {
            let ghost start = self.performance_items@;
            while self.performance_items.len() >= self.capacity
                invariant
                    self.capacity > 0,
                    self.capacity == old(self).capacity,
                    start == old(self)@,
                    self.performance_items@.len() >= self.capacity - 1,
                    self.performance_items@ == start.skip(
                        start.len() - self.performance_items@.len(),
                    ),
                    self.performance_items@.len() <= start.len(),
                decreases self.performance_items@.len(),
            {
                self.performance_items.pop_front();
            }
            let item = item.clone();
            self.performance_items.push_back(item);
        }
    }

    /// The oldest sample.
    pub fn front(&self) -> (r: Option<&T>)
        ensures
            r == (if self@.len() > 0 { Some(&self@[0]) } else { None }),
    {
        if self.performance_items.len() > 0 {
            Some(&self.performance_items[0])
        } else {
            None
        }
    }

    /// The newest sample.
    pub fn back(&self) -> (r: Option<&T>)
        ensures
            r == (if self@.len() > 0 { Some(&self@[self@.len() - 1]) } else { None }),
    {
        let len = self.performance_items.len();
        if len > 0 {
            Some(&self.performance_items[len - 1])
        } else {
            None
        }
    }

    pub fn capacity(&self) -> (r: usize)
        ensures
            r == self.spec_capacity(),
    {
        self.capacity
    }

    /// Iterates over the samples, oldest first.
    pub fn iter(&self) -> (r: std::collections::vec_deque::Iter<'_, T>)
        ensures
            IteratorSpec::remaining(&r) == self@.map_values(|v: T| &v),
    {
        self.performance_items.iter()
    }
}

} // verus!
