use std::collections::VecDeque;
use vstd::prelude::*;
use vstd::std_specs::iter::IteratorSpec;

verus! {

/// The contents of a queue that keeps at most `capacity` entries after `item` is added
/// at the back: the oldest entries leave from the front so that, with the new item, at
/// most `capacity` remain. A queue of capacity zero keeps the newest item alone.
pub open spec fn bounded_push<T>(items: Seq<T>, capacity: nat, item: T) -> Seq<T> {
    if items.len() < capacity {
        items.push(item)
    } else if items.len() == 0 {
        seq![item]
    } else {
        items.skip(items.len() - capacity + 1).push(item)
    }
}

/// Whether a queue of the given capacity may hold `items`: no more than `capacity`
/// entries, or the single newest entry of a queue of capacity zero.
pub open spec fn within_capacity<T>(items: Seq<T>, capacity: nat) -> bool {
    items.len() <= capacity || (capacity == 0 && items.len() <= 1)
}

/// Whether an item can be added: a queue of capacity zero takes only a first item.
pub open spec fn accepts_item<T>(items: Seq<T>, capacity: nat) -> bool {
    capacity > 0 || items.len() == 0
}

/// The contents after each of `xs` has been added in order.
pub open spec fn push_all<T>(items: Seq<T>, capacity: nat, xs: Seq<T>) -> Seq<T>
    decreases xs.len(),
{
    if xs.len() == 0 {
        items
    } else {
        push_all(bounded_push(items, capacity, xs[0]), capacity, xs.drop_first())
    }
}

/// The last `n` entries of `s` (all of `s` when it is shorter).
pub open spec fn newest<T>(s: Seq<T>, n: nat) -> Seq<T> {
    if s.len() <= n {
        s
    } else {
        s.skip(s.len() - n)
    }
}

proof fn lemma_push_is_newest<T>(items: Seq<T>, capacity: nat, item: T)
    requires
        capacity > 0,
        items.len() <= capacity,
    ensures
        bounded_push(items, capacity, item) == newest(items.push(item), capacity),
{
    assert(bounded_push(items, capacity, item) =~= newest(items.push(item), capacity));
}

proof fn lemma_newest_of_newest<T>(a: Seq<T>, b: Seq<T>, n: nat)
    ensures
        newest(newest(a, n) + b, n) == newest(a + b, n),
{
    assert(newest(newest(a, n) + b, n) =~= newest(a + b, n));
}

/// A queue of positive capacity keeps the most recent entries: starting from contents
/// that fit, adding the items `xs` one by one leaves the last `capacity` entries of the
/// old contents followed by `xs`, oldest first.
pub proof fn lemma_keeps_most_recent<T>(items: Seq<T>, capacity: nat, xs: Seq<T>)
    requires
        capacity > 0,
        items.len() <= capacity,
    ensures
        push_all(items, capacity, xs) == newest(items + xs, capacity),
    decreases xs.len(),
{
    if xs.len() == 0 {
        assert(items + xs =~= items);
    } else {
        let next = bounded_push(items, capacity, xs[0]);
        lemma_push_is_newest(items, capacity, xs[0]);
        lemma_keeps_most_recent(next, capacity, xs.drop_first());
        lemma_newest_of_newest(items.push(xs[0]), xs.drop_first(), capacity);
        assert(items.push(xs[0]) + xs.drop_first() =~= items + xs);
    }
}

/// One addition at a time: a queue of positive capacity that holds the last `capacity`
/// of the items `ys` given so far holds, after `y` is added, the last `capacity` of `ys`
/// followed by `y`. With an empty queue at the start (the last entries of no items), each
/// call of `add_item` thus leaves the most recent items, oldest first.
pub proof fn lemma_add_keeps_most_recent<T>(ys: Seq<T>, capacity: nat, y: T)
    requires
        capacity > 0,
    ensures
        newest(Seq::<T>::empty(), capacity) == Seq::<T>::empty(),
        bounded_push(newest(ys, capacity), capacity, y) == newest(ys.push(y), capacity),
{
    lemma_push_is_newest(newest(ys, capacity), capacity, y);
    lemma_newest_of_newest(ys, seq![y], capacity);
    assert(newest(ys, capacity).push(y) =~= newest(ys, capacity) + seq![y]);
    assert(ys.push(y) =~= ys + seq![y]);
}

/// A queue that keeps the `capacity` most recent items it was given, oldest first.
pub struct BoundedQueueModel<T> {
    items: VecDeque<T>,
    capacity: usize,
}

impl<T> View for BoundedQueueModel<T> {
    type V = Seq<T>;

    closed spec fn view(&self) -> Seq<T> {
        self.items@
    }
}

impl<T> BoundedQueueModel<T> {
    /// The largest number of items the queue keeps.
    pub closed spec fn spec_capacity(&self) -> nat {
        self.capacity as nat
    }

    pub fn new(capacity: usize) -> (r: Self)
        ensures
            r@ == Seq::<T>::empty(),
            r.spec_capacity() == capacity,
    {
        Self { items: VecDeque::with_capacity(capacity), capacity }
    }

    /// Adds `item` at the back; when the queue is full its oldest item leaves.
    pub fn add_item(&mut self, item: T)
        requires
            within_capacity(old(self)@, old(self).spec_capacity()),
            accepts_item(old(self)@, old(self).spec_capacity()),
        ensures
            final(self)@ == bounded_push(old(self)@, old(self).spec_capacity(), item),
            final(self).spec_capacity() == old(self).spec_capacity(),
            within_capacity(final(self)@, final(self).spec_capacity()),
    {
        let len = self.items.len();
        if len < self.capacity {
            self.items.push_back(item);
        } else {
            // within capacity, a queue that is not below it is full
            self.items.pop_front();
            self.items.push_back(item);
        }
        assert(self.items@ =~= bounded_push(old(self)@, old(self).spec_capacity(), item));
    }

    /// The oldest item.
    pub fn front(&self) -> (r: Option<&T>)
        ensures
            r == (if self@.len() > 0 { Some(&self@[0]) } else { None }),
    {
        if self.items.len() > 0 {
            Some(&self.items[0])
        } else {
            None
        }
    }

    /// The newest item.
    pub fn back(&self) -> (r: Option<&T>)
        ensures
            r == (if self@.len() > 0 { Some(&self@[self@.len() - 1]) } else { None }),
    {
        let len = self.items.len();
        if len > 0 {
            Some(&self.items[len - 1])
        } else {
            None
        }
    }

    pub fn capacity(&self) -> (r: usize)
        ensures
            r == self.spec_capacity(),
    {
        self.capacity
    }

    pub fn items(&self) -> (r: &VecDeque<T>)
        ensures
            r@ == self@,
    {
        &self.items
    }

    /// Iterates over the items, oldest first.
    pub fn iter(&self) -> (r: std::collections::vec_deque::Iter<'_, T>)
        ensures
            IteratorSpec::remaining(&r) == self@.map_values(|v: T| &v),
    {
        self.items.iter()
    }
}

} // verus!
