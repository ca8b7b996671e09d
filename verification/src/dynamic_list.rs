use vstd::prelude::*;
use std::cmp::Ordering;

verus! {

/// The entries of `items` whose flag in `keep` is set, in their order.
pub open spec fn kept<T>(items: Seq<T>, keep: Seq<bool>) -> Seq<T>
    decreases items.len(),
{
    if items.len() == 0 {
        Seq::empty()
    } else {
        let rest = kept(items.drop_last(), keep.take(items.len() - 1));
        if keep[items.len() - 1] {
            rest.push(items.last())
        } else {
            rest
        }
    }
}

/// `a` comes no later than `b` under `compare`: every answer `compare` can give for the
/// pair is other than `Greater`.
pub open spec fn not_after<T, F: Fn(&T, &T) -> Ordering>(compare: F, a: &T, b: &T) -> bool {
    forall|o: Ordering| #[trigger] call_ensures(compare, (a, b), o) ==> o != Ordering::Greater
}

/// `compare` can be called on any pair and orders like a total order: it gives one
/// answer per pair, the opposite answer for the swapped pair, and is transitive.
pub open spec fn compares_totally<T, F: Fn(&T, &T) -> Ordering>(compare: F) -> bool {
    &&& forall|a: &T, b: &T| #[trigger] call_requires(compare, (a, b))
    &&& forall|a: &T, b: &T, o: Ordering, p: Ordering|
        #[trigger] call_ensures(compare, (a, b), o) && #[trigger] call_ensures(compare, (a, b), p)
            ==> o == p
    &&& forall|a: &T, b: &T, o: Ordering|
        #[trigger] call_ensures(compare, (a, b), o) ==> call_ensures(
            compare,
            (b, a),
            match o {
                Ordering::Less => Ordering::Greater,
                Ordering::Equal => Ordering::Equal,
                Ordering::Greater => Ordering::Less,
            },
        )
    &&& forall|a: &T, b: &T, c: &T|
        #[trigger] not_after(compare, a, b) && #[trigger] not_after(compare, b, c) ==> not_after(
            compare,
            a,
            c,
        )
}

/// `after` is `before` rearranged by `perm` (`after[i]` is `before[perm[i]]`, each
/// position of `before` used once), and items that `compare` finds equal keep the order
/// they had in `before`.
pub open spec fn stable_rearrangement<T, F: Fn(&T, &T) -> Ordering>(
    compare: F,
    before: Seq<T>,
    after: Seq<T>,
    perm: Seq<int>,
) -> bool {
    &&& perm.len() == before.len()
    &&& after.len() == before.len()
    &&& forall|i: int| 0 <= i < after.len() ==> 0 <= #[trigger] perm[i] < before.len() && after[i] == before[perm[i]]
    &&& forall|i: int, j: int| #![trigger perm[i], perm[j]] 0 <= i < j < after.len() ==> perm[i] != perm[j]
    &&& forall|i: int, j: int|
        #![trigger perm[i], perm[j]]
        0 <= i < j < after.len() && call_ensures(compare, (&after[i], &after[j]), Ordering::Equal)
            ==> perm[i] < perm[j]
}

/// Sorts `items` with `compare` (`slice::sort_by`). The standard library documents that
/// the sort is stable, keeps all elements, and that with a comparator that is a total
/// order the result is sorted by it (it may panic otherwise, which `requires` excludes).
#[verifier::external_body]
fn sort_vec_by<T, F: Fn(&T, &T) -> Ordering>(items: &mut Vec<T>, compare: F)
    requires
        compares_totally(compare),
    ensures
        final(items)@.to_multiset() == old(items)@.to_multiset(),
        forall|i: int, j: int|
            0 <= i < j < final(items)@.len() ==> not_after(
                compare,
                &final(items)@[i],
                &final(items)@[j],
            ),
        exists|perm: Seq<int>| stable_rearrangement(compare, old(items)@, final(items)@, perm),
{
    items.sort_by(compare)
}

/// A list of items that can be filtered into a new list, replaced, and sorted.
pub struct DynamicList<T> {
    items: Vec<T>,
}

impl<T> View for DynamicList<T> {
    type V = Seq<T>;

    closed spec fn view(&self) -> Seq<T> {
        self.items@
    }
}

impl<T> DynamicList<T> {
    pub fn new() -> (r: Self)
        ensures
            r@ == Seq::<T>::empty(),
    {
        DynamicList { items: Vec::new() }
    }

    /// A new list of clones of the items for which `predicate` holds, in their order.
    pub fn filter<F>(&self, predicate: F) -> (r: DynamicList<T>) where F: Fn(&T) -> bool, T: Clone
        requires
            forall|i: int| 0 <= i < self@.len() ==> call_requires(predicate, (&self@[i],)),
        ensures
            exists|keep: Seq<bool>|
                {
                    &&& keep.len() == self@.len()
                    &&& forall|i: int|
                        0 <= i < self@.len() ==> call_ensures(predicate, (&self@[i],), #[trigger] keep[i])
                    &&& r@.len() == kept(self@, keep).len()
                    &&& forall|k: int|
                        0 <= k < r@.len() ==> cloned(#[trigger] kept(self@, keep)[k], r@[k])
                },
    {
        let mut filtered_items: Vec<T> = Vec::new();
        let ghost mut keep: Seq<bool> = Seq::empty();
        let mut i: usize = 0;
        while i < self.items.len()
            invariant
                i <= self.items@.len(),
                keep.len() == i,
                forall|j: int| 0 <= j < self@.len() ==> call_requires(predicate, (&self@[j],)),
                self@ == self.items@,
                forall|j: int| 0 <= j < i ==> call_ensures(predicate, (&self.items@[j],), #[trigger] keep[j]),
                filtered_items@.len() == kept(self.items@.take(i as int), keep).len(),
                forall|k: int|
                    0 <= k < filtered_items@.len() ==> cloned(
                        #[trigger] kept(self.items@.take(i as int), keep)[k],
                        filtered_items@[k],
                    ),
            decreases self.items@.len() - i,
        {
            let ghost prev = kept(self.items@.take(i as int), keep);
            let b = predicate(&self.items[i]);
            if b {
                let item = self.items[i].clone();
                filtered_items.push(item);
            }
            proof {
                let next_items = self.items@.take(i as int + 1);
                let next_keep = keep.push(b);
                assert(next_items.drop_last() =~= self.items@.take(i as int));
                assert(next_keep.take(i as int) =~= keep);
                assert(next_items.last() == self.items@[i as int]);
                keep = next_keep;
            }
            i = i + 1;
        }
        assert(self.items@.take(self.items@.len() as int) =~= self.items@);
        DynamicList { items: filtered_items }
    }

    pub fn replace_all(&mut self, vec: Vec<T>)
        ensures
            final(self)@ == vec@,
    {
        self.items = vec
    }

    pub fn from_vec(vec: Vec<T>) -> (r: Self)
        ensures
            r@ == vec@,
    {
        DynamicList { items: vec }
    }

    pub fn as_slice(&self) -> (r: &[T])
        ensures
            r@ == self@,
    {
        self.items.as_slice()
    }

    /// Sorts the list by `compare`, which must order like a total order; the sort is
    /// stable.
    pub fn sort_by<F>(&mut self, compare: F) where F: Fn(&T, &T) -> Ordering
        requires
            compares_totally(compare),
        ensures
            final(self)@.to_multiset() == old(self)@.to_multiset(),
            forall|i: int, j: int|
                0 <= i < j < final(self)@.len() ==> not_after(compare, &final(self)@[i], &final(self)@[j]),
            exists|perm: Seq<int>| stable_rearrangement(compare, old(self)@, final(self)@, perm),
    {
        let ghost before = self.items@;
        sort_vec_by(&mut self.items, compare);
        proof {
            let perm = choose|perm: Seq<int>| stable_rearrangement(compare, before, self.items@, perm);
            assert(stable_rearrangement(compare, old(self)@, self@, perm));
        }
    }

    /// The item at `index`, or `None` past the end.
    pub fn get(&self, index: usize) -> (r: Option<&T>)
        ensures
            r == (if index < self@.len() { Some(&self@[index as int]) } else { None }),
    {
        if index < self.items.len() {
            Some(&self.items[index])
        } else {
            None
        }
    }
}

} // verus!
