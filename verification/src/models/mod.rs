pub mod bounded_queue_model;
pub mod items;
pub mod process_list;
pub mod process_table;
pub mod vec_model;

use vstd::prelude::*;

verus! {

/// The outcome of comparing two items for sorting.
#[derive(PartialEq, Eq, Structural, Clone, Copy, Debug)]
pub enum SortOrdering {
    Less,
    Equal,
    Greater,
}

/// Items that a filter text selects or not.
pub trait Filterable {
    fn matches_filter(&self, filter: &str) -> bool;
}

/// Items that can be ordered by each order of `S`.
pub trait Sortable<S> {
    fn cmp_with(&self, other: &Self, sort: &S) -> SortOrdering;
}

} // verus!
