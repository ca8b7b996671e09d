use vstd::prelude::*;
use crate::decimal::{decimal, decimal_string};
use crate::models::items::process_filter::{chars_of, contains, occurs_in};
use crate::models::process_table::{
    ProcessRow, copy_row, is_sorted_copy, is_table_view, lemma_sorted_copy_len, row_passes, sort_rows,
};
use crate::process_list::{ListSortOrder, item_order};
use crate::process_list::selection_rules::{first_position, lemma_first_position};

verus! {

/// The pids of the rows, in order.
pub open spec fn pids_of(rows: Seq<ProcessRow>) -> Seq<u32> {
    rows.map_values(|r: ProcessRow| r.pid)
}

/// Whether a process matches a filter text: the text occurs in its name (with case), or
/// in its pid written in decimal.
pub open spec fn is_match(row: ProcessRow, text: Seq<char>) -> bool {
    occurs_in(row.name@, text) || occurs_in(decimal(row.pid as nat), text)
}

/// Whether a process matches a filter text (see `is_match`).
pub fn row_is_match(row: &ProcessRow, filter_text: &str) -> (r: bool)
    ensures
        r == is_match(*row, filter_text@),
{
    let name = chars_of(row.name.as_str());
    let text = chars_of(filter_text);
    if contains(&name, &text) {
        return true;
    }
    let pid = decimal_string(row.pid as u64);
    let pid_chars = chars_of(pid.as_str());
    contains(&pid_chars, &text)
}

/// The rows listed in the order `sort` (see `sort_rows`).
pub open spec fn sorted_as(sorted: Seq<ProcessRow>, rows: Seq<ProcessRow>, sort: ListSortOrder) -> bool {
    is_sorted_copy(sorted, rows, item_order(sort))
}

/// A sorted copy holds every row of the list sorted, each once, and nothing else: the
/// same number of rows, the same rows and the same pids.
pub proof fn lemma_sorted_copy_same_pids(sorted: Seq<ProcessRow>, rows: Seq<ProcessRow>, sort: ListSortOrder)
    requires
        sorted_as(sorted, rows, sort),
        rows.len() <= usize::MAX,
    ensures
        sorted.len() == rows.len(),
        forall|j: int| 0 <= j < rows.len() ==> sorted.contains(#[trigger] rows[j]),
        forall|a: int| 0 <= a < sorted.len() ==> rows.contains(#[trigger] sorted[a]),
        forall|p: u32| pids_of(sorted).contains(p) <==> pids_of(rows).contains(p),
{
    lemma_sorted_copy_len(sorted, rows, item_order(sort));
    let view = choose|view: Seq<usize>|
        {
            &&& is_table_view(view, rows, Some(item_order(sort)), None)
            &&& sorted == view.map_values(|k: usize| rows[k as int])
        };
    assert forall|j: int| 0 <= j < rows.len() implies sorted.contains(#[trigger] rows[j]) by {
        assert(row_passes(rows[j], None));
        assert(view.contains(j as usize));
        let a = choose|a: int| 0 <= a < view.len() && view[a] == j as usize;
        assert(sorted[a] == rows[j]);
    }
    assert forall|a: int| 0 <= a < sorted.len() implies rows.contains(#[trigger] sorted[a]) by {
        assert(view[a] < rows.len());
        assert(sorted[a] == rows[view[a] as int]);
    }
    assert forall|p: u32| pids_of(sorted).contains(p) <==> pids_of(rows).contains(p) by {
        if pids_of(sorted).contains(p) {
            let a = choose|a: int| 0 <= a < pids_of(sorted).len() && pids_of(sorted)[a] == p;
            assert(rows.contains(sorted[a]));
            let j = choose|j: int| 0 <= j < rows.len() && rows[j] == sorted[a];
            assert(pids_of(rows)[j] == p);
        }
        if pids_of(rows).contains(p) {
            let j = choose|j: int| 0 <= j < pids_of(rows).len() && pids_of(rows)[j] == p;
            assert(sorted.contains(rows[j]));
            let a = choose|a: int| 0 <= a < sorted.len() && sorted[a] == rows[j];
            assert(pids_of(sorted)[a] == p);
        }
    }
}

/// The list of processes.
pub struct ProcessListItems {
    pub list_items: Vec<ProcessRow>,
}

impl Default for ProcessListItems {
    fn default() -> (r: Self)
        ensures
            r.list_items@ == Seq::<ProcessRow>::empty(),
    {
        Self { list_items: Vec::new() }
    }
}

impl ProcessListItems {
    pub fn new(list: Vec<ProcessRow>) -> (r: Self)
        ensures
            r.list_items@ == list@,
    {
        Self { list_items: list }
    }

    /// A new list of copies of the processes that match `filter_text` (see `is_match`),
    /// in their order.
    pub fn filter(&self, filter_text: &str) -> (r: Self)
        ensures
            r.list_items@ == self.list_items@.filter(|row: ProcessRow| is_match(row, filter_text@)),
    {
        let ghost pred = |row: ProcessRow| is_match(row, filter_text@);
        let mut kept: Vec<ProcessRow> = Vec::new();
        let mut i: usize = 0;
        while i < self.list_items.len()
            invariant
                i <= self.list_items@.len(),
                pred == (|row: ProcessRow| is_match(row, filter_text@)),
                kept@ == self.list_items@.take(i as int).filter(pred),
            decreases self.list_items@.len() - i,
        {
            proof {
                assert(self.list_items@.take(i + 1) =~= self.list_items@.take(i as int).push(self.list_items@[i as int]));
                self.list_items@.take(i as int).lemma_filter_push(self.list_items@[i as int], pred);
            }
            if row_is_match(&self.list_items[i], filter_text) {
                kept.push(copy_row(&self.list_items[i]));
            }
            i = i + 1;
        }
        assert(self.list_items@.take(i as int) =~= self.list_items@);
        Self { list_items: kept }
    }

    /// Replaces the processes with `new_list`.
    pub fn update_items(&mut self, new_list: Vec<ProcessRow>)
        ensures
            final(self).list_items@ == new_list@,
    {
        self.list_items = new_list;
    }

    /// Sorts the processes in the order `sort`, keeping the order of those that tie.
    pub fn sort_items(&mut self, sort: &ListSortOrder)
        ensures
            sorted_as(final(self).list_items@, old(self).list_items@, *sort),
    {
        let sorted = sort_rows(&self.list_items, crate::process_list::to_item_order(*sort));
        self.list_items = sorted;
    }

    pub fn get_item_ref(&self, idx: usize) -> (r: Option<&ProcessRow>)
        ensures
            r == (if idx < self.list_items@.len() {
                Some(&self.list_items@[idx as int])
            } else {
                None
            }),
    {
        if idx < self.list_items.len() {
            Some(&self.list_items[idx])
        } else {
            None
        }
    }

    /// Where the process with `pid` stands: the first index at which it occurs.
    pub fn get_idx(&self, pid: u32) -> (r: Option<usize>)
        ensures
            match r {
                Some(i) => first_position(pids_of(self.list_items@), pid) == Some(i as int),
                None => first_position(pids_of(self.list_items@), pid) is None,
            },
    {
        let ghost pids = pids_of(self.list_items@);
        let mut i: usize = 0;
        while i < self.list_items.len()
            invariant
                i <= self.list_items@.len(),
                pids == pids_of(self.list_items@),
                forall|j: int| 0 <= j < i ==> pids[j] != pid,
            decreases self.list_items@.len() - i,
        {
            if self.list_items[i].pid == pid {
                proof {
                    lemma_first_position(pids, pid, Some(i));
                }
                return Some(i);
            }
            i = i + 1;
        }
        proof {
            lemma_first_position(pids, pid, None);
        }
        None
    }

    pub fn items_len(&self) -> (r: usize)
        ensures
            r == self.list_items@.len(),
    {
        self.list_items.len()
    }

    /// The pids of the processes, in order.
    pub fn pids(&self) -> (r: Vec<u32>)
        ensures
            r@ == pids_of(self.list_items@),
    {
        let mut pids: Vec<u32> = Vec::new();
        let mut i: usize = 0;
        while i < self.list_items.len()
            invariant
                i <= self.list_items@.len(),
                pids@ == pids_of(self.list_items@.take(i as int)),
            decreases self.list_items@.len() - i,
        {
            pids.push(self.list_items[i].pid);
            assert(pids_of(self.list_items@.take(i + 1)) =~= pids_of(self.list_items@.take(i as int)).push(
                self.list_items@[i as int].pid,
            ));
            i = i + 1;
        }
        assert(self.list_items@.take(i as int) =~= self.list_items@);
        pids
    }
}

} // verus!
