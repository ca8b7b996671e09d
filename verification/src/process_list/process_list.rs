use vstd::prelude::*;
use crate::components::utils::selection::{SelectionState, moved_index};
use crate::models::process_table::ProcessRow;
use crate::process_list::{ListSortOrder, MoveSelection, as_list_move, spec_as_list_move};
use crate::process_list::process_list_items::{
    ProcessListItems, is_match, lemma_sorted_copy_same_pids, pids_of, sorted_as,
};
use crate::process_list::selection_rules::{
    first_position, lemma_first_position_found, selection_after_sort, selection_after_update, spec_selection_after_sort,
    spec_selection_after_update,
};

verus! {

/// The pid of the process at the selected line, or at the first line where nothing is
/// selected; none where there is no such line.
pub open spec fn selected_pid_or_first(rows: Seq<ProcessRow>, selection: Option<usize>) -> Option<u32> {
    let idx = match selection {
        Some(s) => s as int,
        None => 0,
    };
    if idx < rows.len() {
        Some(rows[idx].pid)
    } else {
        None
    }
}

/// A sorted list of processes with a selected line that can follow its process.
pub struct ProcessList {
    items: ProcessListItems,
    sort: ListSortOrder,
    follow_selection: bool,
    selection: Option<usize>,
}

/// What a refresh of the list does, over its outcome: the list holds every new process
/// once, sorted; an empty list has no selection and any other list a selected line
/// inside it; and a selection that follows its process stays on that process wherever
/// the process is still listed.
pub proof fn lemma_update_follows_process(
    selection: Option<usize>,
    follow_selection: bool,
    selected_pid: Option<u32>,
    new_list: Seq<ProcessRow>,
    sorted: Seq<ProcessRow>,
    sort: ListSortOrder,
)
    requires
        sorted_as(sorted, new_list, sort),
        new_list.len() <= usize::MAX,
    ensures
        sorted.len() == new_list.len(),
        spec_selection_after_update(selection, follow_selection, selected_pid, pids_of(sorted)) is None
            <==> new_list.len() == 0,
        spec_selection_after_update(selection, follow_selection, selected_pid, pids_of(sorted)) matches Some(i)
            ==> i < sorted.len(),
        follow_selection && selected_pid is Some && pids_of(new_list).contains(selected_pid->0) ==> ({
            let r = spec_selection_after_update(selection, follow_selection, selected_pid, pids_of(sorted));
            r is Some && r->0 < sorted.len() && sorted[r->0 as int].pid == selected_pid->0
        }),
{
    lemma_sorted_copy_same_pids(sorted, new_list, sort);
    let pids = pids_of(sorted);
    assert(pids.len() == sorted.len());
    if follow_selection && selected_pid is Some {
        let q = selected_pid->0;
        if pids.contains(q) {
            lemma_first_position_found(pids, q);
            let i = first_position(pids, q)->0;
            assert(pids[i] == sorted[i].pid);
        } else {
            assert(first_position(pids, q) is None);
        }
    }
}

impl Default for ProcessList {
    /// An empty list, ordered by decreasing processor use, with nothing selected.
    fn default() -> (r: Self)
        ensures
            r.rows() == Seq::<ProcessRow>::empty(),
            r.spec_sort() == ListSortOrder::CpuUsageDec,
            !r.follows(),
            r.spec_selection() is None,
    {
        Self {
            items: ProcessListItems::default(),
            sort: ListSortOrder::default(),
            follow_selection: false,
            selection: None,
        }
    }
}

impl ProcessList {
    /// The processes, in the order shown.
    pub closed spec fn rows(&self) -> Seq<ProcessRow> {
        self.items.list_items@
    }

    pub closed spec fn spec_sort(&self) -> ListSortOrder {
        self.sort
    }

    /// Whether the selection follows its process when the list changes.
    pub closed spec fn follows(&self) -> bool {
        self.follow_selection
    }

    pub closed spec fn spec_selection(&self) -> Option<usize> {
        self.selection
    }

    /// A list of the processes `list` as given, ordered by decreasing processor use from
    /// the next update on, with the first line selected.
    pub fn new(list: Vec<ProcessRow>) -> (r: Self)
        requires
            list@.len() > 0,
        ensures
            r.rows() == list@,
            r.spec_sort() == ListSortOrder::CpuUsageDec,
            !r.follows(),
            r.spec_selection() == Some(0usize),
    {
        Self {
            items: ProcessListItems::new(list),
            sort: ListSortOrder::default(),
            follow_selection: false,
            selection: Some(0),
        }
    }

    /// A new list of the processes that match `filter_text` (see `is_match`), with the
    /// first line selected if there is one.
    pub fn filter(&self, filter_text: &str) -> (r: Self)
        ensures
            r.rows() == self.rows().filter(|row: ProcessRow| is_match(row, filter_text@)),
            r.spec_sort() == ListSortOrder::CpuUsageDec,
            !r.follows(),
            r.spec_selection() == (if r.rows().len() > 0 { Some(0usize) } else { None }),
    {
        let items = self.items.filter(filter_text);
        let len = items.items_len();
        Self {
            items,
            sort: ListSortOrder::default(),
            follow_selection: false,
            selection: if len > 0 {
                Some(0)
            } else {
                None
            },
        }
    }

    fn selected_or_first_pid(&self) -> (r: Option<u32>)
        ensures
            r == selected_pid_or_first(self.rows(), self.selection),
    {
        let idx = match self.selection {
            Some(s) => s,
            None => 0,
        };
        match self.items.get_item_ref(idx) {
            Some(item) => Some(item.pid),
            None => None,
        }
    }

    /// Replaces the processes with `new_list`, sorted in the list's order; the selection
    /// follows its process or keeps its line (see `spec_selection_after_update`).
    pub fn update(&mut self, new_list: Vec<ProcessRow>)
        ensures
            sorted_as(final(self).rows(), new_list@, old(self).spec_sort()),
            final(self).spec_sort() == old(self).spec_sort(),
            final(self).follows() == old(self).follows(),
            final(self).spec_selection() == spec_selection_after_update(
                old(self).spec_selection(),
                old(self).follows(),
                selected_pid_or_first(old(self).rows(), old(self).spec_selection()),
                pids_of(final(self).rows()),
            ),
    {
        let pid = self.selected_or_first_pid();
        self.items.update_items(new_list);
        let sort = self.sort;
        self.items.sort_items(&sort);
        let pids = self.items.pids();
        self.selection = selection_after_update(self.selection, self.follow_selection, pid, pids.as_slice());
    }

    /// Sorts the list in the order `sort`; a selection that follows its process moves
    /// with it (see `spec_selection_after_sort`).
    pub fn sort(&mut self, sort: &ListSortOrder)
        ensures
            sorted_as(final(self).rows(), old(self).rows(), *sort),
            final(self).spec_sort() == *sort,
            final(self).follows() == old(self).follows(),
            final(self).spec_selection() == spec_selection_after_sort(
                old(self).spec_selection(),
                old(self).follows(),
                selected_pid_or_first(old(self).rows(), old(self).spec_selection()),
                pids_of(final(self).rows()),
            ),
    {
        let pid = self.selected_or_first_pid();
        self.items.sort_items(sort);
        self.sort = *sort;
        let pids = self.items.pids();
        self.selection = selection_after_sort(self.selection, self.follow_selection, pid, pids.as_slice());
    }

    /// Moves the selection in direction `dir`; no selection stays none.
    pub fn move_selection(&mut self, dir: MoveSelection)
        ensures
            final(self).rows() == old(self).rows(),
            final(self).spec_sort() == old(self).spec_sort(),
            final(self).follows() == old(self).follows(),
            final(self).spec_selection() == match old(self).spec_selection() {
                Some(s) => Some(moved_index(s as int, spec_as_list_move(dir), old(self).rows().len() as int) as usize),
                None => None,
            },
    {
        let mut state = SelectionState::new(self.selection);
        state.move_selection(as_list_move(dir), self.items.items_len());
        self.selection = state.selection;
    }

    /// Starts or stops the selection following its process.
    pub fn toggle_follow_selection(&mut self)
        ensures
            final(self).rows() == old(self).rows(),
            final(self).spec_sort() == old(self).spec_sort(),
            final(self).follows() == !old(self).follows(),
            final(self).spec_selection() == old(self).spec_selection(),
    {
        self.follow_selection = !self.follow_selection;
    }

    pub fn is_empty(&self) -> (r: bool)
        ensures
            r == (self.rows().len() == 0),
    {
        self.items.items_len() == 0
    }

    pub fn is_follow_selection(&self) -> (r: bool)
        ensures
            r == self.follows(),
    {
        self.follow_selection
    }

    pub fn len(&self) -> (r: usize)
        ensures
            r == self.rows().len(),
    {
        self.items.items_len()
    }

    pub fn selection(&self) -> (r: Option<usize>)
        ensures
            r == self.spec_selection(),
    {
        self.selection
    }

    /// The process at the selected line.
    pub fn selected_item(&self) -> (r: Option<&ProcessRow>)
        ensures
            r == (match self.spec_selection() {
                Some(s) => if s < self.rows().len() {
                    Some(&self.rows()[s as int])
                } else {
                    None
                },
                None => None,
            }),
    {
        match self.selection {
            Some(selection) => self.items.get_item_ref(selection),
            None => None,
        }
    }

    /// The pid of the process at the selected line.
    pub fn selected_pid(&self) -> (r: Option<u32>)
        ensures
            r == (match self.spec_selection() {
                Some(s) => if s < self.rows().len() {
                    Some(self.rows()[s as int].pid)
                } else {
                    None
                },
                None => None,
            }),
    {
        match self.selection {
            Some(selection) => match self.items.get_item_ref(selection) {
                Some(item) => Some(item.pid),
                None => None,
            },
            None => None,
        }
    }

    pub fn get_sort_order(&self) -> (r: &ListSortOrder)
        ensures
            *r == self.spec_sort(),
    {
        &self.sort
    }

    /// The index of the process with `pid`, if it is listed.
    pub fn get_idx(&self, pid: u32) -> (r: Option<usize>)
        ensures
            match r {
                Some(i) => crate::process_list::selection_rules::first_position(pids_of(self.rows()), pid) == Some(i as int),
                None => crate::process_list::selection_rules::first_position(pids_of(self.rows()), pid) is None,
            },
    {
        self.items.get_idx(pid)
    }
}

} // verus!
