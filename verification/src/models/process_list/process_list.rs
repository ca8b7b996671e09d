use vstd::prelude::*;
use crate::components::utils::MoveSelection;
use crate::components::utils::selection::{SelectionState, moved_index};
use crate::models::items::process_filter::{lowercase_text, name_matches, occurs_in};
use crate::models::process_list::{ProcessItemSortOrder, row_order_of, spec_row_order};
use crate::models::process_table::{ProcessRow, copy_row, is_sorted_copy, sort_rows};
use crate::process_list::process_list_items::pids_of;
use crate::process_list::process_list::selected_pid_or_first;
use crate::process_list::selection_rules::{first_position, get_idx};

verus! {

/// Whether a process's name holds the filter text, ignoring case.
pub open spec fn name_passes(row: ProcessRow, filter: Seq<char>) -> bool {
    occurs_in(lowercase_text(row.name@), lowercase_text(filter))
}

/// The rows a list keeps: all of them, or those whose name holds the filter text.
pub open spec fn kept_by(rows: Seq<ProcessRow>, filter: Option<Seq<char>>) -> Seq<ProcessRow> {
    match filter {
        None => rows,
        Some(f) => rows.filter(|row: ProcessRow| name_passes(row, f)),
    }
}

/// Where the process with `pid` now stands, if there is one and it is listed.
pub open spec fn followed(pid: Option<u32>, pids: Seq<u32>) -> Option<usize> {
    match pid {
        Some(p) => match first_position(pids, p) {
            Some(i) => Some(i as usize),
            None => None,
        },
        None => None,
    }
}

/// A following selection lands on its process whenever the process is still listed.
pub proof fn lemma_followed_finds_pid(pid: u32, pids: Seq<u32>)
    requires
        pids.contains(pid),
        pids.len() <= usize::MAX,
    ensures
        followed(Some(pid), pids) matches Some(i) && i < pids.len() && pids[i as int] == pid,
{
    let w = choose|k: int| 0 <= k < pids.len() && pids[k] == pid;
    lemma_first_index_exists(pids, pid, w);
    let c = choose|k: int| 0 <= k < pids.len() && pids[k] == pid && forall|j: int| 0 <= j < k ==> pids[j] != pid;
    assert(first_position(pids, pid) == Some(c));
}

/// Some occurrence of `pid` comes first.
proof fn lemma_first_index_exists(pids: Seq<u32>, pid: u32, w: int)
    requires
        0 <= w < pids.len(),
        pids[w] == pid,
    ensures
        exists|k: int| 0 <= k < pids.len() && pids[k] == pid && forall|j: int| 0 <= j < k ==> pids[j] != pid,
    decreases w,
{
    if exists|j: int| 0 <= j < w && pids[j] == pid {
        let j = choose|j: int| 0 <= j < w && pids[j] == pid;
        lemma_first_index_exists(pids, pid, j);
    } else {
        assert(forall|j: int| 0 <= j < w ==> pids[j] != pid);
    }
}

/// A selection moved up to the last of `len` lines where it lies past it.
pub open spec fn clamped(selection: Option<usize>, len: nat) -> Option<usize> {
    match selection {
        Some(s) => if s + 1 > len {
            Some((len - 1) as usize)
        } else {
            Some(s)
        },
        None => None,
    }
}

/// A list of processes, possibly filtered by name, sorted, with a selected line that can
/// follow its process.
pub struct ProcessList {
    processes: Vec<ProcessRow>,
    sort: ProcessItemSortOrder,
    selection_state: SelectionState,
    filter: Option<String>,
}

impl ProcessList {
    /// The processes, in the order shown.
    pub closed spec fn rows(&self) -> Seq<ProcessRow> {
        self.processes@
    }

    pub closed spec fn spec_sort(&self) -> ProcessItemSortOrder {
        self.sort
    }

    pub closed spec fn spec_selection(&self) -> Option<usize> {
        self.selection_state.selection
    }

    /// Whether the selection follows its process when the list changes.
    pub closed spec fn follows(&self) -> bool {
        self.selection_state.follow_selection
    }

    /// The name filter of a filtered list; none for the whole list.
    pub closed spec fn spec_filter(&self) -> Option<Seq<char>> {
        match self.filter {
            Some(f) => Some(f@),
            None => None,
        }
    }

    /// The whole list of the processes `rows`, as given, ordered by decreasing processor
    /// use from the next update on, with its first line selected if there is one.
    pub fn new(rows: Vec<ProcessRow>) -> (r: Self)
        ensures
            r.rows() == rows@,
            r.spec_sort() == ProcessItemSortOrder::CpuUsageDec,
            r.spec_selection() == (if rows@.len() > 0 { Some(0usize) } else { None }),
            !r.follows(),
            r.spec_filter() is None,
    {
        let selection_state = if rows.len() > 0 {
            SelectionState::new(Some(0))
        } else {
            SelectionState::new(None)
        };
        Self { processes: rows, sort: ProcessItemSortOrder::CpuUsageDec, selection_state, filter: None }
    }

    /// A filtered list: copies of the processes whose name holds `filter_text`, ignoring
    /// case, with its first line selected if there is one.
    pub fn filter(&self, filter_text: &str) -> (r: Self)
        ensures
            r.rows() == self.rows().filter(|row: ProcessRow| name_passes(row, filter_text@)),
            r.spec_sort() == ProcessItemSortOrder::CpuUsageDec,
            r.spec_selection() == (if r.rows().len() > 0 { Some(0usize) } else { None }),
            !r.follows(),
            r.spec_filter() == Some(filter_text@),
    {
        let processes = filter_by_name(&self.processes, filter_text);
        let selection_state = if processes.len() > 0 {
            SelectionState::new(Some(0))
        } else {
            SelectionState::new(None)
        };
        Self {
            processes,
            sort: ProcessItemSortOrder::CpuUsageDec,
            selection_state,
            filter: Some(String::from_str(filter_text)),
        }
    }

    fn selected_or_first_pid(&self) -> (r: Option<u32>)
        ensures
            r == selected_pid_or_first(self.processes@, self.selection_state.selection),
    {
        let idx = match self.selection_state.selection {
            Some(s) => s,
            None => 0,
        };
        if idx < self.processes.len() {
            Some(self.processes[idx].pid)
        } else {
            None
        }
    }

    fn pids(&self) -> (r: Vec<u32>)
        ensures
            r@ == pids_of(self.processes@),
    {
        let mut pids: Vec<u32> = Vec::new();
        let mut i: usize = 0;
        while i < self.processes.len()
            invariant
                i <= self.processes@.len(),
                pids@ == pids_of(self.processes@.take(i as int)),
            decreases self.processes@.len() - i,
        {
            pids.push(self.processes[i].pid);
            assert(pids_of(self.processes@.take(i + 1)) =~= pids_of(self.processes@.take(i as int)).push(
                self.processes@[i as int].pid,
            ));
            i = i + 1;
        }
        assert(self.processes@.take(i as int) =~= self.processes@);
        pids
    }

    /// Replaces the processes with `rows`, keeps those that pass the list's name filter,
    /// and sorts them in the list's order. An empty list has no selection and does not
    /// follow; otherwise a following selection moves to where its process now stands
    /// (none if it is gone), and another one keeps its line, moved up to the last.
    pub fn update(&mut self, rows: Vec<ProcessRow>)
        ensures
            final(self).spec_sort() == old(self).spec_sort(),
            final(self).spec_filter() == old(self).spec_filter(),
            kept_by(rows@, old(self).spec_filter()).len() == 0 ==> {
                &&& final(self).rows() == kept_by(rows@, old(self).spec_filter())
                &&& final(self).spec_selection() is None
                &&& !final(self).follows()
            },
            kept_by(rows@, old(self).spec_filter()).len() > 0 ==> {
                &&& is_sorted_copy(
                    final(self).rows(),
                    kept_by(rows@, old(self).spec_filter()),
                    spec_row_order(old(self).spec_sort()),
                )
                &&& final(self).follows() == old(self).follows()
                &&& final(self).spec_selection() == (if old(self).follows() {
                    followed(
                        selected_pid_or_first(old(self).rows(), old(self).spec_selection()),
                        pids_of(final(self).rows()),
                    )
                } else {
                    clamped(old(self).spec_selection(), final(self).rows().len())
                })
            },
    {
        let selection_pid = self.selected_or_first_pid();
        let selection = self.selection_state.selection;
        let kept = match &self.filter {
            Some(filter) => filter_by_name(&rows, filter.as_str()),
            None => rows,
        };
        if kept.len() == 0 {
            self.processes = kept;
            self.selection_state.set_selection(None);
            self.selection_state.set_follow(false);
            return;
        }
        let sort = self.sort;
        self.processes = sort_rows(&kept, row_order_of(sort));
        let new_selection = if self.selection_state.follow_selection {
            match selection_pid {
                Some(p) => {
                    let pids = self.pids();
                    get_index(&pids, p)
                },
                None => None,
            }
        } else {
            match selection {
                Some(s) => {
                    let max_idx = self.processes.len() - 1; // the kept rows are not empty
                    if s > max_idx {
                        Some(max_idx)
                    } else {
                        Some(s)
                    }
                },
                None => None,
            }
        };
        self.selection_state.set_selection(new_selection);
    }

    /// Sorts the list in the order `sort`; a following selection moves to where its
    /// process now stands.
    pub fn sort(&mut self, sort: &ProcessItemSortOrder)
        ensures
            is_sorted_copy(final(self).rows(), old(self).rows(), spec_row_order(*sort)),
            final(self).spec_sort() == *sort,
            final(self).spec_filter() == old(self).spec_filter(),
            final(self).follows() == old(self).follows(),
            final(self).spec_selection() == (if old(self).follows() {
                followed(
                    selected_pid_or_first(old(self).rows(), old(self).spec_selection()),
                    pids_of(final(self).rows()),
                )
            } else {
                old(self).spec_selection()
            }),
    {
        let selection_pid = self.selected_or_first_pid();
        self.processes = sort_rows(&self.processes, row_order_of(*sort));
        self.sort = *sort;
        if self.selection_state.follow_selection {
            let new_selection = match selection_pid {
                Some(p) => {
                    let pids = self.pids();
                    get_index(&pids, p)
                },
                None => None,
            };
            self.selection_state.set_selection(new_selection);
        }
    }

    /// Moves the selection in direction `dir` among the listed processes.
    pub fn move_selection(&mut self, dir: MoveSelection)
        ensures
            final(self).rows() == old(self).rows(),
            final(self).spec_sort() == old(self).spec_sort(),
            final(self).spec_filter() == old(self).spec_filter(),
            final(self).follows() == old(self).follows(),
            final(self).spec_selection() == match old(self).spec_selection() {
                Some(s) => Some(moved_index(s as int, dir, old(self).rows().len() as int) as usize),
                None => None,
            },
    {
        let len = self.processes.len();
        self.selection_state.move_selection(dir, len);
    }

    /// Starts or stops following; an empty list never follows.
    pub fn toggle_follow_selection(&mut self)
        ensures
            final(self).rows() == old(self).rows(),
            final(self).spec_sort() == old(self).spec_sort(),
            final(self).spec_filter() == old(self).spec_filter(),
            final(self).spec_selection() == old(self).spec_selection(),
            final(self).follows() == (old(self).rows().len() > 0 && !old(self).follows()),
    {
        if self.processes.len() == 0 {
            self.selection_state.set_follow(false);
        } else {
            let follow = !self.selection_state.follow_selection;
            self.selection_state.set_follow(follow);
        }
    }

    pub fn is_follow_selection(&self) -> (r: bool)
        ensures
            r == self.follows(),
    {
        self.selection_state.follow_selection
    }

    pub fn selection(&self) -> (r: Option<usize>)
        ensures
            r == self.spec_selection(),
    {
        self.selection_state.selection
    }

    pub fn is_empty(&self) -> (r: bool)
        ensures
            r == (self.rows().len() == 0),
    {
        self.processes.len() == 0
    }

    pub fn len(&self) -> (r: usize)
        ensures
            r == self.rows().len(),
    {
        self.processes.len()
    }

    /// The process at the selected line.
    pub fn selection_item(&self) -> (r: Option<&ProcessRow>)
        ensures
            r == (match self.spec_selection() {
                Some(s) => if s < self.rows().len() {
                    Some(&self.rows()[s as int])
                } else {
                    None
                },
                None => None,
            }),
    {
        match self.selection_state.selection {
            Some(selection) => {
                if selection < self.processes.len() {
                    Some(&self.processes[selection])
                } else {
                    None
                }
            },
            None => None,
        }
    }

    /// The pid of the process at the selected line.
    pub fn selection_pid(&self) -> (r: Option<u32>)
        ensures
            r == (match self.spec_selection() {
                Some(s) => if s < self.rows().len() {
                    Some(self.rows()[s as int].pid)
                } else {
                    None
                },
                None => None,
            }),
    {
        match self.selection_item() {
            Some(item) => Some(item.pid),
            None => None,
        }
    }

    pub fn sort_order(&self) -> (r: &ProcessItemSortOrder)
        ensures
            *r == self.spec_sort(),
    {
        &self.sort
    }

    /// Up to `max_amount` lines from `start_idx` on: each line's index and whether it is
    /// the selected one.
    pub fn iterate(&self, start_idx: usize, max_amount: usize) -> (r: Vec<(usize, bool)>)
        requires
            start_idx + max_amount <= usize::MAX,
        ensures
            r@.len() == (if start_idx + max_amount <= self.rows().len() {
                max_amount as int
            } else if start_idx <= self.rows().len() {
                self.rows().len() - start_idx
            } else {
                0
            }),
            forall|k: int|
                0 <= k < r@.len() ==> #[trigger] r@[k] == (
                    (start_idx + k) as usize,
                    self.spec_selection() == Some((start_idx + k) as usize),
                ),
    {
        let end_idx = if start_idx + max_amount < self.processes.len() {
            start_idx + max_amount
        } else {
            self.processes.len()
        };
        let mut lines: Vec<(usize, bool)> = Vec::new();
        let mut i = start_idx;
        while i < end_idx
            invariant
                start_idx <= i <= end_idx || (i == start_idx && end_idx <= start_idx),
                end_idx <= self.processes@.len(),
                end_idx == (if start_idx + max_amount < self.processes@.len() {
                    start_idx + max_amount
                } else {
                    self.processes@.len() as int
                }),
                lines@.len() == i - start_idx,
                forall|k: int|
                    0 <= k < lines@.len() ==> #[trigger] lines@[k] == (
                        (start_idx + k) as usize,
                        self.selection_state.selection == Some((start_idx + k) as usize),
                    ),
            decreases end_idx - i,
        {
            lines.push((i, self.selection_state.selection == Some(i)));
            i = i + 1;
        }
        lines
    }
}

/// Where `pid` first stands in `pids`.
fn get_index(pids: &Vec<u32>, pid: u32) -> (r: Option<usize>)
    ensures
        r == followed(Some(pid), pids@),
{
    let r = get_idx(pids.as_slice(), pid);
    proof {
        crate::process_list::selection_rules::lemma_first_position(pids@, pid, r);
    }
    r
}

/// The processes whose name holds `filter_text`, ignoring case, in their order.
fn filter_by_name(rows: &Vec<ProcessRow>, filter_text: &str) -> (r: Vec<ProcessRow>)
    ensures
        r@ == rows@.filter(|row: ProcessRow| name_passes(row, filter_text@)),
{
    let ghost pred = |row: ProcessRow| name_passes(row, filter_text@);
    let mut kept: Vec<ProcessRow> = Vec::new();
    let mut i: usize = 0;
    while i < rows.len()
        invariant
            i <= rows@.len(),
            pred == (|row: ProcessRow| name_passes(row, filter_text@)),
            kept@ == rows@.take(i as int).filter(pred),
        decreases rows@.len() - i,
    {
        proof {
            assert(rows@.take(i + 1) =~= rows@.take(i as int).push(rows@[i as int]));
            rows@.take(i as int).lemma_filter_push(rows@[i as int], pred);
        }
        if name_matches(rows[i].name.as_str(), filter_text) {
            kept.push(copy_row(&rows[i]));
        }
        i = i + 1;
    }
    assert(rows@.take(i as int) =~= rows@);
    kept
}

} // verus!
