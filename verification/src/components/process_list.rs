use vstd::prelude::*;
use crate::input::Key;

verus! {

/// Whether the list shows the entries whose name matches the filter, or all of them.
#[derive(PartialEq, Eq, Structural, Clone, Copy, Debug)]
pub enum FilterState {
    NotFiltering,
    Filtering,
}

/// A `(pid, name)` entry taken by value.
pub open spec fn entry_view(e: (u32, String)) -> (u32, Seq<char>) {
    (e.0, e.1@)
}

/// The entries of a list taken by value.
pub open spec fn entries_view(s: Seq<(u32, String)>) -> Seq<(u32, Seq<char>)> {
    s.map_values(|e: (u32, String)| entry_view(e))
}

/// The index after `idx` in a list of `len` entries, wrapping past the end.
pub open spec fn next_index(idx: int, len: int) -> int {
    if len == 0 { idx } else { (idx + 1) % len }
}

/// The index before `idx` in a list of `len` entries, wrapping before the start.
pub open spec fn prev_index(idx: int, len: int) -> int {
    if len == 0 { idx } else if idx == 0 { len - 1 } else { (idx - 1) % len }
}

/// Stepping down then up, or up then down, comes back to the same entry.
pub proof fn lemma_step_round_trip(idx: int, len: int)
    requires
        0 <= idx < len,
    ensures
        prev_index(next_index(idx, len), len) == idx,
        next_index(prev_index(idx, len), len) == idx,
        0 <= next_index(idx, len) < len,
        0 <= prev_index(idx, len) < len,
{
    if idx + 1 < len {
        vstd::arithmetic::div_mod::lemma_small_mod((idx + 1) as nat, len as nat);
    } else {
        vstd::arithmetic::div_mod::lemma_mod_self_0(len);
    }
    vstd::arithmetic::div_mod::lemma_small_mod(idx as nat, len as nat);
    if idx > 0 {
        vstd::arithmetic::div_mod::lemma_small_mod((idx - 1) as nat, len as nat);
    }
}

/// The state of a process list by value.
pub struct ProcessListView {
    pub filtering: bool,
    pub filter_name: Seq<char>,
    pub filtered: Seq<(u32, Seq<char>)>,
    pub unfiltered: Seq<(u32, Seq<char>)>,
    pub filtered_idx: int,
    pub unfiltered_idx: int,
}

impl ProcessListView {
    /// The list on show.
    pub open spec fn active(self) -> Seq<(u32, Seq<char>)> {
        if self.filtering { self.filtered } else { self.unfiltered }
    }

    /// The selected index of the list on show.
    pub open spec fn active_idx(self) -> int {
        if self.filtering { self.filtered_idx } else { self.unfiltered_idx }
    }

    /// The selection of the list on show names one of its entries, or the list is empty.
    pub open spec fn selection_in_range(self) -> bool {
        self.active().len() == 0 || self.active_idx() < self.active().len()
    }
}

/// A list of `(pid, name)` entries with a selection, shown whole or filtered by name.
pub struct ProcessList {
    filter_state: FilterState,
    filter_name: String,
    filtered_list: Vec<(u32, String)>,
    unfiltered_list: Vec<(u32, String)>,
    filtered_idx: usize,
    unfiltered_idx: usize,
}

impl View for ProcessList {
    type V = ProcessListView;

    closed spec fn view(&self) -> ProcessListView {
        ProcessListView {
            filtering: self.filter_state == FilterState::Filtering,
            filter_name: self.filter_name@,
            filtered: entries_view(self.filtered_list@),
            unfiltered: entries_view(self.unfiltered_list@),
            filtered_idx: self.filtered_idx as int,
            unfiltered_idx: self.unfiltered_idx as int,
        }
    }
}

fn clone_entries(list: &Vec<(u32, String)>) -> (r: Vec<(u32, String)>)
    ensures
        entries_view(r@) == entries_view(list@),
{
    let mut r: Vec<(u32, String)> = Vec::new();
    let mut i: usize = 0;
    while i < list.len()
        invariant
            i <= list@.len(),
            entries_view(r@) == entries_view(list@.take(i as int)),
        decreases list@.len() - i,
    {
        let ghost before = r@;
        let entry = (list[i].0, list[i].1.clone());
        r.push(entry);
        assert(entries_view(r@) =~= entries_view(before).push(entry_view(list@[i as int])));
        assert(list@.take(i as int + 1) =~= list@.take(i as int).push(list@[i as int]));
        assert(entries_view(list@.take(i as int + 1)) =~= entries_view(list@.take(i as int)).push(entry_view(list@[i as int])));
        i = i + 1;
    }
    assert(list@.take(list@.len() as int) =~= list@);
    r
}

impl ProcessList {
    pub fn new() -> (r: Self)
        ensures
            r@ == (ProcessListView {
                filtering: false,
                filter_name: Seq::empty(),
                filtered: Seq::empty(),
                unfiltered: Seq::empty(),
                filtered_idx: 0,
                unfiltered_idx: 0,
            }),
    {
        let r = Self {
            filter_state: FilterState::NotFiltering,
            filter_name: String::new(),
            filtered_list: Vec::new(),
            unfiltered_list: Vec::new(),
            filtered_idx: 0,
            unfiltered_idx: 0,
        };
        assert(entries_view(r.filtered_list@) =~= Seq::empty());
        assert(entries_view(r.unfiltered_list@) =~= Seq::empty());
        r
    }

    /// Clears both lists and the filter, and shows the whole list.
    pub fn reset(&mut self)
        ensures
            final(self)@ == (ProcessListView {
                filtering: false,
                filter_name: Seq::empty(),
                filtered: Seq::empty(),
                unfiltered: Seq::empty(),
                filtered_idx: 0,
                unfiltered_idx: 0,
            }),
    {
        self.filter_state = FilterState::NotFiltering;
        self.filter_name = String::new();
        self.filtered_list = Vec::new();
        self.unfiltered_list = Vec::new();
        self.filtered_idx = 0;
        self.unfiltered_idx = 0;
        assert(entries_view(self.filtered_list@) =~= Seq::empty());
        assert(entries_view(self.unfiltered_list@) =~= Seq::empty());
    }

    pub fn set_filter_name(&mut self, n: String)
        ensures
            final(self)@ == (ProcessListView { filter_name: n@, ..old(self)@ }),
    {
        self.filter_name = n.clone();
    }

    /// Keeps, as the filtered list, the entries of the whole list whose name is the filter.
    pub fn set_filtered_list(&mut self)
        ensures
            final(self)@ == (ProcessListView {
                filtered: old(self)@.unfiltered.filter(
                    |e: (u32, Seq<char>)| e.1 == old(self)@.filter_name,
                ),
                ..old(self)@
            }),
    {
        let ghost name = self.filter_name@;
        let ghost pred = |e: (u32, Seq<char>)| e.1 == name;
        let mut filtered: Vec<(u32, String)> = Vec::new();
        let mut i: usize = 0;
        while i < self.unfiltered_list.len()
            invariant
                i <= self.unfiltered_list@.len(),
                name == self.filter_name@,
                pred == (|e: (u32, Seq<char>)| e.1 == name),
                entries_view(filtered@) == entries_view(self.unfiltered_list@.take(i as int)).filter(pred),
            decreases self.unfiltered_list@.len() - i,
        {
            let ghost before = entries_view(self.unfiltered_list@.take(i as int));
            assert(entries_view(self.unfiltered_list@.take(i as int + 1)) =~= before.push(
                entry_view(self.unfiltered_list@[i as int]),
            ));
            proof {
                before.lemma_filter_push(entry_view(self.unfiltered_list@[i as int]), pred);
            }
            if self.filter_name == self.unfiltered_list[i].1 {
                let entry = (self.unfiltered_list[i].0, self.unfiltered_list[i].1.clone());
                filtered.push(entry);
            }
            i = i + 1;
        }
        assert(self.unfiltered_list@.take(self.unfiltered_list@.len() as int) =~= self.unfiltered_list@);
        self.filtered_list = filtered;
    }

    /// Replaces the whole list; the selection indices are kept as they are.
    pub fn set_unfiltered_list(&mut self, list: Vec<(u32, String)>)
        ensures
            final(self)@ == (ProcessListView { unfiltered: entries_view(list@), ..old(self)@ }),
    {
        self.unfiltered_list = list;
    }

    /// The selected index of the list on show.
    pub fn get_idx(&mut self) -> (r: usize)
        ensures
            r == old(self)@.active_idx(),
            final(self)@ == old(self)@,
    {
        let idx = match self.filter_state {
            FilterState::NotFiltering => self.unfiltered_idx,
            FilterState::Filtering => self.filtered_idx,
        };
        return idx;
    }

    /// A copy of the list on show.
    pub fn get_process_list(&mut self) -> (r: Vec<(u32, String)>)
        ensures
            entries_view(r@) == old(self)@.active(),
            final(self)@ == old(self)@,
    {
        match self.filter_state {
            FilterState::NotFiltering => clone_entries(&self.unfiltered_list),
            FilterState::Filtering => clone_entries(&self.filtered_list),
        }
    }

    /// The pid of the selected entry of the list on show, or `None` when that list is empty.
    pub fn get_pid(&mut self) -> (r: Option<u32>)
        requires
            old(self)@.selection_in_range(),
        ensures
            r == (if old(self)@.active().len() == 0 {
                None
            } else {
                Some(old(self)@.active()[old(self)@.active_idx()].0)
            }),
            final(self)@ == old(self)@,
    {
        match self.filter_state {
            FilterState::NotFiltering => {
                if self.unfiltered_list.len() < 1 {
                    return None;
                } else {
                    return Some(self.unfiltered_list[self.unfiltered_idx].0);
                }
            },
            FilterState::Filtering => {
                if self.filtered_list.len() < 1 {
                    return None;
                } else {
                    return Some(self.filtered_list[self.filtered_idx].0);
                }
            },
        }
    }

    /// Switches between the whole list and the filtered one.
    pub fn swap_filter(&mut self)
        ensures
            final(self)@ == (ProcessListView { filtering: !old(self)@.filtering, ..old(self)@ }),
    {
        match self.filter_state {
            FilterState::NotFiltering => {
                self.filter_state = FilterState::Filtering;
            },
            FilterState::Filtering => {
                self.filter_state = FilterState::NotFiltering;
            },
        }
    }

    fn inc_idx(&mut self)
        ensures
            final(self)@ == (if old(self)@.filtering {
                ProcessListView {
                    filtered_idx: next_index(old(self)@.filtered_idx, old(self)@.filtered.len() as int),
                    ..old(self)@
                }
            } else {
                ProcessListView {
                    unfiltered_idx: next_index(old(self)@.unfiltered_idx, old(self)@.unfiltered.len() as int),
                    ..old(self)@
                }
            }),
    {
        match self.filter_state {
            FilterState::NotFiltering => {
                if self.unfiltered_list.is_empty() {
                    return ;
                }
                let len = self.unfiltered_list.len();
                self.unfiltered_idx = (self.unfiltered_idx % len + 1) % len;
                proof {
                    vstd::arithmetic::div_mod::lemma_add_mod_noop_right(1, old(self).unfiltered_idx as int, len as int);
                }
                return ;
            },
            FilterState::Filtering => {
                if self.filtered_list.is_empty() {
                    return ;
                }
                let len = self.filtered_list.len();
                self.filtered_idx = (self.filtered_idx % len + 1) % len;
                proof {
                    vstd::arithmetic::div_mod::lemma_add_mod_noop_right(1, old(self).filtered_idx as int, len as int);
                }
                return ;
            },
        }
    }

    fn dec_idx(&mut self)
        ensures
            final(self)@ == (if old(self)@.filtering {
                ProcessListView {
                    filtered_idx: prev_index(old(self)@.filtered_idx, old(self)@.filtered.len() as int),
                    ..old(self)@
                }
            } else {
                ProcessListView {
                    unfiltered_idx: prev_index(old(self)@.unfiltered_idx, old(self)@.unfiltered.len() as int),
                    ..old(self)@
                }
            }),
    {
        match self.filter_state {
            FilterState::NotFiltering => {
                if self.unfiltered_list.is_empty() {
                    return ;
                }
                if self.unfiltered_idx == 0 {
                    self.unfiltered_idx = self.unfiltered_list.len() - 1;
                    return ;
                }
                self.unfiltered_idx = (self.unfiltered_idx - 1) % self.unfiltered_list.len();
                return ;
            },
            FilterState::Filtering => {
                if self.filtered_list.is_empty() {
                    return ;
                }
                if self.filtered_idx == 0 {
                    self.filtered_idx = self.filtered_list.len() - 1;
                    return ;
                }
                self.filtered_idx = (self.filtered_idx - 1) % self.filtered_list.len();
                return ;
            },
        }
    }

    /// Handles a key: up and down step through the list on show (wrapping around), enter
    /// switches between the whole and the filtered list. Returns whether the key was used.
    pub fn event(&mut self, key: Key) -> (r: bool)
        ensures
            r == (key == Key::Up || key == Key::Down || key == Key::Enter),
            key == Key::Up ==> final(self)@ == (if old(self)@.filtering {
                ProcessListView {
                    filtered_idx: prev_index(old(self)@.filtered_idx, old(self)@.filtered.len() as int),
                    ..old(self)@
                }
            } else {
                ProcessListView {
                    unfiltered_idx: prev_index(old(self)@.unfiltered_idx, old(self)@.unfiltered.len() as int),
                    ..old(self)@
                }
            }),
            key == Key::Down ==> final(self)@ == (if old(self)@.filtering {
                ProcessListView {
                    filtered_idx: next_index(old(self)@.filtered_idx, old(self)@.filtered.len() as int),
                    ..old(self)@
                }
            } else {
                ProcessListView {
                    unfiltered_idx: next_index(old(self)@.unfiltered_idx, old(self)@.unfiltered.len() as int),
                    ..old(self)@
                }
            }),
            key == Key::Enter ==> final(self)@ == (ProcessListView {
                filtering: !old(self)@.filtering,
                ..old(self)@
            }),
            !r ==> final(self)@ == old(self)@,
    {
        match key {
            Key::Up => {
                self.dec_idx();
                true
            },
            Key::Down => {
                self.inc_idx();
                true
            },
            Key::Enter => {
                self.swap_filter();
                true
            },
            _ => false,
        }
    }
}

} // verus!
