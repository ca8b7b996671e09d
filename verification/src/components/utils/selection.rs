use vstd::prelude::*;
use crate::components::utils::MoveSelection;

verus! {

/// The number of lines a multiple move covers.
pub const MULTIPLE_LINES: usize = 10;

/// The largest index of a list of `len` items (zero for an empty list).
pub open spec fn max_index(len: int) -> int {
    if len > 0 { len - 1 } else { 0 }
}

/// The index reached from `current` by moving down at most `lines` lines without passing
/// the last index; an index already at or past the last one stays where it is.
pub open spec fn index_down(current: int, lines: int, len: int) -> int {
    if current >= max_index(len) {
        current
    } else if current + lines <= max_index(len) {
        current + lines
    } else {
        max_index(len)
    }
}

/// The index reached from `current` by moving up at most `lines` lines, stopping at zero.
pub open spec fn index_up(current: int, lines: int) -> int {
    if current >= lines { current - lines } else { 0 }
}

/// The index that a move in direction `dir` leads to in a list of `len` items.
pub open spec fn moved_index(current: int, dir: MoveSelection, len: int) -> int {
    match dir {
        MoveSelection::Down => index_down(current, 1, len),
        MoveSelection::MultipleDown => index_down(current, MULTIPLE_LINES as int, len),
        MoveSelection::Up => index_up(current, 1),
        MoveSelection::MultipleUp => index_up(current, MULTIPLE_LINES as int),
        MoveSelection::Bottom => max_index(len),
        MoveSelection::Top => 0,
    }
}

/// The selected index of a list, and whether the selection follows its item when the
/// list changes.
pub struct SelectionState {
    pub selection: Option<usize>,
    pub follow_selection: bool,
}

/// A selection inside a non-empty list stays inside it whatever the move.
pub proof fn lemma_move_stays_in_list(current: int, dir: MoveSelection, len: int)
    requires
        0 <= current < len,
    ensures
        0 <= moved_index(current, dir, len) < len,
{
}

impl SelectionState {
    pub fn new(idx: Option<usize>) -> (r: Self)
        ensures
            r.selection == idx,
            !r.follow_selection,
    {
        Self { selection: idx, follow_selection: false }
    }

    pub fn set_selection(&mut self, idx: Option<usize>)
        ensures
            final(self).selection == idx,
            final(self).follow_selection == old(self).follow_selection,
    {
        self.selection = idx;
    }

    pub fn set_follow(&mut self, follow: bool)
        ensures
            final(self).selection == old(self).selection,
            final(self).follow_selection == follow,
    {
        self.follow_selection = follow;
    }

    /// Moves the selection in a list of `len` items; no selection stays none.
    pub fn move_selection(&mut self, dir: MoveSelection, len: usize)
        ensures
            final(self).follow_selection == old(self).follow_selection,
            final(self).selection == match old(self).selection {
                Some(s) => Some(moved_index(s as int, dir, len as int) as usize),
                None => None,
            },
    {
        if let Some(selection) = self.selection {
            let new_idx = match dir {
                MoveSelection::Down => self.selection_down(selection, 1, len),
                MoveSelection::MultipleDown => self.selection_down(selection, MULTIPLE_LINES, len),
                MoveSelection::Up => self.selection_up(selection, 1),
                MoveSelection::MultipleUp => self.selection_up(selection, MULTIPLE_LINES),
                MoveSelection::Bottom => self.selection_bottom(selection, len),
                MoveSelection::Top => self.selection_top(selection),
            };
            self.selection = new_idx;
        }
    }

    fn selection_down(&self, current_idx: usize, lines: usize, len: usize) -> (r: Option<usize>)
        ensures
            r == Some(index_down(current_idx as int, lines as int, len as int) as usize),
    {
        let mut new_idx = current_idx;
        let max_idx = len.saturating_sub(1);
        let mut i: usize = 0;
        while i < lines
            invariant
                i <= lines,
                max_idx == max_index(len as int),
                new_idx == (if current_idx >= max_idx {
                    current_idx as int
                } else if current_idx + i <= max_idx {
                    current_idx + i
                } else {
                    max_idx as int
                }),
            ensures
                new_idx == index_down(current_idx as int, lines as int, len as int),
            decreases lines - i,
        {
            if new_idx >= max_idx {
                break;
            }
            new_idx = new_idx.saturating_add(1);
            i = i + 1;
        }
        Some(new_idx)
    }

    fn selection_up(&self, current_idx: usize, lines: usize) -> (r: Option<usize>)
        ensures
            r == Some(index_up(current_idx as int, lines as int) as usize),
    {
        let mut new_idx = current_idx;
        let min_idx: usize = 0;
        let mut i: usize = 0;
        while i < lines
            invariant
                i <= lines,
                min_idx == 0,
                new_idx == index_up(current_idx as int, i as int),
            ensures
                new_idx == index_up(current_idx as int, lines as int),
            decreases lines - i,
        {
            if new_idx == min_idx {
                break;
            }
            new_idx = new_idx.saturating_sub(1);
            i = i + 1;
        }
        Some(new_idx)
    }

    fn selection_bottom(&self, _current_idx: usize, len: usize) -> (r: Option<usize>)
        ensures
            r == Some(max_index(len as int) as usize),
    {
        let max_idx = len.saturating_sub(1);
        Some(max_idx)
    }

    fn selection_top(&self, _current_idx: usize) -> (r: Option<usize>)
        ensures
            r == Some(0usize),
    {
        let min_idx: usize = 0;
        Some(min_idx)
    }
}

} // verus!
