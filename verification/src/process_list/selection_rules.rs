use vstd::prelude::*;

verus! {

/// The first index at which `pid` occurs in `pids`, if any.
pub open spec fn first_position(pids: Seq<u32>, pid: u32) -> Option<int> {
    if exists|i: int| 0 <= i < pids.len() && pids[i] == pid {
        Some(choose|i: int| 0 <= i < pids.len() && pids[i] == pid && forall|j: int| 0 <= j < i ==> pids[j] != pid)
    } else {
        None
    }
}

pub(crate) proof fn lemma_first_position(pids: Seq<u32>, pid: u32, found: Option<usize>)
    requires
        match found {
            Some(i) => i < pids.len() && pids[i as int] == pid && forall|j: int|
                0 <= j < i ==> pids[j] != pid,
            None => forall|j: int| 0 <= j < pids.len() ==> pids[j] != pid,
        },
    ensures
        match found {
            Some(i) => first_position(pids, pid) == Some(i as int),
            None => first_position(pids, pid) is None,
        },
        pids.contains(pid) ==> found is Some,
{
    if let Some(i) = found {
        assert(exists|k: int| 0 <= k < pids.len() && pids[k] == pid);
        let w = choose|k: int|
            0 <= k < pids.len() && pids[k] == pid && forall|j: int| 0 <= j < k ==> pids[j] != pid;
        assert(0 <= i < pids.len() && pids[i as int] == pid && forall|j: int| 0 <= j < i ==> pids[j] != pid);
        if w < i {
            assert(pids[w] != pid);
        } else if w > i {
            assert(pids[i as int] != pid);
        }
    }
}

proof fn lemma_first_from(pids: Seq<u32>, pid: u32, k: int)
    requires
        0 <= k <= pids.len(),
        forall|j: int| 0 <= j < k ==> pids[j] != pid,
        pids.contains(pid),
    ensures
        exists|i: int| 0 <= i < pids.len() && pids[i] == pid && forall|j: int| 0 <= j < i ==> pids[j] != pid,
    decreases pids.len() - k,
{
    if k < pids.len() {
        if pids[k] == pid {
            assert(0 <= k < pids.len() && pids[k] == pid && forall|j: int| 0 <= j < k ==> pids[j] != pid);
        } else {
            lemma_first_from(pids, pid, k + 1);
        }
    } else {
        let w = choose|w: int| 0 <= w < pids.len() && pids[w] == pid;
        assert(pids[w] != pid);
    }
}

/// A listed pid has a first position, where it stands.
pub proof fn lemma_first_position_found(pids: Seq<u32>, pid: u32)
    requires
        pids.contains(pid),
    ensures
        first_position(pids, pid) matches Some(i) && 0 <= i < pids.len() && pids[i] == pid,
{
    lemma_first_from(pids, pid, 0);
}

/// Where the process with `pid` stands in a list of pids: the first index at which it
/// occurs, or `None` when it is not listed.
pub fn get_idx(pids: &[u32], pid: u32) -> (r: Option<usize>)
    ensures
        match r {
            Some(i) => i < pids@.len() && pids@[i as int] == pid && forall|j: int|
                0 <= j < i ==> pids@[j] != pid,
            None => forall|j: int| 0 <= j < pids@.len() ==> pids@[j] != pid,
        },
{
    let mut i: usize = 0;
    while i < pids.len()
        invariant
            i <= pids@.len(),
            forall|j: int| 0 <= j < i ==> pids@[j] != pid,
        decreases pids@.len() - i,
    {
        if pids[i] == pid {
            return Some(i);
        }
        i = i + 1;
    }
    None
}

/// The selection after the list has been refreshed to `new_pids` (already in the list's
/// sort order). `selected_pid` is the pid of the process that was selected before.
/// An empty list has no selection. Otherwise, when the selection follows its process it
/// moves to where that process now stands; when it does not, it is kept and clamped to
/// the last index. Where that leaves no selection, the first line is selected.
pub open spec fn spec_selection_after_update(
    selection: Option<usize>,
    follow_selection: bool,
    selected_pid: Option<u32>,
    new_pids: Seq<u32>,
) -> Option<usize> {
    if new_pids.len() == 0 {
        None
    } else {
        let kept = if follow_selection {
            match selected_pid {
                Some(p) => match first_position(new_pids, p) {
                    Some(i) => Some(i as usize),
                    None => None,
                },
                None => None,
            }
        } else {
            match selection {
                Some(s) => if s > new_pids.len() - 1 {
                    Some((new_pids.len() - 1) as usize)
                } else {
                    Some(s)
                },
                None => None,
            }
        };
        match kept {
            Some(i) => Some(i),
            None => Some(0usize),
        }
    }
}

/// The selection after a refresh of the list (see `spec_selection_after_update`).
pub fn selection_after_update(
    selection: Option<usize>,
    follow_selection: bool,
    selected_pid: Option<u32>,
    new_pids: &[u32],
) -> (r: Option<usize>)
    ensures
        r == spec_selection_after_update(selection, follow_selection, selected_pid, new_pids@),
        r is None <==> new_pids@.len() == 0,
        r matches Some(i) ==> i < new_pids@.len(),
        follow_selection && selected_pid is Some && new_pids@.contains(selected_pid->0) ==> (r matches Some(
            i) && new_pids@[i as int] == selected_pid->0),
{
    if new_pids.len() == 0 {
        return None;
    }
    let mut new_selection = if follow_selection {
        match selected_pid {
            Some(p) => {
                let found = get_idx(new_pids, p);
                proof {
                    lemma_first_position(new_pids@, p, found);
                }
                found
            },
            None => None,
        }
    } else {
        match selection {
            Some(s) => {
                let max_idx = new_pids.len().saturating_sub(1);
                if s > max_idx {
                    Some(max_idx)
                } else {
                    Some(s)
                }
            },
            None => None,
        }
    };
    if new_selection.is_none() {
        new_selection = Some(0);
    }
    new_selection
}

/// The selection after the list has been sorted into the order `sorted_pids`: a
/// selection that follows its process moves to where that process now stands (none if it
/// is gone or nothing was selected); any other selection keeps its index.
pub open spec fn spec_selection_after_sort(
    selection: Option<usize>,
    follow_selection: bool,
    selected_pid: Option<u32>,
    sorted_pids: Seq<u32>,
) -> Option<usize> {
    if follow_selection {
        match selected_pid {
            Some(p) => match first_position(sorted_pids, p) {
                Some(i) => Some(i as usize),
                None => None,
            },
            None => None,
        }
    } else {
        selection
    }
}

/// The selection after a sort of the list (see `spec_selection_after_sort`).
pub fn selection_after_sort(
    selection: Option<usize>,
    follow_selection: bool,
    selected_pid: Option<u32>,
    sorted_pids: &[u32],
) -> (r: Option<usize>)
    ensures
        r == spec_selection_after_sort(selection, follow_selection, selected_pid, sorted_pids@),
        follow_selection && selected_pid is Some && sorted_pids@.contains(selected_pid->0) ==> (r matches Some(
            i) && sorted_pids@[i as int] == selected_pid->0),
{
    if follow_selection {
        match selected_pid {
            Some(p) => {
                let found = get_idx(sorted_pids, p);
                proof {
                    lemma_first_position(sorted_pids@, p, found);
                }
                found
            },
            None => None,
        }
    } else {
        selection
    }
}

} // verus!
