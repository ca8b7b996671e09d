use vstd::prelude::*;
use crate::models::SortOrdering;
use crate::models::items::process_filter::{
    chars_of, filter_matches, parse_filter, spec_filter_matches, spec_parse_filter,
};
use crate::models::items::process_item::ProcessItemSortOrder;

verus! {

/// What the process table knows of a process to filter and order it. `cpu_rank` orders
/// processes by processor use (a greater rank for a greater use); `cpu_test` is the
/// outcome of the current processor-use filter for this process (`None` where there is
/// none, or its number did not parse).
pub struct ProcessRow {
    pub pid: u32,
    pub name: String,
    pub cpu_rank: u32,
    pub memory_usage: u64,
    pub status: String,
    pub run_time: u64,
    pub cpu_test: Option<bool>,
}

/// Three-way comparison of two numbers: -1, 0 or 1.
pub open spec fn int_order(x: int, y: int) -> int {
    if x < y {
        -1
    } else if x > y {
        1
    } else {
        0
    }
}

/// Three-way lexicographic comparison of two texts by their characters, which orders
/// them as `String`'s `Ord` does.
pub open spec fn text_order(a: Seq<char>, b: Seq<char>) -> int
    decreases a.len(),
{
    if a.len() == 0 {
        if b.len() == 0 {
            0
        } else {
            -1
        }
    } else if b.len() == 0 {
        1
    } else if a[0] < b[0] {
        -1
    } else if a[0] > b[0] {
        1
    } else {
        text_order(a.drop_first(), b.drop_first())
    }
}

/// Text comparison is a total order: its result is -1, 0 or 1, it is zero exactly for
/// equal texts, swapping the texts negates it, and it is transitive.
pub proof fn lemma_text_order(a: Seq<char>, b: Seq<char>, c: Seq<char>)
    ensures
        -1 <= text_order(a, b) <= 1,
        text_order(a, b) == 0 <==> a == b,
        text_order(a, b) == -text_order(b, a),
        text_order(a, b) < 0 && text_order(b, c) < 0 ==> text_order(a, c) < 0,
    decreases a.len(),
{
    if a.len() > 0 && b.len() > 0 {
        if c.len() > 0 {
            lemma_text_order(a.drop_first(), b.drop_first(), c.drop_first());
        } else {
            lemma_text_order(a.drop_first(), b.drop_first(), c);
        }
        if a[0] == b[0] && a.drop_first() == b.drop_first() {
            assert(a =~= seq![a[0]] + a.drop_first());
            assert(b =~= seq![b[0]] + b.drop_first());
        }
    }
    if a.len() == 0 && b.len() == 0 {
        assert(a =~= b);
    }
}

/// How `a` compares with `b` in the order `sort`.
pub open spec fn row_order(a: ProcessRow, b: ProcessRow, sort: ProcessItemSortOrder) -> int {
    match sort {
        ProcessItemSortOrder::PidInc => int_order(a.pid as int, b.pid as int),
        ProcessItemSortOrder::PidDec => int_order(b.pid as int, a.pid as int),
        ProcessItemSortOrder::NameInc => text_order(a.name@, b.name@),
        ProcessItemSortOrder::NameDec => text_order(b.name@, a.name@),
        ProcessItemSortOrder::CpuUsageInc => int_order(a.cpu_rank as int, b.cpu_rank as int),
        ProcessItemSortOrder::CpuUsageDec => int_order(b.cpu_rank as int, a.cpu_rank as int),
        ProcessItemSortOrder::MemoryUsageInc => int_order(a.memory_usage as int, b.memory_usage as int),
        ProcessItemSortOrder::MemoryUsageDec => int_order(b.memory_usage as int, a.memory_usage as int),
        ProcessItemSortOrder::StatusInc => text_order(a.status@, b.status@),
        ProcessItemSortOrder::StatusDec => text_order(b.status@, a.status@),
        ProcessItemSortOrder::RuntimeInc => int_order(a.run_time as int, b.run_time as int),
        ProcessItemSortOrder::RuntimeDec => int_order(b.run_time as int, a.run_time as int),
    }
}

/// Each order of rows is a total preorder: swapping negates the comparison, and the
/// comparison is transitive, strictly where one step is strict.
pub proof fn lemma_row_order(a: ProcessRow, b: ProcessRow, c: ProcessRow, sort: ProcessItemSortOrder)
    ensures
        -1 <= row_order(a, b, sort) <= 1,
        row_order(a, b, sort) == -row_order(b, a, sort),
        row_order(a, b, sort) <= 0 && row_order(b, c, sort) <= 0 ==> row_order(a, c, sort) <= 0,
        row_order(a, b, sort) < 0 && row_order(b, c, sort) <= 0 ==> row_order(a, c, sort) < 0,
        row_order(a, b, sort) <= 0 && row_order(b, c, sort) < 0 ==> row_order(a, c, sort) < 0,
{
    match sort {
        ProcessItemSortOrder::NameInc => {
            lemma_text_order(a.name@, b.name@, c.name@);
            lemma_text_order(a.name@, c.name@, b.name@);
            lemma_text_order(b.name@, c.name@, a.name@);
        },
        ProcessItemSortOrder::NameDec => {
            lemma_text_order(c.name@, b.name@, a.name@);
            lemma_text_order(a.name@, c.name@, b.name@);
            lemma_text_order(b.name@, a.name@, c.name@);
        },
        ProcessItemSortOrder::StatusInc => {
            lemma_text_order(a.status@, b.status@, c.status@);
            lemma_text_order(a.status@, c.status@, b.status@);
            lemma_text_order(b.status@, c.status@, a.status@);
        },
        ProcessItemSortOrder::StatusDec => {
            lemma_text_order(c.status@, b.status@, a.status@);
            lemma_text_order(a.status@, c.status@, b.status@);
            lemma_text_order(b.status@, a.status@, c.status@);
        },
        _ => {},
    }
}

/// Each order sorts by the column it is named after, in the direction it is named
/// after: a row with the smaller pid, processor rank, memory use or run time comes first
/// in the increasing order and last in the decreasing one, a name or status with a
/// smaller first character likewise, and equal values tie.
pub proof fn lemma_orders_follow_their_names(a: ProcessRow, b: ProcessRow)
    ensures
        a.pid < b.pid ==> row_order(a, b, ProcessItemSortOrder::PidInc) < 0 && row_order(
            a,
            b,
            ProcessItemSortOrder::PidDec,
        ) > 0,
        a.cpu_rank < b.cpu_rank ==> row_order(a, b, ProcessItemSortOrder::CpuUsageInc) < 0 && row_order(
            a,
            b,
            ProcessItemSortOrder::CpuUsageDec,
        ) > 0,
        a.memory_usage < b.memory_usage ==> row_order(a, b, ProcessItemSortOrder::MemoryUsageInc) < 0
            && row_order(a, b, ProcessItemSortOrder::MemoryUsageDec) > 0,
        a.run_time < b.run_time ==> row_order(a, b, ProcessItemSortOrder::RuntimeInc) < 0 && row_order(
            a,
            b,
            ProcessItemSortOrder::RuntimeDec,
        ) > 0,
        a.name@.len() > 0 && b.name@.len() > 0 && a.name@[0] < b.name@[0] ==> row_order(
            a,
            b,
            ProcessItemSortOrder::NameInc,
        ) < 0 && row_order(a, b, ProcessItemSortOrder::NameDec) > 0,
        a.status@.len() > 0 && b.status@.len() > 0 && a.status@[0] < b.status@[0] ==> row_order(
            a,
            b,
            ProcessItemSortOrder::StatusInc,
        ) < 0 && row_order(a, b, ProcessItemSortOrder::StatusDec) > 0,
        a.pid == b.pid ==> row_order(a, b, ProcessItemSortOrder::PidInc) == 0,
        a.memory_usage == b.memory_usage ==> row_order(a, b, ProcessItemSortOrder::MemoryUsageInc) == 0,
        a.cpu_rank == b.cpu_rank ==> row_order(a, b, ProcessItemSortOrder::CpuUsageInc) == 0,
{
}

/// In a table sorted by a numeric column the rows on show go up (increasing order) or
/// down (decreasing order) along that column.
pub proof fn lemma_sorted_table_is_monotone(
    view: Seq<usize>,
    rows: Seq<ProcessRow>,
    sort: ProcessItemSortOrder,
    filter: Option<Seq<char>>,
    a: int,
    b: int,
)
    requires
        is_table_view(view, rows, Some(sort), filter),
        0 <= a < b < view.len(),
    ensures
        sort == ProcessItemSortOrder::PidInc ==> rows[view[a] as int].pid <= rows[view[b] as int].pid,
        sort == ProcessItemSortOrder::PidDec ==> rows[view[a] as int].pid >= rows[view[b] as int].pid,
        sort == ProcessItemSortOrder::CpuUsageInc ==> rows[view[a] as int].cpu_rank <= rows[view[b] as int].cpu_rank,
        sort == ProcessItemSortOrder::CpuUsageDec ==> rows[view[a] as int].cpu_rank >= rows[view[b] as int].cpu_rank,
        sort == ProcessItemSortOrder::MemoryUsageInc ==> rows[view[a] as int].memory_usage
            <= rows[view[b] as int].memory_usage,
        sort == ProcessItemSortOrder::MemoryUsageDec ==> rows[view[a] as int].memory_usage
            >= rows[view[b] as int].memory_usage,
        sort == ProcessItemSortOrder::RuntimeInc ==> rows[view[a] as int].run_time <= rows[view[b] as int].run_time,
        sort == ProcessItemSortOrder::RuntimeDec ==> rows[view[a] as int].run_time >= rows[view[b] as int].run_time,
{
    assert(before(rows, Some(sort), view[a] as int, view[b] as int));
}

/// Whether row `i` comes before row `j` in the table: by the sort order, and by their
/// place in the list where the order ties or there is none.
pub open spec fn before(rows: Seq<ProcessRow>, sort: Option<ProcessItemSortOrder>, i: int, j: int) -> bool {
    match sort {
        None => i < j,
        Some(s) => row_order(rows[i], rows[j], s) < 0 || (row_order(rows[i], rows[j], s) == 0 && i < j),
    }
}

/// `before` is a strict total order on the rows.
pub proof fn lemma_before(rows: Seq<ProcessRow>, sort: Option<ProcessItemSortOrder>, i: int, j: int, k: int)
    ensures
        !before(rows, sort, i, i),
        i != j ==> (before(rows, sort, i, j) <==> !before(rows, sort, j, i)),
        before(rows, sort, i, j) && before(rows, sort, j, k) ==> before(rows, sort, i, k),
{
    if let Some(s) = sort {
        lemma_row_order(rows[i], rows[j], rows[k], s);
        lemma_row_order(rows[i], rows[i], rows[i], s);
        lemma_row_order(rows[j], rows[i], rows[k], s);
    }
}

/// Whether a row passes the filter text, if there is one.
pub open spec fn row_passes(row: ProcessRow, filter: Option<Seq<char>>) -> bool {
    match filter {
        None => true,
        Some(f) => spec_filter_matches(
            spec_parse_filter(f),
            f,
            row.pid,
            row.memory_usage,
            row.name@,
            row.cpu_test,
        ),
    }
}

/// Whether `view` lists the rows on show: the indices of exactly the rows that pass the
/// filter, each once, ordered by `before`.
pub open spec fn is_table_view(
    view: Seq<usize>,
    rows: Seq<ProcessRow>,
    sort: Option<ProcessItemSortOrder>,
    filter: Option<Seq<char>>,
) -> bool {
    &&& forall|a: int, b: int|
        0 <= a < b < view.len() ==> before(rows, sort, #[trigger] view[a] as int, #[trigger] view[b] as int)
    &&& forall|a: int| 0 <= a < view.len() ==> #[trigger] view[a] < rows.len()
    &&& forall|j: int|
        0 <= j < rows.len() ==> (row_passes(#[trigger] rows[j], filter) <==> view.contains(j as usize))
}

/// Two lists of rows, each ordered strictly by `before`, that hold the same rows are the
/// same list.
proof fn lemma_ordered_lists_equal(
    a: Seq<usize>,
    b: Seq<usize>,
    rows: Seq<ProcessRow>,
    sort: Option<ProcessItemSortOrder>,
)
    requires
        forall|i: int, j: int| 0 <= i < j < a.len() ==> before(rows, sort, #[trigger] a[i] as int, #[trigger] a[j] as int),
        forall|i: int, j: int| 0 <= i < j < b.len() ==> before(rows, sort, #[trigger] b[i] as int, #[trigger] b[j] as int),
        forall|x: usize| a.contains(x) <==> b.contains(x),
    ensures
        a == b,
    decreases a.len(),
{
    if a.len() == 0 {
        if b.len() > 0 {
            assert(b.contains(b[0]));
        }
        assert(a =~= b);
    } else {
        assert(a.contains(a[0]));
        assert(b.len() > 0);
        assert(b.contains(b[0]));
        if a[0] != b[0] {
            let k = choose|k: int| 0 <= k < a.len() && a[k] == b[0];
            let m = choose|m: int| 0 <= m < b.len() && b[m] == a[0];
            assert(k > 0 && m > 0);
            assert(before(rows, sort, a[0] as int, a[k] as int));
            assert(before(rows, sort, b[0] as int, b[m] as int));
            lemma_before(rows, sort, a[0] as int, b[0] as int, a[0] as int);
        }
        let a1 = a.drop_first();
        let b1 = b.drop_first();
        assert forall|x: usize| a1.contains(x) implies b1.contains(x) by {
            let j = choose|j: int| 0 <= j < a1.len() && a1[j] == x;
            assert(a[j + 1] == x);
            lemma_before(rows, sort, a[0] as int, a[0] as int, a[0] as int);
            assert(before(rows, sort, a[0] as int, a[j + 1] as int));
            assert(b.contains(x));
            let w = choose|w: int| 0 <= w < b.len() && b[w] == x;
            assert(w != 0);
            assert(b1[w - 1] == x);
        }
        assert forall|x: usize| b1.contains(x) implies a1.contains(x) by {
            let j = choose|j: int| 0 <= j < b1.len() && b1[j] == x;
            assert(b[j + 1] == x);
            lemma_before(rows, sort, b[0] as int, b[0] as int, b[0] as int);
            assert(before(rows, sort, b[0] as int, b[j + 1] as int));
            assert(a.contains(x));
            let w = choose|w: int| 0 <= w < a.len() && a[w] == x;
            assert(w != 0);
            assert(a1[w - 1] == x);
        }
        lemma_ordered_lists_equal(a1, b1, rows, sort);
        assert(a =~= seq![a[0]] + a1);
        assert(b =~= seq![b[0]] + b1);
    }
}

/// The rows on show are determined by the rows, the filter and the sort order: two lists
/// that both qualify are the same.
pub proof fn lemma_table_view_unique(
    v1: Seq<usize>,
    v2: Seq<usize>,
    rows: Seq<ProcessRow>,
    sort: Option<ProcessItemSortOrder>,
    filter: Option<Seq<char>>,
)
    requires
        is_table_view(v1, rows, sort, filter),
        is_table_view(v2, rows, sort, filter),
    ensures
        v1 == v2,
{
    assert forall|x: usize| v1.contains(x) implies v2.contains(x) by {
        let j = choose|j: int| 0 <= j < v1.len() && v1[j] == x;
        assert(v1[j] < rows.len());
        assert(row_passes(rows[x as int], filter));
    }
    assert forall|x: usize| v2.contains(x) implies v1.contains(x) by {
        let j = choose|j: int| 0 <= j < v2.len() && v2[j] == x;
        assert(v2[j] < rows.len());
        assert(row_passes(rows[x as int], filter));
    }
    lemma_ordered_lists_equal(v1, v2, rows, sort);
}

/// Compares two texts character by character (see `text_order`).
pub fn compare_text(a: &str, b: &str) -> (r: SortOrdering)
    ensures
        r == (if text_order(a@, b@) < 0 {
            SortOrdering::Less
        } else if text_order(a@, b@) > 0 {
            SortOrdering::Greater
        } else {
            SortOrdering::Equal
        }),
{
    let x = chars_of(a);
    let y = chars_of(b);
    let mut i: usize = 0;
    assert(a@.skip(0) =~= a@);
    assert(b@.skip(0) =~= b@);
    while i < x.len() && i < y.len()
        invariant
            i <= x@.len(),
            i <= y@.len(),
            x@ == a@,
            y@ == b@,
            text_order(a@, b@) == text_order(a@.skip(i as int), b@.skip(i as int)),
        decreases x@.len() - i,
    {
        let ghost sa = a@.skip(i as int);
        let ghost sb = b@.skip(i as int);
        assert(sa[0] == x@[i as int]);
        assert(sb[0] == y@[i as int]);
        if x[i] < y[i] {
            return SortOrdering::Less;
        }
        if x[i] > y[i] {
            return SortOrdering::Greater;
        }
        assert(sa.drop_first() =~= a@.skip(i + 1));
        assert(sb.drop_first() =~= b@.skip(i + 1));
        i = i + 1;
    }
    if i < x.len() {
        SortOrdering::Greater
    } else if i < y.len() {
        SortOrdering::Less
    } else {
        SortOrdering::Equal
    }
}

fn compare_numbers(x: u64, y: u64) -> (r: SortOrdering)
    ensures
        r == (if int_order(x as int, y as int) < 0 {
            SortOrdering::Less
        } else if int_order(x as int, y as int) > 0 {
            SortOrdering::Greater
        } else {
            SortOrdering::Equal
        }),
{
    if x < y {
        SortOrdering::Less
    } else if x > y {
        SortOrdering::Greater
    } else {
        SortOrdering::Equal
    }
}

/// Compares two rows in the order `sort` (see `row_order`).
pub fn compare_rows(a: &ProcessRow, b: &ProcessRow, sort: ProcessItemSortOrder) -> (r: SortOrdering)
    ensures
        r == (if row_order(*a, *b, sort) < 0 {
            SortOrdering::Less
        } else if row_order(*a, *b, sort) > 0 {
            SortOrdering::Greater
        } else {
            SortOrdering::Equal
        }),
{
    match sort {
        ProcessItemSortOrder::PidInc => compare_numbers(a.pid as u64, b.pid as u64),
        ProcessItemSortOrder::PidDec => compare_numbers(b.pid as u64, a.pid as u64),
        ProcessItemSortOrder::NameInc => compare_text(a.name.as_str(), b.name.as_str()),
        ProcessItemSortOrder::NameDec => compare_text(b.name.as_str(), a.name.as_str()),
        ProcessItemSortOrder::CpuUsageInc => compare_numbers(a.cpu_rank as u64, b.cpu_rank as u64),
        ProcessItemSortOrder::CpuUsageDec => compare_numbers(b.cpu_rank as u64, a.cpu_rank as u64),
        ProcessItemSortOrder::MemoryUsageInc => compare_numbers(a.memory_usage, b.memory_usage),
        ProcessItemSortOrder::MemoryUsageDec => compare_numbers(b.memory_usage, a.memory_usage),
        ProcessItemSortOrder::StatusInc => compare_text(a.status.as_str(), b.status.as_str()),
        ProcessItemSortOrder::StatusDec => compare_text(b.status.as_str(), a.status.as_str()),
        ProcessItemSortOrder::RuntimeInc => compare_numbers(a.run_time, b.run_time),
        ProcessItemSortOrder::RuntimeDec => compare_numbers(b.run_time, a.run_time),
    }
}

/// Whether row `i` comes before row `j` (see `before`).
fn comes_before(rows: &Vec<ProcessRow>, sort: Option<ProcessItemSortOrder>, i: usize, j: usize) -> (r: bool)
    requires
        i < rows@.len(),
        j < rows@.len(),
    ensures
        r == before(rows@, sort, i as int, j as int),
{
    match sort {
        None => i < j,
        Some(s) => match compare_rows(&rows[i], &rows[j], s) {
            SortOrdering::Less => true,
            SortOrdering::Equal => i < j,
            SortOrdering::Greater => false,
        },
    }
}

/// Whether the row passes the filter text, if there is one (see `row_passes`).
pub fn passes_filter(row: &ProcessRow, filter: Option<&str>) -> (r: bool)
    ensures
        r == row_passes(
            *row,
            match filter {
                Some(f) => Some(f@),
                None => None,
            },
        ),
{
    match filter {
        None => true,
        Some(f) => {
            let query = parse_filter(f);
            filter_matches(&query, f, row.pid, row.memory_usage, row.name.as_str(), row.cpu_test)
        },
    }
}

/// The rows on show: the indices of the rows that pass the filter, ordered by the sort
/// order and then by their place in the list.
pub fn table_view(rows: &Vec<ProcessRow>, sort: Option<ProcessItemSortOrder>, filter: Option<&str>) -> (r: Vec<usize>)
    ensures
        is_table_view(
            r@,
            rows@,
            sort,
            match filter {
                Some(f) => Some(f@),
                None => None,
            },
        ),
{
    let ghost fv: Option<Seq<char>> = match filter {
        Some(f) => Some(f@),
        None => None,
    };
    let mut view: Vec<usize> = Vec::new();
    let mut i: usize = 0;
    while i < rows.len()
        invariant
            i <= rows@.len(),
            fv == (match filter {
                Some(f) => Some(f@),
                None => None,
            }),
            forall|a: int, b: int|
                0 <= a < b < view@.len() ==> before(rows@, sort, #[trigger] view@[a] as int, #[trigger] view@[b] as int),
            forall|a: int| 0 <= a < view@.len() ==> #[trigger] view@[a] < i,
            forall|j: int|
                0 <= j < i ==> (row_passes(#[trigger] rows@[j], fv) <==> view@.contains(j as usize)),
        decreases rows@.len() - i,
    {
        if passes_filter(&rows[i], filter) {
            let mut p: usize = 0;
            while p < view.len() && !comes_before(rows, sort, i, view[p])
                invariant
                    p <= view@.len(),
                    i < rows@.len(),
                    forall|a: int| 0 <= a < view@.len() ==> #[trigger] view@[a] < i,
                    forall|a: int| 0 <= a < p ==> !before(rows@, sort, i as int, #[trigger] view@[a] as int),
                decreases view@.len() - p,
            {
                p = p + 1;
            }
            let ghost old_view = view@;
            proof {
                assert forall|a: int| 0 <= a < p implies before(rows@, sort, #[trigger] old_view[a] as int, i as int) by {
                    lemma_before(rows@, sort, i as int, old_view[a] as int, i as int);
                }
                assert forall|a: int| p <= a < old_view.len() implies before(rows@, sort, i as int, #[trigger] old_view[a] as int) by {
                    if a > p {
                        assert(before(rows@, sort, old_view[p as int] as int, old_view[a] as int));
                        lemma_before(rows@, sort, i as int, old_view[p as int] as int, old_view[a] as int);
                    }
                }
            }
            view.insert(p, i);
            proof {
                let nv = view@;
                assert(nv == old_view.insert(p as int, i));
                assert forall|a: int, b: int| 0 <= a < b < nv.len() implies before(rows@, sort, #[trigger] nv[a] as int, #[trigger] nv[b] as int) by {
                    if a < p && b < p {
                        assert(nv[a] == old_view[a] && nv[b] == old_view[b]);
                    } else if a < p && b == p {
                    } else if a < p && b > p {
                        assert(nv[a] == old_view[a] && nv[b] == old_view[b - 1]);
                    } else if a == p {
                        assert(nv[b] == old_view[b - 1]);
                    } else {
                        assert(nv[a] == old_view[a - 1] && nv[b] == old_view[b - 1]);
                    }
                }
                assert forall|j: int| 0 <= j <= i implies (row_passes(#[trigger] rows@[j], fv) <==> nv.contains(j as usize)) by {
                    if j < i {
                        if old_view.contains(j as usize) {
                            let w = choose|w: int| 0 <= w < old_view.len() && old_view[w] == j as usize;
                            if w < p {
                                assert(nv[w] == j as usize);
                            } else {
                                assert(nv[w + 1] == j as usize);
                            }
                        }
                        if nv.contains(j as usize) {
                            let w = choose|w: int| 0 <= w < nv.len() && nv[w] == j as usize;
                            if w < p {
                                assert(old_view[w] == j as usize);
                            } else if w > p {
                                assert(old_view[w - 1] == j as usize);
                            }
                        }
                    } else {
                        assert(nv[p as int] == i);
                    }
                }
            }
        } else {
            proof {
                assert(!view@.contains(i));
            }
        }
        i = i + 1;
    }
    view
}

/// A copy of a row.
pub fn copy_row(row: &ProcessRow) -> (r: ProcessRow)
    ensures
        r == *row,
{
    ProcessRow {
        pid: row.pid,
        name: row.name.clone(),
        cpu_rank: row.cpu_rank,
        memory_usage: row.memory_usage,
        status: row.status.clone(),
        run_time: row.run_time,
        cpu_test: row.cpu_test,
    }
}

/// Whether `sorted` lists the rows `rows` in the order `sort`, rows that tie keeping
/// their order.
pub open spec fn is_sorted_copy(sorted: Seq<ProcessRow>, rows: Seq<ProcessRow>, sort: ProcessItemSortOrder) -> bool {
    exists|view: Seq<usize>|
        {
            &&& is_table_view(view, rows, Some(sort), None)
            &&& sorted == view.map_values(|k: usize| rows[k as int])
        }
}

/// A sorted copy holds as many rows as were sorted: every row once.
pub proof fn lemma_sorted_copy_len(sorted: Seq<ProcessRow>, rows: Seq<ProcessRow>, sort: ProcessItemSortOrder)
    requires
        is_sorted_copy(sorted, rows, sort),
        rows.len() <= usize::MAX,
    ensures
        sorted.len() == rows.len(),
{
    let view = choose|view: Seq<usize>|
        {
            &&& is_table_view(view, rows, Some(sort), None)
            &&& sorted == view.map_values(|k: usize| rows[k as int])
        };
    let iv = view.map_values(|x: usize| x as int);
    assert(iv.no_duplicates()) by {
        assert forall|a: int, b: int| 0 <= a < iv.len() && 0 <= b < iv.len() && a != b implies iv[a] != iv[b] by {
            lemma_before(rows, Some(sort), view[a] as int, view[a] as int, view[a] as int);
            if a < b {
                assert(before(rows, Some(sort), view[a] as int, view[b] as int));
            } else {
                assert(before(rows, Some(sort), view[b] as int, view[a] as int));
            }
        }
    }
    assert(iv.to_set() =~= vstd::set_lib::set_int_range(0, rows.len() as int)) by {
        assert forall|x: int| iv.to_set().contains(x) implies 0 <= x < rows.len() by {
            let i = choose|i: int| 0 <= i < iv.len() && iv[i] == x;
            assert(view[i] < rows.len());
        }
        assert forall|x: int| 0 <= x < rows.len() implies iv.to_set().contains(x) by {
            assert(row_passes(rows[x], None));
            assert(view.contains(x as usize));
            let i = choose|i: int| 0 <= i < view.len() && view[i] == x as usize;
            assert(iv[i] == x);
        }
    }
    iv.unique_seq_to_set();
    vstd::set_lib::lemma_int_range(0, rows.len() as int);
}

/// Sorting again in the same order changes nothing: a sorted copy of a sorted copy is the
/// same list.
pub proof fn lemma_sort_idempotent(
    first: Seq<ProcessRow>,
    second: Seq<ProcessRow>,
    rows: Seq<ProcessRow>,
    sort: ProcessItemSortOrder,
)
    requires
        is_sorted_copy(first, rows, sort),
        is_sorted_copy(second, first, sort),
        rows.len() <= usize::MAX,
    ensures
        second == first,
{
    lemma_sorted_copy_len(first, rows, sort);
    let v1 = choose|view: Seq<usize>|
        {
            &&& is_table_view(view, rows, Some(sort), None)
            &&& first == view.map_values(|k: usize| rows[k as int])
        };
    let v2 = choose|view: Seq<usize>|
        {
            &&& is_table_view(view, first, Some(sort), None)
            &&& second == view.map_values(|k: usize| first[k as int])
        };
    let n = first.len();
    let id = Seq::new(n, |i: int| i as usize);
    assert forall|a: int, b: int| 0 <= a < b < id.len() implies before(first, Some(sort), #[trigger] id[a] as int, #[trigger] id[b] as int) by {
        assert(before(rows, Some(sort), v1[a] as int, v1[b] as int));
        assert(first[a] == rows[v1[a] as int]);
        assert(first[b] == rows[v1[b] as int]);
    }
    assert forall|j: int| 0 <= j < first.len() implies (row_passes(#[trigger] first[j], None) <==> id.contains(j as usize)) by {
        assert(id[j] == j as usize);
    }
    assert(is_table_view(id, first, Some(sort), None));
    lemma_table_view_unique(v2, id, first, Some(sort), None);
    assert(second =~= first);
}

/// The rows in the order `sort`, rows that tie keeping their order (a stable sort).
pub fn sort_rows(rows: &Vec<ProcessRow>, sort: ProcessItemSortOrder) -> (r: Vec<ProcessRow>)
    ensures
        is_sorted_copy(r@, rows@, sort),
        r@.len() == rows@.len(),
{
    let view = table_view(rows, Some(sort), None);
    let mut sorted: Vec<ProcessRow> = Vec::new();
    let mut k: usize = 0;
    while k < view.len()
        invariant
            k <= view@.len(),
            forall|a: int| 0 <= a < view@.len() ==> #[trigger] view@[a] < rows@.len(),
            sorted@ == view@.take(k as int).map_values(|j: usize| rows@[j as int]),
        decreases view@.len() - k,
    {
        let row = copy_row(&rows[view[k]]);
        sorted.push(row);
        assert(view@.take(k + 1) =~= view@.take(k as int).push(view@[k as int]));
        assert(sorted@ =~= view@.take(k + 1).map_values(|j: usize| rows@[j as int]));
        k = k + 1;
    }
    assert(view@.take(k as int) =~= view@);
    let total = rows.len();
    proof {
        lemma_sorted_copy_len(sorted@, rows@, sort);
    }
    sorted
}

} // verus!
