use vstd::prelude::*;

verus! {

/// How a number in a filter is compared: the process's value is greater than, less than,
/// or equal to the threshold.
#[derive(PartialEq, Eq, Structural, Clone, Copy, Debug)]
pub enum Comparison {
    Greater,
    Less,
    Equal,
}

/// What a filter text asks for. `pid>N`, `pid<N`, `pid=N` compare the pid; `cpu>X`,
/// `cpu<X`, `cpu=X` compare the processor use with the number written after the
/// operator; `mem>N`, `mem<N`, `mem=N` compare the memory use in megabytes (10^6 bytes);
/// any other text is looked for in the name, ignoring case. Spaces round a number are
/// ignored; a number that does not parse makes the text a name filter.
#[derive(PartialEq, Eq, Clone, Debug)]
pub enum ProcessFilter {
    Pid(Comparison, u32),
    /// The number's text, to be read as a floating-point number by the caller.
    Cpu(Comparison, Vec<char>),
    Memory(Comparison, u64),
    Name,
}

/// What a filter text asks for, by value.
pub enum FilterKind {
    Pid(Comparison, u32),
    Cpu(Comparison, Seq<char>),
    Memory(Comparison, u64),
    Name,
}

impl View for ProcessFilter {
    type V = FilterKind;

    open spec fn view(&self) -> FilterKind {
        match self {
            ProcessFilter::Pid(op, t) => FilterKind::Pid(*op, *t),
            ProcessFilter::Cpu(op, text) => FilterKind::Cpu(*op, text@),
            ProcessFilter::Memory(op, t) => FilterKind::Memory(*op, *t),
            ProcessFilter::Name => FilterKind::Name,
        }
    }
}

/// Whether `c` has the Unicode `White_Space` property (`char::is_whitespace`): tab, line
/// feed, vertical tab, form feed, carriage return, space, next line, no-break space,
/// ogham space mark, the spaces from en quad to hair space, line and paragraph
/// separators, narrow no-break space, medium mathematical space and ideographic space.
pub open spec fn char_is_whitespace(c: char) -> bool {
    let u = c as u32;
    ||| 0x9 <= u && u <= 0xd
    ||| u == 0x20
    ||| u == 0x85
    ||| u == 0xa0
    ||| u == 0x1680
    ||| 0x2000 <= u && u <= 0x200a
    ||| u == 0x2028
    ||| u == 0x2029
    ||| u == 0x202f
    ||| u == 0x205f
    ||| u == 0x3000
}

/// `char::is_whitespace`. Its documentation defines it by the Unicode `White_Space`
/// property, whose code points `char_is_whitespace` lists.
#[verifier::external_body]
fn is_whitespace(c: char) -> (r: bool)
    ensures
        r == char_is_whitespace(c),
{
    c.is_whitespace()
}

/// The lowercase form of a text by Unicode's mapping (`str::to_lowercase`).
pub uninterp spec fn lowercase_text(s: Seq<char>) -> Seq<char>;

/// Every character of `s` is ASCII.
pub open spec fn is_ascii_text(s: Seq<char>) -> bool {
    forall|i: int| 0 <= i < s.len() ==> (#[trigger] s[i] as u32) < 128
}

/// `c` with `A`..`Z` mapped to `a`..`z`.
pub open spec fn ascii_lower_char(c: char) -> char {
    if 'A' <= c && c <= 'Z' {
        ((c as u32) + 32) as char
    } else {
        c
    }
}

/// `s` with `A`..`Z` mapped to `a`..`z` and every other character kept.
pub open spec fn ascii_lowercase(s: Seq<char>) -> Seq<char> {
    s.map_values(|c: char| ascii_lower_char(c))
}

/// `str::to_lowercase`: the text with each character replaced by its Unicode lowercase
/// mapping. What the mapping gives is left to the name, except that an ASCII text maps
/// `A`..`Z` to `a`..`z` and keeps every other character.
#[verifier::external_body]
fn to_lowercase(s: &str) -> (r: String)
    ensures
        r@ == lowercase_text(s@),
        is_ascii_text(s@) ==> r@ == ascii_lowercase(s@),
{
    s.to_lowercase()
}

/// `s` without its leading whitespace.
pub open spec fn trim_start(s: Seq<char>) -> Seq<char>
    decreases s.len(),
{
    if s.len() > 0 && char_is_whitespace(s[0]) {
        trim_start(s.drop_first())
    } else {
        s
    }
}

/// `s` without its trailing whitespace.
pub open spec fn trim_end(s: Seq<char>) -> Seq<char>
    decreases s.len(),
{
    if s.len() > 0 && char_is_whitespace(s.last()) {
        trim_end(s.drop_last())
    } else {
        s
    }
}

/// `s` without leading and trailing whitespace (`str::trim`).
pub open spec fn trim(s: Seq<char>) -> Seq<char> {
    trim_end(trim_start(s))
}

pub open spec fn is_digit(c: char) -> bool {
    '0' <= c && c <= '9'
}

/// Every character of `s` is a decimal digit.
pub open spec fn all_digits(s: Seq<char>) -> bool {
    forall|i: int| 0 <= i < s.len() ==> is_digit(#[trigger] s[i])
}

/// The value of a string of decimal digits.
pub open spec fn digits_value(s: Seq<char>) -> nat
    decreases s.len(),
{
    if s.len() == 0 {
        0
    } else {
        digits_value(s.drop_last()) * 10 + ((s.last() as u32) - ('0' as u32)) as nat
    }
}

/// The number written in `s`, as `str::parse` reads an unsigned integer no larger than
/// `max`: an optional `+`, then one or more decimal digits, nothing else; `None` for any
/// other text or a value above `max`.
pub open spec fn parse_unsigned(s: Seq<char>, max: nat) -> Option<nat> {
    let digits = if s.len() > 0 && s[0] == '+' { s.drop_first() } else { s };
    if digits.len() > 0 && all_digits(digits) && digits_value(digits) <= max {
        Some(digits_value(digits))
    } else {
        None
    }
}

/// The comparison that the operator character `c` stands for.
pub open spec fn comparison_of(c: char) -> Option<Comparison> {
    if c == '>' {
        Some(Comparison::Greater)
    } else if c == '<' {
        Some(Comparison::Less)
    } else if c == '=' {
        Some(Comparison::Equal)
    } else {
        None
    }
}

/// Whether `s` starts with the three characters `a`, `b`, `c` and an operator.
pub open spec fn has_prefix(s: Seq<char>, a: char, b: char, c: char) -> bool {
    s.len() >= 4 && s[0] == a && s[1] == b && s[2] == c && comparison_of(s[3]) is Some
}

/// What the filter text `f` asks for.
pub open spec fn spec_parse_filter(f: Seq<char>) -> FilterKind {
    let rest = trim(f.skip(4));
    if has_prefix(f, 'p', 'i', 'd') && parse_unsigned(rest, u32::MAX as nat) is Some {
        FilterKind::Pid(comparison_of(f[3])->0, parse_unsigned(rest, u32::MAX as nat)->0 as u32)
    } else if has_prefix(f, 'c', 'p', 'u') {
        FilterKind::Cpu(comparison_of(f[3])->0, rest)
    } else if has_prefix(f, 'm', 'e', 'm') && parse_unsigned(rest, u64::MAX as nat) is Some {
        FilterKind::Memory(comparison_of(f[3])->0, parse_unsigned(rest, u64::MAX as nat)->0 as u64)
    } else {
        FilterKind::Name
    }
}

/// Whether `text` occurs in `s` (`str::contains` with a text pattern).
pub open spec fn occurs_in(s: Seq<char>, text: Seq<char>) -> bool {
    exists|i: int| 0 <= i && i + text.len() <= s.len() && #[trigger] s.subrange(i, i + text.len()) == text
}

/// Whether `value` compares with `threshold` as `op` asks.
pub open spec fn compares(op: Comparison, value: int, threshold: int) -> bool {
    match op {
        Comparison::Greater => value > threshold,
        Comparison::Less => value < threshold,
        Comparison::Equal => value == threshold,
    }
}

/// Whether a process with the given pid, memory use in bytes and name passes a filter.
/// For a processor-use filter `cpu_test` is the result of the comparison, or `None` where
/// the number did not parse, in which case the text is looked for in the name.
pub open spec fn spec_filter_matches(
    query: FilterKind,
    filter: Seq<char>,
    pid: u32,
    memory_usage: u64,
    name: Seq<char>,
    cpu_test: Option<bool>,
) -> bool {
    let by_name = occurs_in(lowercase_text(name), lowercase_text(filter));
    match query {
        FilterKind::Pid(op, threshold) => compares(op, pid as int, threshold as int),
        FilterKind::Memory(op, threshold) => compares(
            op,
            memory_usage as int / 1000000,
            threshold as int,
        ),
        FilterKind::Cpu(_, _) => match cpu_test {
            Some(b) => b,
            None => by_name,
        },
        FilterKind::Name => by_name,
    }
}

/// A filter `mem>N`, `mem<N` or `mem=N` (N a number) lets a process through exactly when
/// its memory use in whole megabytes (10^6 bytes), on the left of the operator, is
/// greater than, less than or equal to N; `pid>N`, `pid<N`, `pid=N` likewise compare the
/// pid, on the left, with N. What else the process shows plays no part.
pub proof fn lemma_number_filters_compare_the_process_value(
    f: Seq<char>,
    pid: u32,
    memory_usage: u64,
    name: Seq<char>,
    cpu_test: Option<bool>,
)
    requires
        f.len() >= 4,
    ensures
        f[0] == 'm' && f[1] == 'e' && f[2] == 'm' && parse_unsigned(trim(f.skip(4)), u64::MAX as nat) is Some
            ==> ({
            let n = parse_unsigned(trim(f.skip(4)), u64::MAX as nat)->0;
            let passes = spec_filter_matches(spec_parse_filter(f), f, pid, memory_usage, name, cpu_test);
            &&& f[3] == '>' ==> (passes <==> memory_usage / 1000000 > n)
            &&& f[3] == '<' ==> (passes <==> memory_usage / 1000000 < n)
            &&& f[3] == '=' ==> (passes <==> memory_usage / 1000000 == n)
        }),
        f[0] == 'p' && f[1] == 'i' && f[2] == 'd' && parse_unsigned(trim(f.skip(4)), u32::MAX as nat) is Some
            ==> ({
            let n = parse_unsigned(trim(f.skip(4)), u32::MAX as nat)->0;
            let passes = spec_filter_matches(spec_parse_filter(f), f, pid, memory_usage, name, cpu_test);
            &&& f[3] == '>' ==> (passes <==> pid > n)
            &&& f[3] == '<' ==> (passes <==> pid < n)
            &&& f[3] == '=' ==> (passes <==> pid == n)
        }),
{
}

pub(crate) fn chars_of(s: &str) -> (r: Vec<char>)
    ensures
        r@ == s@,
{
    let len = s.unicode_len();
    let mut r: Vec<char> = Vec::new();
    let mut i: usize = 0;
    while i < len
        invariant
            len == s@.len(),
            i <= len,
            r@ == s@.take(i as int),
        decreases len - i,
    {
        r.push(s.get_char(i));
        assert(s@.take(i as int + 1) =~= s@.take(i as int).push(s@[i as int]));
        i = i + 1;
    }
    assert(s@.take(len as int) =~= s@);
    r
}

proof fn lemma_trim_start_skip(s: Seq<char>, k: int)
    requires
        0 <= k <= s.len(),
        forall|j: int| 0 <= j < k ==> char_is_whitespace(#[trigger] s[j]),
    ensures
        trim_start(s) == trim_start(s.skip(k)),
    decreases k,
{
    if k > 0 {
        assert(s.drop_first().skip(k - 1) =~= s.skip(k));
        assert(char_is_whitespace(s[0]));
        lemma_trim_start_skip(s.drop_first(), k - 1);
    } else {
        assert(s.skip(0) =~= s);
    }
}

proof fn lemma_trim_end_take(s: Seq<char>, k: int)
    requires
        0 <= k <= s.len(),
        forall|j: int| k <= j < s.len() ==> char_is_whitespace(#[trigger] s[j]),
    ensures
        trim_end(s) == trim_end(s.take(k)),
    decreases s.len() - k,
{
    if k < s.len() {
        assert(s.drop_last().take(k) =~= s.take(k));
        assert(char_is_whitespace(s[s.len() - 1]));
        lemma_trim_end_take(s.drop_last(), k);
    } else {
        assert(s.take(k) =~= s);
    }
}

/// The characters of `s` from `start` on, without leading and trailing whitespace.
fn trimmed_tail(s: &Vec<char>, start: usize) -> (r: Vec<char>)
    requires
        start <= s@.len(),
    ensures
        r@ == trim(s@.skip(start as int)),
{
    let ghost tail = s@.skip(start as int);
    let mut lo = start;
    while lo < s.len() && is_whitespace(s[lo])
        invariant
            start <= lo <= s@.len(),
            tail == s@.skip(start as int),
            forall|j: int| start <= j < lo ==> char_is_whitespace(#[trigger] s@[j]),
        decreases s@.len() - lo,
    {
        lo = lo + 1;
    }
    proof {
        assert forall|j: int| 0 <= j < lo - start implies char_is_whitespace(#[trigger] tail[j]) by {
            assert(tail[j] == s@[start + j]);
        }
        lemma_trim_start_skip(tail, lo - start);
        assert(tail.skip(lo - start) =~= s@.skip(lo as int));
        if lo < s@.len() {
            assert(!char_is_whitespace(s@.skip(lo as int)[0]));
        } else {
            assert(s@.skip(lo as int).len() == 0);
        }
    }
    let mut hi = s.len();
    while hi > lo && is_whitespace(s[hi - 1])
        invariant
            lo <= hi <= s@.len(),
            forall|j: int| hi <= j < s@.len() ==> char_is_whitespace(#[trigger] s@[j]),
        decreases hi - lo,
    {
        hi = hi - 1;
    }
    let mut r: Vec<char> = Vec::new();
    let mut i = lo;
    while i < hi
        invariant
            lo <= i <= hi,
            hi <= s@.len(),
            r@ == s@.subrange(lo as int, i as int),
        decreases hi - i,
    {
        r.push(s[i]);
        assert(s@.subrange(lo as int, i + 1) =~= s@.subrange(lo as int, i as int).push(s@[i as int]));
        i = i + 1;
    }
    proof {
        let started = s@.skip(lo as int);
        assert forall|j: int| hi - lo <= j < started.len() implies char_is_whitespace(#[trigger] started[j]) by {
            assert(started[j] == s@[lo + j]);
        }
        lemma_trim_end_take(started, hi - lo);
        assert(started.take(hi - lo) =~= r@);
        if hi > lo {
            assert(!char_is_whitespace(r@.last()));
        }
    }
    r
}

proof fn lemma_digits_value_monotone(s: Seq<char>, k: int)
    requires
        0 <= k <= s.len(),
    ensures
        digits_value(s) >= digits_value(s.take(k)),
    decreases s.len(),
{
    if k < s.len() {
        assert(s.drop_last().take(k) =~= s.take(k));
        lemma_digits_value_monotone(s.drop_last(), k);
    } else {
        assert(s.take(k) =~= s);
    }
}

/// Reads the number in `s` as `str::parse` does for an unsigned integer of at most `max`.
fn parse_number(s: &Vec<char>, max: u64) -> (r: Option<u64>)
    ensures
        r == (match parse_unsigned(s@, max as nat) {
            Some(v) => Some(v as u64),
            None => None,
        }),
{
    let start: usize = if s.len() > 0 && s[0] == '+' { 1 } else { 0 };
    let ghost digits = if s@.len() > 0 && s@[0] == '+' { s@.drop_first() } else { s@ };
    assert(digits =~= s@.skip(start as int));
    if start >= s.len() {
        return None;
    }
    let mut value: u64 = 0;
    let mut i = start;
    while i < s.len()
        invariant
            start <= i <= s@.len(),
            digits == s@.skip(start as int),
            digits == (if s@.len() > 0 && s@[0] == '+' { s@.drop_first() } else { s@ }),
            forall|j: int| start <= j < i ==> is_digit(#[trigger] s@[j]),
            value == digits_value(digits.take(i - start)),
            value <= max,
        decreases s@.len() - i,
    {
        let c = s[i];
        assert(digits[i - start] == s@[i as int]);
        if !('0' <= c && c <= '9') {
            assert(!is_digit(digits[i - start]));
            assert(!all_digits(digits));
            assert(parse_unsigned(s@, max as nat) is None);
            return None;
        }
        let d = ((c as u32) - ('0' as u32)) as u64;
        assert(digits.take(i - start + 1).drop_last() =~= digits.take(i - start));
        assert(digits_value(digits.take(i - start + 1)) == value * 10 + d);
        if d > max || value > (max - d) / 10 {
            proof {
                assert(value * 10 + d > max) by (nonlinear_arith)
                    requires
                        d > max || value > (max - d) / 10,
                ;
                if all_digits(digits) {
                    lemma_digits_value_monotone(digits, i - start + 1);
                    assert(digits_value(digits) > max);
                }
                assert(parse_unsigned(s@, max as nat) is None);
            }
            return None;
        }
        assert(value * 10 + d <= max) by (nonlinear_arith)
            requires
                d <= max,
                value <= (max - d) / 10,
        ;
        value = value * 10 + d;
        i = i + 1;
    }
    proof {
        assert(digits.take(digits.len() as int) =~= digits);
        assert forall|j: int| 0 <= j < digits.len() implies is_digit(#[trigger] digits[j]) by {
            assert(digits[j] == s@[start + j]);
        }
        assert(all_digits(digits));
    }
    Some(value)
}

fn comparison(c: char) -> (r: Option<Comparison>)
    ensures
        r == comparison_of(c),
{
    if c == '>' {
        Some(Comparison::Greater)
    } else if c == '<' {
        Some(Comparison::Less)
    } else if c == '=' {
        Some(Comparison::Equal)
    } else {
        None
    }
}

/// The comparison of a filter that starts with the three characters `a`, `b`, `c` and an
/// operator, or `None`.
fn prefix_comparison(f: &Vec<char>, a: char, b: char, c: char) -> (r: Option<Comparison>)
    ensures
        r is Some <==> has_prefix(f@, a, b, c),
        r is Some ==> r == comparison_of(f@[3]),
{
    if f.len() >= 4 && f[0] == a && f[1] == b && f[2] == c {
        comparison(f[3])
    } else {
        None
    }
}

/// Reads a filter text: see `ProcessFilter`.
pub fn parse_filter(filter: &str) -> (r: ProcessFilter)
    ensures
        r@ == spec_parse_filter(filter@),
{
    let f = chars_of(filter);
    if let Some(op) = prefix_comparison(&f, 'p', 'i', 'd') {
        let rest = trimmed_tail(&f, 4);
        if let Some(v) = parse_number(&rest, 4294967295u64) {
            return ProcessFilter::Pid(op, v as u32);
        }
    }
    if let Some(op) = prefix_comparison(&f, 'c', 'p', 'u') {
        let rest = trimmed_tail(&f, 4);
        return ProcessFilter::Cpu(op, rest);
    }
    if let Some(op) = prefix_comparison(&f, 'm', 'e', 'm') {
        let rest = trimmed_tail(&f, 4);
        if let Some(v) = parse_number(&rest, u64::MAX) {
            return ProcessFilter::Memory(op, v);
        }
    }
    ProcessFilter::Name
}

/// Whether `t` occurs in `s`.
pub(crate) fn contains(s: &Vec<char>, t: &Vec<char>) -> (r: bool)
    ensures
        r == occurs_in(s@, t@),
{
    if t.len() > s.len() {
        return false;
    }
    if t.len() == 0 {
        assert(s@.subrange(0int, 0int + t@.len()) =~= t@);
        return true;
    }
    let mut i: usize = 0;
    let last = s.len() - t.len();
    while i <= last
        invariant
            last == s@.len() - t@.len(),
            s@.len() <= usize::MAX,
            t@.len() > 0,
            t@.len() <= s@.len(),
            i <= s@.len() - t@.len() + 1,
            forall|k: int| 0 <= k < i ==> #[trigger] s@.subrange(k, k + t@.len()) != t@,
        decreases s@.len() - i,
    {
        let mut j: usize = 0;
        let mut same = true;
        while j < t.len()
            invariant
                i + t@.len() <= s@.len(),
                i <= last,
                last == s@.len() - t@.len(),
                s@.len() <= usize::MAX,
                j <= t@.len(),
                same == (forall|k: int| 0 <= k < j ==> s@[i + k] == t@[k]),
            decreases t@.len() - j,
        {
            if s[i + j] != t[j] {
                same = false;
            }
            j = j + 1;
        }
        if same {
            assert(s@.subrange(i as int, i + t@.len()) =~= t@);
            return true;
        }
        proof {
            if s@.subrange(i as int, i + t@.len()) == t@ {
                assert forall|k: int| 0 <= k < t@.len() implies s@[i + k] == t@[k] by {
                    assert(s@.subrange(i as int, i + t@.len())[k] == s@[i + k]);
                }
            }
        }
        i = i + 1;
    }
    false
}

/// Whether `filter` occurs in `name`, ignoring case.
pub fn name_matches(name: &str, filter: &str) -> (r: bool)
    ensures
        r == occurs_in(lowercase_text(name@), lowercase_text(filter@)),
        is_ascii_text(name@) && is_ascii_text(filter@) ==> r == occurs_in(
            ascii_lowercase(name@),
            ascii_lowercase(filter@),
        ),
{
    let lower_name = to_lowercase(name);
    let lower_filter = to_lowercase(filter);
    let n = chars_of(lower_name.as_str());
    let f = chars_of(lower_filter.as_str());
    contains(&n, &f)
}

/// Whether a process passes the filter read from `filter` (see `spec_filter_matches`).
pub fn filter_matches(
    query: &ProcessFilter,
    filter: &str,
    pid: u32,
    memory_usage: u64,
    name: &str,
    cpu_test: Option<bool>,
) -> (r: bool)
    ensures
        r == spec_filter_matches(query@, filter@, pid, memory_usage, name@, cpu_test),
        (query@ is Name || (query@ is Cpu && cpu_test is None)) && is_ascii_text(name@)
            && is_ascii_text(filter@) ==> r == occurs_in(ascii_lowercase(name@), ascii_lowercase(filter@)),
{
    match query {
        ProcessFilter::Pid(op, threshold) => match op {
            Comparison::Greater => pid > *threshold,
            Comparison::Less => pid < *threshold,
            Comparison::Equal => pid == *threshold,
        },
        ProcessFilter::Memory(op, threshold) => {
            let mb = memory_usage / 1000000;
            match op {
                Comparison::Greater => mb > *threshold,
                Comparison::Less => mb < *threshold,
                Comparison::Equal => mb == *threshold,
            }
        },
        ProcessFilter::Cpu(_, _) => match cpu_test {
            Some(b) => b,
            None => name_matches(name, filter),
        },
        ProcessFilter::Name => name_matches(name, filter),
    }
}

} // verus!
