//! Text as sequences of characters.
//!
//! Every parser and formatter of this crate is specified over `Seq<char>`,
//! the view of `str` and `String`. The executable side works on `Vec<char>`:
//! a string is unpacked once, searched and cut by index, and packed again.

use vstd::prelude::*;
use vstd::string::StringExecFns;

verus! {

/// `String::push` appends one character and leaves the rest of the string
/// as it was.
pub assume_specification[ String::push ](s: &mut String, c: char)
    ensures
        final(s)@ == old(s)@.push(c),
;

// ---------------------------------------------------------------------------
// Packing and unpacking
// ---------------------------------------------------------------------------

/// The view of an optional string.
pub open spec fn text_of(s: Option<String>) -> Option<Seq<char>> {
    match s {
        Some(t) => Some(t@),
        None => None,
    }
}

/// The view of an optional string slice.
pub open spec fn str_of(s: Option<&str>) -> Option<Seq<char>> {
    match s {
        Some(t) => Some(t@),
        None => None,
    }
}

/// The characters of `s`, in order.
pub fn to_chars(s: &str) -> (v: Vec<char>)
    ensures
        v@ == s@,
{
    let mut v: Vec<char> = Vec::new();
    for c in it: s.chars()
        invariant
            it.seq() == s@,
            v@ == s@.take(it.index() as int),
    {
        v.push(c);
    }
    v
}

/// The string made of the characters of `v`, in order.
pub fn from_chars(v: &Vec<char>) -> (s: String)
    ensures
        s@ == v@,
{
    let mut s = String::new();
    let mut i: usize = 0;
    while i < v.len()
        invariant
            i <= v.len(),
            s@ == v@.take(i as int),
        decreases v.len() - i,
    {
        s.push(v[i]);
        i += 1;
    }
    s
}

/// The characters of `v` from index `lo` up to, not including, `hi`.
pub fn slice(v: &Vec<char>, lo: usize, hi: usize) -> (r: Vec<char>)
    requires
        lo <= hi <= v.len(),
    ensures
        r@ == v@.subrange(lo as int, hi as int),
{
    let mut r: Vec<char> = Vec::new();
    let mut i: usize = lo;
    while i < hi
        invariant
            lo <= i <= hi <= v.len(),
            r@ == v@.subrange(lo as int, i as int),
        decreases hi - i,
    {
        r.push(v[i]);
        i += 1;
    }
    r
}

/// Appends the characters of `tail` to `head`.
pub fn append(head: &mut Vec<char>, tail: &Vec<char>)
    ensures
        final(head)@ == old(head)@ + tail@,
{
    let mut i: usize = 0;
    while i < tail.len()
        invariant
            i <= tail.len(),
            head@ == old(head)@ + tail@.take(i as int),
        decreases tail.len() - i,
    {
        head.push(tail[i]);
        i += 1;
    }
    assert(tail@.take(tail.len() as int) == tail@);
}

/// Whether two character vectors hold the same text.
pub fn same_text(a: &Vec<char>, b: &Vec<char>) -> (eq: bool)
    ensures
        eq == (a@ == b@),
{
    if a.len() != b.len() {
        return false;
    }
    let mut i: usize = 0;
    while i < a.len()
        invariant
            i <= a.len(),
            a.len() == b.len(),
            a@.take(i as int) == b@.take(i as int),
        decreases a.len() - i,
    {
        if a[i] != b[i] {
            return false;
        }
        assert(a@.take(i + 1) == a@.take(i as int).push(a@[i as int]));
        assert(b@.take(i + 1) == b@.take(i as int).push(b@[i as int]));
        i += 1;
    }
    assert(a@.take(a.len() as int) == a@);
    assert(b@.take(b.len() as int) == b@);
    true
}

/// Whether two strings hold the same text.
pub fn same_str(a: &str, b: &str) -> (eq: bool)
    ensures
        eq == (a@ == b@),
{
    let x = to_chars(a);
    let y = to_chars(b);
    same_text(&x, &y)
}

/// Whether a presented secret is the secret held. Every character of the
/// presented text is looked at, whether or not an earlier one differed.
pub fn same_secret(presented: &str, held: &str) -> (eq: bool)
    ensures
        eq == (presented@ == held@),
{
    let a = to_chars(presented);
    let b = to_chars(held);
    let mut equal: bool = a.len() == b.len();
    let mut i: usize = 0;
    while i < a.len()
        invariant
            i <= a.len(),
            equal == (a.len() == b.len() && a@.take(i as int) =~= b@.take(i as int)),
        decreases a.len() - i,
    {
        let matches = i < b.len() && a[i] == b[i];
        proof {
            if a.len() == b.len() {
                let x = a@.take(i + 1);
                let y = b@.take(i + 1);
                assert(x.take(i as int) =~= a@.take(i as int));
                assert(y.take(i as int) =~= b@.take(i as int));
                assert(x[i as int] == a@[i as int] && y[i as int] == b@[i as int]);
                if a@.take(i as int) == b@.take(i as int) && matches {
                    assert(x =~= y);
                }
            }
        }
        equal = equal && matches;
        i += 1;
    }
    proof {
        if a.len() == b.len() {
            assert(a@.take(a.len() as int) == a@);
            assert(b@.take(b.len() as int) == b@);
        }
    }
    equal
}

// ---------------------------------------------------------------------------
// Lines
// ---------------------------------------------------------------------------

/// The views of a list of lines.
pub open spec fn lines_of(lines: Seq<String>) -> Seq<Seq<char>> {
    lines.map_values(|line: String| line@)
}

/// Appends a line.
pub fn push_line(lines: &mut Vec<String>, line: &str)
    ensures
        lines_of(final(lines)@) == lines_of(old(lines)@).push(line@),
{
    let ghost before = lines@;
    lines.push(String::from_str(line));
    assert(lines_of(lines@) =~= lines_of(before).push(line@));
}

// ---------------------------------------------------------------------------
// Searching
// ---------------------------------------------------------------------------

/// The first index at or after `from` at which `s` holds `c`; the length of
/// `s` where there is none.
pub open spec fn find_from(s: Seq<char>, c: char, from: int) -> int
    decreases s.len() - from,
{
    if from < 0 || from >= s.len() {
        s.len() as int
    } else if s[from] == c {
        from
    } else {
        find_from(s, c, from + 1)
    }
}

/// `find_from` as a search result: at or after `from`, on `c` or at the end,
/// with no `c` before it.
pub proof fn lemma_find_from(s: Seq<char>, c: char, from: int)
    requires
        0 <= from <= s.len(),
    ensures
        from <= find_from(s, c, from) <= s.len(),
        find_from(s, c, from) < s.len() ==> s[find_from(s, c, from)] == c,
        forall|j: int| from <= j < find_from(s, c, from) ==> s[j] != c,
    decreases s.len() - from,
{
    if from < s.len() && s[from] != c {
        lemma_find_from(s, c, from + 1);
    }
}

/// The index of the last `c` in the first `end` characters of `s`.
pub open spec fn rfind_before(s: Seq<char>, c: char, end: int) -> Option<int>
    decreases end,
{
    if end <= 0 || end > s.len() {
        None
    } else if s[end - 1] == c {
        Some(end - 1)
    } else {
        rfind_before(s, c, end - 1)
    }
}

/// The index of the last `c` in `s`.
pub open spec fn rfind(s: Seq<char>, c: char) -> Option<int> {
    rfind_before(s, c, s.len() as int)
}

/// `rfind_before` as a search result: `None` exactly when `c` does not occur,
/// else the index of an occurrence with none after it.
pub proof fn lemma_rfind_before(s: Seq<char>, c: char, end: int)
    requires
        0 <= end <= s.len(),
    ensures
        match rfind_before(s, c, end) {
            Some(i) => 0 <= i < end && s[i] == c && forall|j: int| i < j < end ==> s[j] != c,
            None => forall|j: int| 0 <= j < end ==> s[j] != c,
        },
    decreases end,
{
    if end > 0 && s[end - 1] != c {
        lemma_rfind_before(s, c, end - 1);
    }
}

/// Finds the first `c` at or after `from`.
pub fn find_char_from(v: &Vec<char>, c: char, from: usize) -> (at: usize)
    requires
        from <= v.len(),
    ensures
        at == find_from(v@, c, from as int),
        from <= at <= v.len(),
{
    let mut i: usize = from;
    while i < v.len()
        invariant
            from <= i <= v.len(),
            find_from(v@, c, from as int) == find_from(v@, c, i as int),
        decreases v.len() - i,
    {
        if v[i] == c {
            return i;
        }
        i += 1;
    }
    i
}

/// Finds the last `c`.
pub fn rfind_char(v: &Vec<char>, c: char) -> (at: Option<usize>)
    ensures
        match at {
            Some(i) => rfind(v@, c) == Some(i as int) && i < v.len(),
            None => rfind(v@, c) is None,
        },
{
    let mut end: usize = v.len();
    while end > 0
        invariant
            end <= v.len(),
            rfind(v@, c) == rfind_before(v@, c, end as int),
        decreases end,
    {
        if v[end - 1] == c {
            return Some(end - 1);
        }
        end -= 1;
    }
    None
}

/// Whether `s` begins with `p`.
pub open spec fn has_prefix(s: Seq<char>, p: Seq<char>) -> bool {
    p.len() <= s.len() && s.subrange(0, p.len() as int) == p
}

/// Whether `v` begins with `p`.
pub fn starts_with(v: &Vec<char>, p: &Vec<char>) -> (b: bool)
    ensures
        b == has_prefix(v@, p@),
{
    if p.len() > v.len() {
        return false;
    }
    let mut i: usize = 0;
    while i < p.len()
        invariant
            i <= p.len() <= v.len(),
            v@.subrange(0, i as int) == p@.take(i as int),
        decreases p.len() - i,
    {
        if v[i] != p[i] {
            assert(v@.subrange(0, p.len() as int)[i as int] != p@[i as int]);
            return false;
        }
        assert(v@.subrange(0, i + 1) == v@.subrange(0, i as int).push(v@[i as int]));
        assert(p@.take(i + 1) == p@.take(i as int).push(p@[i as int]));
        i += 1;
    }
    assert(p@.take(p.len() as int) == p@);
    true
}

/// Whether `needle` stands in `s` at index `at`.
pub open spec fn occurs_at(s: Seq<char>, needle: Seq<char>, at: int) -> bool {
    0 <= at && at + needle.len() <= s.len() && s.subrange(at, at + needle.len()) == needle
}

/// Whether `needle` stands somewhere in `s`.
pub open spec fn contains_text(s: Seq<char>, needle: Seq<char>) -> bool {
    exists|at: int| occurs_at(s, needle, at)
}

/// Whether `needle` stands in `v` at index `at`.
pub fn matches_at(v: &Vec<char>, needle: &Vec<char>, at: usize) -> (b: bool)
    requires
        at <= v.len(),
    ensures
        b == occurs_at(v@, needle@, at as int),
{
    if needle.len() > v.len() - at {
        return false;
    }
    let mut i: usize = 0;
    while i < needle.len()
        invariant
            i <= needle.len(),
            at + needle.len() <= v.len(),
            v@.subrange(at as int, at + i) == needle@.take(i as int),
        decreases needle.len() - i,
    {
        if v[at + i] != needle[i] {
            assert(v@.subrange(at as int, at + needle.len())[i as int] != needle@[i as int]);
            return false;
        }
        assert(v@.subrange(at as int, at + i + 1) == v@.subrange(at as int, at + i).push(
            v@[at + i],
        ));
        assert(needle@.take(i + 1) == needle@.take(i as int).push(needle@[i as int]));
        i += 1;
    }
    assert(needle@.take(needle.len() as int) == needle@);
    true
}

/// Whether `needle` stands somewhere in `v`.
pub fn contains(v: &Vec<char>, needle: &Vec<char>) -> (b: bool)
    ensures
        b == contains_text(v@, needle@),
{
    let mut at: usize = 0;
    while at <= v.len()
        invariant
            at <= v.len() + 1,
            forall|k: int| 0 <= k < at ==> !occurs_at(v@, needle@, k),
        decreases v.len() + 1 - at,
    {
        if matches_at(v, needle, at) {
            return true;
        }
        if at == v.len() {
            assert forall|k: int| !occurs_at(v@, needle@, k) by {}
            return false;
        }
        at += 1;
    }
    false
}

// ---------------------------------------------------------------------------
// White space
// ---------------------------------------------------------------------------

/// The characters with the Unicode property `White_Space`.
pub open spec fn is_space(c: char) -> bool {
    let n = c as u32;
    ||| 0x09 <= n <= 0x0D
    ||| n == 0x20
    ||| n == 0x85
    ||| n == 0xA0
    ||| n == 0x1680
    ||| 0x2000 <= n <= 0x200A
    ||| n == 0x2028
    ||| n == 0x2029
    ||| n == 0x202F
    ||| n == 0x205F
    ||| n == 0x3000
}

/// Whether `c` is white space.
pub fn is_space_char(c: char) -> (b: bool)
    ensures
        b == is_space(c),
{
    let n: u32 = c as u32;
    (0x09 <= n && n <= 0x0D) || n == 0x20 || n == 0x85 || n == 0xA0 || n == 0x1680 || (0x2000 <= n
        && n <= 0x200A) || n == 0x2028 || n == 0x2029 || n == 0x202F || n == 0x205F || n == 0x3000
}

/// The first index at or after `from` that holds no white space; the length
/// of `s` where all the rest is white space.
pub open spec fn skip_spaces(s: Seq<char>, from: int) -> int
    decreases s.len() - from,
{
    if from < 0 || from >= s.len() {
        s.len() as int
    } else if !is_space(s[from]) {
        from
    } else {
        skip_spaces(s, from + 1)
    }
}

/// The end of `s` without its trailing white space, never going below `lo`.
pub open spec fn drop_trailing_spaces(s: Seq<char>, lo: int, end: int) -> int
    decreases end - lo,
{
    if end <= lo || end > s.len() || lo < 0 {
        lo
    } else if !is_space(s[end - 1]) {
        end
    } else {
        drop_trailing_spaces(s, lo, end - 1)
    }
}

/// Where the trimmed text begins in `s`.
pub open spec fn trim_start_index(s: Seq<char>) -> int {
    skip_spaces(s, 0)
}

/// Where the trimmed text ends in `s`.
pub open spec fn trim_end_index(s: Seq<char>) -> int {
    drop_trailing_spaces(s, trim_start_index(s), s.len() as int)
}

/// `s` without leading and trailing white space.
pub open spec fn trim(s: Seq<char>) -> Seq<char> {
    s.subrange(trim_start_index(s), trim_end_index(s))
}

/// Where trimming cuts: a range of `s` with nothing but white space before
/// and after it, which neither begins nor ends with white space.
pub proof fn lemma_trim_bounds(s: Seq<char>)
    ensures
        0 <= trim_start_index(s) <= trim_end_index(s) <= s.len(),
        forall|j: int| 0 <= j < trim_start_index(s) ==> is_space(s[j]),
        forall|j: int| trim_end_index(s) <= j < s.len() ==> is_space(s[j]),
        trim(s).len() > 0 ==> !is_space(trim(s).first()) && !is_space(trim(s).last()),
{
    lemma_skip_spaces(s, 0);
    lemma_drop_trailing_spaces(s, trim_start_index(s), s.len() as int);
}

proof fn lemma_skip_spaces(s: Seq<char>, from: int)
    requires
        0 <= from <= s.len(),
    ensures
        from <= skip_spaces(s, from) <= s.len(),
        skip_spaces(s, from) < s.len() ==> !is_space(s[skip_spaces(s, from)]),
        forall|j: int| from <= j < skip_spaces(s, from) ==> is_space(s[j]),
    decreases s.len() - from,
{
    if from < s.len() && is_space(s[from]) {
        lemma_skip_spaces(s, from + 1);
    }
}

proof fn lemma_drop_trailing_spaces(s: Seq<char>, lo: int, end: int)
    requires
        0 <= lo <= end <= s.len(),
    ensures
        lo <= drop_trailing_spaces(s, lo, end) <= end,
        drop_trailing_spaces(s, lo, end) > lo ==> !is_space(
            s[drop_trailing_spaces(s, lo, end) - 1],
        ),
        forall|j: int| drop_trailing_spaces(s, lo, end) <= j < end ==> is_space(s[j]),
    decreases end - lo,
{
    if end > lo && is_space(s[end - 1]) {
        lemma_drop_trailing_spaces(s, lo, end - 1);
    }
}

/// Text that neither begins nor ends with white space is its own trimmed
/// form.
pub proof fn lemma_trim_identity(s: Seq<char>)
    requires
        s.len() > 0 ==> !is_space(s.first()) && !is_space(s.last()),
    ensures
        trim(s) == s,
{
    if s.len() > 0 {
        assert(trim_start_index(s) == 0);
        assert(trim_end_index(s) == s.len());
    }
    assert(trim(s) =~= s);
}

/// Removes leading and trailing white space.
pub fn trim_chars(v: &Vec<char>) -> (r: Vec<char>)
    ensures
        r@ == trim(v@),
{
    let mut a: usize = 0;
    while a < v.len() && is_space_char(v[a])
        invariant
            a <= v.len(),
            skip_spaces(v@, 0) == skip_spaces(v@, a as int),
        decreases v.len() - a,
    {
        a += 1;
    }
    let mut b: usize = v.len();
    while b > a && is_space_char(v[b - 1])
        invariant
            a <= b <= v.len(),
            drop_trailing_spaces(v@, a as int, v.len() as int) == drop_trailing_spaces(
                v@,
                a as int,
                b as int,
            ),
        decreases b - a,
    {
        b -= 1;
    }
    slice(v, a, b)
}

} // verus!
