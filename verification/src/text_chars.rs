//! Character-level building blocks shared by the text passes: conversion
//! between strings and character vectors, ASCII case folding, Unicode white
//! space, and the decomposition of a text into maximal runs of characters of
//! one class.

use vstd::prelude::*;

verus! {

/// The characters of `s`, in order.
pub fn chars_of(s: &str) -> (res: Vec<char>)
    ensures
        res@ == s@,
{
    let mut res: Vec<char> = Vec::new();
    for c in it: s.chars()
        invariant
            res@ == it.seq().take(it.index() as int),
            it.seq() == s@,
    {
        res.push(c);
    }
    res
}

/// Builds a `String` holding exactly the characters of `v`, through
/// `FromIterator<char>` of std.
#[verifier::external_body]
pub(crate) fn string_from_chars(v: &Vec<char>) -> (res: String)
    ensures
        res@ == v@,
{
    v.iter().collect()
}

/// Appends the characters of `s` to `out`.
pub fn push_str_chars(out: &mut Vec<char>, s: &str)
    ensures
        final(out)@ == old(out)@ + s@,
{
    for c in it: s.chars()
        invariant
            out@ == old(out)@ + it.seq().take(it.index() as int),
            it.seq() == s@,
    {
        out.push(c);
    }
    assert(s@.take(s@.len() as int) =~= s@);
}

/// Appends `v[from..to]` to `out`.
pub fn push_range(out: &mut Vec<char>, v: &Vec<char>, from: usize, to: usize)
    requires
        from <= to <= v@.len(),
    ensures
        final(out)@ == old(out)@ + v@.subrange(from as int, to as int),
{
    let mut i = from;
    while i < to
        invariant
            from <= i <= to <= v@.len(),
            out@ == old(out)@ + v@.subrange(from as int, i as int),
        decreases to - i,
    {
        out.push(v[i]);
        i = i + 1;
        assert(v@.subrange(from as int, i as int) =~= v@.subrange(from as int, (i - 1) as int).push(
            v@[i - 1],
        ));
    }
}

/// `v[from..to]` as a new vector.
pub fn slice_chars(v: &Vec<char>, from: usize, to: usize) -> (res: Vec<char>)
    requires
        from <= to <= v@.len(),
    ensures
        res@ == v@.subrange(from as int, to as int),
{
    let mut res: Vec<char> = Vec::new();
    push_range(&mut res, v, from, to);
    assert(Seq::<char>::empty() + v@.subrange(from as int, to as int) =~= v@.subrange(
        from as int,
        to as int,
    ));
    res
}

/// Whether two character vectors hold the same characters.
pub fn chars_equal(a: &Vec<char>, b: &Vec<char>) -> (res: bool)
    ensures
        res == (a@ == b@),
{
    if a.len() != b.len() {
        return false;
    }
    let mut i: usize = 0;
    while i < a.len()
        invariant
            a@.len() == b@.len(),
            0 <= i <= a@.len(),
            forall|k: int| 0 <= k < i ==> a@[k] == b@[k],
        decreases a@.len() - i,
    {
        if a[i] != b[i] {
            return false;
        }
        i = i + 1;
    }
    assert(a@ =~= b@);
    true
}

/// Whether the string `s` holds exactly the characters of `v`.
pub fn str_equals_chars(s: &str, v: &Vec<char>) -> (res: bool)
    ensures
        res == (s@ == v@),
{
    let sv = chars_of(s);
    chars_equal(&sv, v)
}

/// `c` is an ASCII upper-case letter `A`..`Z`.
pub open spec fn is_ascii_upper(c: char) -> bool {
    'A' <= c && c <= 'Z'
}

/// `char::to_ascii_lowercase`: `A`..`Z` become `a`..`z`, every other
/// character is kept.
pub open spec fn ascii_lower(c: char) -> char {
    if is_ascii_upper(c) {
        ((c as u32) + 32) as char
    } else {
        c
    }
}

/// `str::to_ascii_lowercase` on a character sequence.
pub open spec fn ascii_lower_seq(s: Seq<char>) -> Seq<char> {
    s.map_values(|c: char| ascii_lower(c))
}

pub fn ascii_lower_char(c: char) -> (res: char)
    ensures
        res == ascii_lower(c),
{
    if 'A' <= c && c <= 'Z' {
        let code: u32 = c as u32;
        let lowered: u8 = (code + 32) as u8;
        lowered as char
    } else {
        c
    }
}

/// The Unicode `White_Space` property, which `char::is_whitespace` of std
/// tests, and which `str::trim` and `str::split_whitespace` use.
pub open spec fn is_white_space(c: char) -> bool {
    let x = c as u32;
    ||| 0x09 <= x && x <= 0x0d
    ||| x == 0x20
    ||| x == 0x85
    ||| x == 0xa0
    ||| x == 0x1680
    ||| 0x2000 <= x && x <= 0x200a
    ||| x == 0x2028
    ||| x == 0x2029
    ||| x == 0x202f
    ||| x == 0x205f
    ||| x == 0x3000
}

pub fn is_white_space_char(c: char) -> (res: bool)
    ensures
        res == is_white_space(c),
{
    let x: u32 = c as u32;
    (0x09 <= x && x <= 0x0d) || x == 0x20 || x == 0x85 || x == 0xa0 || x == 0x1680 || (0x2000
        <= x && x <= 0x200a) || x == 0x2028 || x == 0x2029 || x == 0x202f || x == 0x205f || x
        == 0x3000
}

/// `s` without its leading white space.
pub open spec fn trim_start(s: Seq<char>) -> Seq<char>
    decreases s.len(),
{
    if s.len() > 0 && is_white_space(s[0]) {
        trim_start(s.drop_first())
    } else {
        s
    }
}

/// `s` without its trailing white space (`str::trim_end`).
pub open spec fn trim_end(s: Seq<char>) -> Seq<char>
    decreases s.len(),
{
    if s.len() > 0 && is_white_space(s.last()) {
        trim_end(s.drop_last())
    } else {
        s
    }
}

/// `s` without leading and trailing white space (`str::trim`).
pub open spec fn trim(s: Seq<char>) -> Seq<char> {
    trim_end(trim_start(s))
}

/// `trim_start` drops a prefix: it is `s[k..]` for the first `k` that holds
/// no white space, or the whole length.
proof fn lemma_trim_start_index(s: Seq<char>, k: int)
    requires
        0 <= k <= s.len(),
        forall|j: int| 0 <= j < k ==> is_white_space(s[j]),
    ensures
        trim_start(s) == trim_start(s.subrange(k, s.len() as int)),
    decreases k,
{
    if k > 0 {
        assert(s.drop_first().subrange(k - 1, s.drop_first().len() as int) =~= s.subrange(
            k,
            s.len() as int,
        ));
        lemma_trim_start_index(s.drop_first(), k - 1);
    } else {
        assert(s.subrange(0, s.len() as int) =~= s);
    }
}

proof fn lemma_trim_end_index(s: Seq<char>, k: int)
    requires
        0 <= k <= s.len(),
        forall|j: int| k <= j < s.len() ==> is_white_space(s[j]),
    ensures
        trim_end(s) == trim_end(s.subrange(0, k)),
    decreases s.len() - k,
{
    if k < s.len() {
        assert(s.drop_last().subrange(0, k) =~= s.subrange(0, k));
        lemma_trim_end_index(s.drop_last(), k);
    } else {
        assert(s.subrange(0, k) =~= s);
    }
}

/// Trims white space from both ends of `v`: the result is `trim(v)`.
pub fn trim_chars(v: &Vec<char>) -> (res: Vec<char>)
    ensures
        res@ == trim(v@),
{
    let mut start: usize = 0;
    while start < v.len() && is_white_space_char(v[start])
        invariant
            0 <= start <= v@.len(),
            forall|j: int| 0 <= j < start ==> is_white_space(v@[j]),
        decreases v@.len() - start,
    {
        start = start + 1;
    }
    let ghost rest = v@.subrange(start as int, v@.len() as int);
    proof {
        lemma_trim_start_index(v@, start as int);
        assert(trim_start(rest) == rest);
    }
    let mut end: usize = v.len();
    while end > start && is_white_space_char(v[end - 1])
        invariant
            start <= end <= v@.len(),
            forall|j: int| end <= j < v@.len() ==> is_white_space(v@[j]),
        decreases end,
    {
        end = end - 1;
    }
    proof {
        let r = rest;
        let k = end - start;
        assert forall|j: int| k <= j < r.len() implies is_white_space(r[j]) by {
            assert(r[j] == v@[j + start]);
        }
        lemma_trim_end_index(r, k);
        assert(r.subrange(0, k) =~= v@.subrange(start as int, end as int));
        let m = v@.subrange(start as int, end as int);
        if m.len() > 0 {
            assert(m.last() == v@[end - 1]);
        }
    }
    slice_chars(v, start, end)
}

/// Trims trailing white space from `v`: the result is `trim_end(v)`.
pub fn trim_end_chars(v: &Vec<char>) -> (res: Vec<char>)
    ensures
        res@ == trim_end(v@),
{
    let mut end: usize = v.len();
    while end > 0 && is_white_space_char(v[end - 1])
        invariant
            end <= v@.len(),
            forall|j: int| end <= j < v@.len() ==> is_white_space(v@[j]),
        decreases end,
    {
        end = end - 1;
    }
    proof {
        lemma_trim_end_index(v@, end as int);
        let m = v@.subrange(0, end as int);
        if m.len() > 0 {
            assert(m.last() == v@[end - 1]);
        }
    }
    slice_chars(v, 0, end)
}

/// Whether `c` is matched by the regular expression `(?i)[\p{L}]` (a letter
/// in the sense of the Unicode general category `L`, closed under case
/// folding). Only the `regex` crate knows this class.
pub uninterp spec fn is_word_letter(c: char) -> bool;

/// Asks the `regex` crate whether the one-character string `c` is matched by
/// `(?i)^[\p{L}]$`, the single-character form of the word pattern
/// `(?i)[\p{L}]+`. The contract claims only that the answer is the fixed
/// class membership `is_word_letter(c)`.
#[verifier::external_body]
fn regex_word_letter(c: char) -> (res: bool)
    ensures
        res == is_word_letter(c),
{
    let mut buf = [0u8; 4];
    match regex::Regex::new(r"(?i)^[\p{L}]$") {
        Ok(re) => re.is_match(c.encode_utf8(&mut buf)),
        Err(_) => false,
    }
}

/// The two character classes whose maximal runs the text passes use.
#[derive(Clone, Copy, Debug, PartialEq, Eq)]
pub enum CharClass {
    /// Letters of the word pattern `(?i)[\p{L}]+`.
    Word,
    /// Everything but white space: the tokens of `str::split_whitespace`.
    NonSpace,
}

pub open spec fn class_pred(class: CharClass) -> spec_fn(char) -> bool {
    match class {
        CharClass::Word => |c: char| is_word_letter(c),
        CharClass::NonSpace => |c: char| !is_white_space(c),
    }
}

pub fn in_class(c: char, class: CharClass) -> (res: bool)
    ensures
        res == class_pred(class)(c),
{
    match class {
        CharClass::Word => regex_word_letter(c),
        CharClass::NonSpace => !is_white_space_char(c),
    }
}

/// The first position at or after `i` whose character satisfies `p`, or the
/// length of `t`.
pub open spec fn next_start(t: Seq<char>, p: spec_fn(char) -> bool, i: int) -> int
    decreases t.len() - i,
{
    if i >= t.len() {
        t.len() as int
    } else if p(t[i]) {
        i
    } else {
        next_start(t, p, i + 1)
    }
}

/// The first position at or after `i` whose character does not satisfy `p`,
/// or the length of `t`.
pub open spec fn run_end(t: Seq<char>, p: spec_fn(char) -> bool, i: int) -> int
    decreases t.len() - i,
{
    if i < t.len() && p(t[i]) {
        run_end(t, p, i + 1)
    } else {
        i
    }
}

pub proof fn lemma_next_start(t: Seq<char>, p: spec_fn(char) -> bool, i: int)
    requires
        0 <= i <= t.len(),
    ensures
        i <= next_start(t, p, i) <= t.len(),
        next_start(t, p, i) < t.len() ==> p(t[next_start(t, p, i)]),
        forall|k: int| i <= k < next_start(t, p, i) ==> !p(#[trigger] t[k]),
    decreases t.len() - i,
{
    if i < t.len() && !p(t[i]) {
        lemma_next_start(t, p, i + 1);
    }
}

pub proof fn lemma_run_end(t: Seq<char>, p: spec_fn(char) -> bool, i: int)
    requires
        0 <= i <= t.len(),
    ensures
        i <= run_end(t, p, i) <= t.len(),
        i < t.len() && p(t[i]) ==> i < run_end(t, p, i),
        run_end(t, p, i) < t.len() ==> !p(t[run_end(t, p, i)]),
        forall|k: int| i <= k < run_end(t, p, i) ==> p(#[trigger] t[k]),
    decreases t.len() - i,
{
    if i < t.len() && p(t[i]) {
        lemma_run_end(t, p, i + 1);
    }
}

/// The maximal runs of characters satisfying `p` that start at or after
/// position `i`, as half-open position ranges, left to right. For the word
/// class this is what `Regex::find_iter` yields for `(?i)[\p{L}]+` (the
/// leftmost match of a greedy repetition of one class is its maximal run);
/// for the non-space class it is `str::split_whitespace`.
pub open spec fn runs_from(t: Seq<char>, p: spec_fn(char) -> bool, i: int) -> Seq<(int, int)>
    decreases t.len() - i,
{
    if i < 0 || i >= t.len() {
        Seq::empty()
    } else {
        let s = next_start(t, p, i);
        if s >= t.len() {
            Seq::empty()
        } else {
            let e = run_end(t, p, s);
            proof {
                lemma_next_start(t, p, i);
                lemma_run_end(t, p, s);
            }
            seq![(s, e)] + runs_from(t, p, e)
        }
    }
}

/// All maximal runs of `t` in `class`.
pub open spec fn runs(t: Seq<char>, class: CharClass) -> Seq<(int, int)> {
    runs_from(t, class_pred(class), 0)
}

pub open spec fn span_ints(v: Seq<(usize, usize)>) -> Seq<(int, int)> {
    v.map_values(|q: (usize, usize)| (q.0 as int, q.1 as int))
}

/// The maximal runs of `t[from..]` in `class`, with positions in `t`.
pub fn find_runs_from(t: &Vec<char>, class: CharClass, from: usize) -> (res: Vec<(usize, usize)>)
    requires
        from <= t@.len(),
    ensures
        span_ints(res@) == runs_from(t@, class_pred(class), from as int),
{
    let ghost p = class_pred(class);
    let n = t.len();
    let mut res: Vec<(usize, usize)> = Vec::new();
    let mut i: usize = from;
    while i < n
        invariant
            n == t@.len(),
            from <= i <= n,
            p == class_pred(class),
            span_ints(res@) + runs_from(t@, p, i as int) == runs_from(t@, p, from as int),
        decreases n - i,
    {
        let mut s: usize = i;
        while s < n && !in_class(t[s], class)
            invariant
                n == t@.len(),
                i <= s <= n,
                p == class_pred(class),
                next_start(t@, p, i as int) == next_start(t@, p, s as int),
            decreases n - s,
        {
            s = s + 1;
        }
        if s >= n {
            proof {
                assert(runs_from(t@, p, i as int) =~= Seq::<(int, int)>::empty());
                assert(runs_from(t@, p, n as int) =~= Seq::<(int, int)>::empty());
            }
            i = n;
        } else {
            let mut e: usize = s + 1;
            while e < n && in_class(t[e], class)
                invariant
                    n == t@.len(),
                    s < e <= n,
                    p == class_pred(class),
                    run_end(t@, p, s as int) == run_end(t@, p, e as int),
                decreases n - e,
            {
                e = e + 1;
            }
            proof {
                lemma_next_start(t@, p, i as int);
                lemma_run_end(t@, p, s as int);
                let old_res = span_ints(res@);
                assert(runs_from(t@, p, i as int) == seq![(s as int, e as int)] + runs_from(
                    t@,
                    p,
                    e as int,
                ));
                assert(span_ints(res@.push((s, e))) =~= old_res.push((s as int, e as int)));
                assert(old_res.push((s as int, e as int)) + runs_from(t@, p, e as int) =~= old_res
                    + (seq![(s as int, e as int)] + runs_from(t@, p, e as int)));
            }
            res.push((s, e));
            i = e;
        }
    }
    proof {
        assert(runs_from(t@, p, i as int) =~= Seq::<(int, int)>::empty());
        assert(span_ints(res@) + Seq::<(int, int)>::empty() =~= span_ints(res@));
    }
    res
}

/// Every run lies inside the text, starts at or after `i`, is non-empty, and
/// the runs come left to right without overlapping.
pub proof fn lemma_runs_props(t: Seq<char>, p: spec_fn(char) -> bool, i: int)
    requires
        0 <= i <= t.len(),
    ensures
        forall|k: int|
            0 <= k < runs_from(t, p, i).len() ==> i <= (#[trigger] runs_from(t, p, i)[k]).0
                < runs_from(t, p, i)[k].1 <= t.len(),
        forall|k: int|
            0 <= k < runs_from(t, p, i).len() - 1 ==> (#[trigger] runs_from(t, p, i)[k]).1
                <= runs_from(t, p, i)[k + 1].0,
    decreases t.len() - i,
{
    if i < t.len() {
        let s = next_start(t, p, i);
        lemma_next_start(t, p, i);
        if s < t.len() {
            let e = run_end(t, p, s);
            lemma_run_end(t, p, s);
            lemma_runs_props(t, p, e);
            let r = runs_from(t, p, i);
            let rest = runs_from(t, p, e);
            assert(r == seq![(s, e)] + rest);
            assert forall|k: int| 0 <= k < r.len() implies i <= (#[trigger] r[k]).0 < r[k].1
                <= t.len() by {
                if k > 0 {
                    assert(r[k] == rest[k - 1]);
                }
            }
            assert forall|k: int| 0 <= k < r.len() - 1 implies (#[trigger] r[k]).1 <= r[k + 1].0 by {
                assert(r[k + 1] == rest[k]);
                if k > 0 {
                    assert(r[k] == rest[k - 1]);
                }
            }
        }
    }
}

/// `a` comes strictly before `b` in the order of `String` (lexicographic by
/// code point, which is the byte order of UTF-8).
pub open spec fn name_lt(a: Seq<char>, b: Seq<char>) -> bool
    decreases a.len(),
{
    if b.len() == 0 {
        false
    } else if a.len() == 0 {
        true
    } else if (a[0] as u32) < (b[0] as u32) {
        true
    } else if a[0] == b[0] {
        name_lt(a.drop_first(), b.drop_first())
    } else {
        false
    }
}

/// No text comes before itself.
pub proof fn lemma_name_lt_irreflexive(a: Seq<char>)
    ensures
        !name_lt(a, a),
    decreases a.len(),
{
    if a.len() > 0 {
        lemma_name_lt_irreflexive(a.drop_first());
    }
}

/// The order of texts is transitive.
pub proof fn lemma_name_lt_transitive(a: Seq<char>, b: Seq<char>, c: Seq<char>)
    requires
        name_lt(a, b),
        name_lt(b, c),
    ensures
        name_lt(a, c),
    decreases a.len(),
{
    if a.len() > 0 && a[0] == b[0] && b[0] == c[0] {
        lemma_name_lt_transitive(a.drop_first(), b.drop_first(), c.drop_first());
    }
}

} // verus!
