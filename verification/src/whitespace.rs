//! Whitespace: collapsing runs, trimming, splitting at a two-character mark.
use vstd::prelude::*;
use crate::text::push_char;

verus! {

/// Whether a character is whitespace (the Unicode White_Space property, as
/// `char::is_whitespace` and the `\s` class of regular expressions define it).
pub open spec fn is_ws(c: char) -> bool {
    ('\u{9}' <= c && c <= '\u{d}') || c == ' ' || c == '\u{85}' || c == '\u{a0}' || c == '\u{1680}'
        || ('\u{2000}' <= c && c <= '\u{200a}') || c == '\u{2028}' || c == '\u{2029}' || c == '\u{202f}'
        || c == '\u{205f}' || c == '\u{3000}'
}

pub fn is_whitespace(c: char) -> (r: bool)
    ensures
        r == is_ws(c),
{
    ('\u{9}' <= c && c <= '\u{d}') || c == ' ' || c == '\u{85}' || c == '\u{a0}' || c == '\u{1680}'
        || ('\u{2000}' <= c && c <= '\u{200a}') || c == '\u{2028}' || c == '\u{2029}' || c == '\u{202f}'
        || c == '\u{205f}' || c == '\u{3000}'
}

/// The text with every run of whitespace replaced by one space.
pub open spec fn collapse_ws(s: Seq<char>) -> Seq<char>
    decreases s.len(),
{
    if s.len() == 0 {
        s
    } else if is_ws(s.last()) {
        if s.len() >= 2 && is_ws(s[s.len() - 2]) {
            collapse_ws(s.drop_last())
        } else {
            collapse_ws(s.drop_last()).push(' ')
        }
    } else {
        collapse_ws(s.drop_last()).push(s.last())
    }
}

pub fn collapse_whitespace(s: &str) -> (r: String)
    ensures
        r@ == collapse_ws(s@),
{
    let len = s.unicode_len();
    let mut out = String::new();
    let mut prev_ws = false;
    let mut i: usize = 0;
    while i < len
        invariant
            len == s@.len(),
            i <= len,
            out@ == collapse_ws(s@.take(i as int)),
            prev_ws == (i > 0 && is_ws(s@[i - 1])),
        decreases len - i,
    {
        let c = s.get_char(i);
        let ws = is_whitespace(c);
        proof {
            let t = s@.take(i + 1);
            assert(t.drop_last() =~= s@.take(i as int));
            assert(t.last() == c);
            if i >= 1 {
                assert(t[t.len() - 2] == s@[i - 1]);
            }
        }
        if ws {
            if !prev_ws {
                push_char(&mut out, ' ');
            }
        } else {
            push_char(&mut out, c);
        }
        prev_ws = ws;
        i = i + 1;
    }
    assert(s@.take(len as int) =~= s@);
    out
}

/// A collapsed text is empty only where the text is, and ends in whitespace
/// exactly where the text does.
proof fn lemma_collapse_last(s: Seq<char>)
    ensures
        (collapse_ws(s).len() == 0) == (s.len() == 0),
        s.len() > 0 ==> (is_ws(collapse_ws(s).last()) == is_ws(s.last())),
    decreases s.len(),
{
    if s.len() > 0 {
        lemma_collapse_last(s.drop_last());
        if s.len() >= 2 {
            assert(s.drop_last().last() == s[s.len() - 2]);
        }
    }
}

/// After collapsing, no two whitespace characters stand side by side, and
/// every whitespace character is a space.
pub proof fn lemma_collapse_single_spaces(s: Seq<char>)
    ensures
        forall|i: int| 0 <= i < collapse_ws(s).len() && is_ws(#[trigger] collapse_ws(s)[i]) ==> collapse_ws(s)[i] == ' ',
        forall|i: int| 0 <= i < collapse_ws(s).len() - 1 ==> !(is_ws(#[trigger] collapse_ws(s)[i]) && is_ws(collapse_ws(s)[i + 1])),
    decreases s.len(),
{
    if s.len() > 0 {
        let p = s.drop_last();
        lemma_collapse_single_spaces(p);
        lemma_collapse_last(p);
        let r = collapse_ws(s);
        let q = collapse_ws(p);
        if is_ws(s.last()) && s.len() >= 2 && is_ws(s[s.len() - 2]) {
            assert(r == q);
        } else {
            assert forall|i: int| 0 <= i < r.len() && is_ws(#[trigger] r[i]) implies r[i] == ' ' by {
                if i < q.len() {
                    assert(r[i] == q[i]);
                }
            };
            assert forall|i: int| 0 <= i < r.len() - 1 implies !(is_ws(#[trigger] r[i]) && is_ws(r[i + 1])) by {
                if i < q.len() - 1 {
                    assert(r[i] == q[i]);
                    assert(r[i + 1] == q[i + 1]);
                } else if i == q.len() - 1 {
                    assert(r[i] == q.last());
                    if is_ws(s.last()) {
                        assert(p.last() == s[s.len() - 2]);
                    }
                }
            };
        }
    }
}

/// Collapsing twice gives what collapsing once gives.
pub proof fn lemma_collapse_idempotent(s: Seq<char>)
    ensures
        collapse_ws(collapse_ws(s)) == collapse_ws(s),
    decreases s.len(),
{
    if s.len() > 0 {
        let p = s.drop_last();
        let c = s.last();
        lemma_collapse_idempotent(p);
        lemma_collapse_last(p);
        let q = collapse_ws(p);
        if is_ws(c) && s.len() >= 2 && is_ws(s[s.len() - 2]) {
            assert(collapse_ws(s) == q);
        } else {
            let x = if is_ws(c) { ' ' } else { c };
            let t = q.push(x);
            assert(collapse_ws(s) == t);
            assert(t.drop_last() =~= q);
            assert(t.last() == x);
            if q.len() > 0 {
                assert(t[t.len() - 2] == q.last());
                if is_ws(c) {
                    assert(p.last() == s[s.len() - 2]);
                }
            }
            assert(collapse_ws(t) == collapse_ws(q).push(x));
        }
    }
}

/// The text without leading whitespace.
pub open spec fn trim_start_ws(s: Seq<char>) -> Seq<char>
    decreases s.len(),
{
    if s.len() > 0 && is_ws(s[0]) {
        trim_start_ws(s.drop_first())
    } else {
        s
    }
}

/// The text without trailing whitespace.
pub open spec fn trim_end_ws(s: Seq<char>) -> Seq<char>
    decreases s.len(),
{
    if s.len() > 0 && is_ws(s.last()) {
        trim_end_ws(s.drop_last())
    } else {
        s
    }
}

/// The text without leading and trailing whitespace, as `str::trim` gives it.
pub open spec fn trim_ws(s: Seq<char>) -> Seq<char> {
    trim_end_ws(trim_start_ws(s))
}

proof fn lemma_trim_start_skip(s: Seq<char>, i: int)
    requires
        0 <= i <= s.len(),
        forall|j: int| 0 <= j < i ==> is_ws(s[j]),
    ensures
        trim_start_ws(s) == trim_start_ws(s.skip(i)),
    decreases i,
{
    if i > 0 {
        assert(s.drop_first().skip(i - 1) =~= s.skip(i));
        assert forall|j: int| 0 <= j < i - 1 implies is_ws(s.drop_first()[j]) by {
            assert(s.drop_first()[j] == s[j + 1]);
        };
        lemma_trim_start_skip(s.drop_first(), i - 1);
    } else {
        assert(s.skip(0) =~= s);
    }
}

proof fn lemma_trim_end_take(s: Seq<char>, k: int)
    requires
        0 <= k <= s.len(),
        forall|j: int| k <= j < s.len() ==> is_ws(s[j]),
    ensures
        trim_end_ws(s) == trim_end_ws(s.take(k)),
    decreases s.len() - k,
{
    if k < s.len() {
        assert(s.drop_last().take(k) =~= s.take(k));
        lemma_trim_end_take(s.drop_last(), k);
    } else {
        assert(s.take(k) =~= s);
    }
}

/// A text without leading whitespace starts with no whitespace.
proof fn lemma_trim_start_first(s: Seq<char>)
    ensures
        trim_start_ws(s).len() > 0 ==> !is_ws(trim_start_ws(s)[0]),
    decreases s.len(),
{
    if s.len() > 0 && is_ws(s[0]) {
        lemma_trim_start_first(s.drop_first());
    }
}

/// Trimming the end keeps a prefix and leaves no whitespace at the end.
proof fn lemma_trim_end_prefix(s: Seq<char>)
    ensures
        trim_end_ws(s).len() <= s.len(),
        trim_end_ws(s) == s.take(trim_end_ws(s).len() as int),
        trim_end_ws(s).len() > 0 ==> !is_ws(trim_end_ws(s).last()),
    decreases s.len(),
{
    if s.len() > 0 && is_ws(s.last()) {
        lemma_trim_end_prefix(s.drop_last());
        let t = trim_end_ws(s.drop_last());
        assert(s.drop_last().take(t.len() as int) =~= s.take(t.len() as int));
    } else {
        assert(s.take(s.len() as int) =~= s);
    }
}

/// A trimmed text neither starts nor ends with whitespace.
pub proof fn lemma_trimmed_edges(s: Seq<char>)
    ensures
        trim_ws(s).len() > 0 ==> !is_ws(trim_ws(s)[0]) && !is_ws(trim_ws(s).last()),
{
    lemma_trim_start_first(s);
    lemma_trim_end_prefix(trim_start_ws(s));
    let u = trim_start_ws(s);
    let t = trim_ws(s);
    if t.len() > 0 {
        assert(t[0] == u.take(t.len() as int)[0]);
    }
}

/// Removes leading and trailing whitespace.
pub fn trim(s: &str) -> (r: String)
    ensures
        r@ == trim_ws(s@),
{
    let len = s.unicode_len();
    let mut a: usize = 0;
    while a < len && is_whitespace(s.get_char(a))
        invariant
            len == s@.len(),
            a <= len,
            forall|j: int| 0 <= j < a ==> is_ws(s@[j]),
        decreases len - a,
    {
        a = a + 1;
    }
    proof { lemma_trim_start_skip(s@, a as int); }
    let ghost rest = s@.skip(a as int);
    assert(a < len ==> !is_ws(rest[0]));
    assert(trim_start_ws(rest) == rest);
    let mut b: usize = len;
    while b > a && is_whitespace(s.get_char(b - 1))
        invariant
            len == s@.len(),
            a <= b <= len,
            rest == s@.skip(a as int),
            forall|j: int| b - a <= j < rest.len() ==> is_ws(rest[j]),
        decreases b,
    {
        b = b - 1;
    }
    proof {
        lemma_trim_end_take(rest, b - a);
        let t = rest.take(b - a);
        if t.len() > 0 {
            assert(t.last() == s@[b - 1]);
        }
        assert(trim_end_ws(t) == t);
        assert(t =~= s@.subrange(a as int, b as int));
    }
    String::from_str(s.substring_char(a, b))
}

/// Whether the two-character mark `m` starts at `i`.
pub open spec fn mark_at(s: Seq<char>, i: int, m: (char, char)) -> bool {
    0 <= i && i + 1 < s.len() && s[i] == m.0 && s[i + 1] == m.1
}

/// The first position from `from` on where the mark starts.
pub open spec fn find_mark(s: Seq<char>, from: int, m: (char, char)) -> Option<int>
    decreases s.len() - from,
{
    if from < 0 || from + 1 >= s.len() {
        None
    } else if mark_at(s, from, m) {
        Some(from)
    } else {
        find_mark(s, from + 1, m)
    }
}

/// A mark found from `from` on starts there or later and ends within the text.
pub proof fn lemma_find_mark_bounds(s: Seq<char>, from: int, m: (char, char))
    ensures
        find_mark(s, from, m) matches Some(i) ==> from <= i && i + 2 <= s.len(),
    decreases s.len() - from,
{
    if from >= 0 && from + 1 < s.len() && !mark_at(s, from, m) {
        lemma_find_mark_bounds(s, from + 1, m);
    }
}

/// Searching the text from `start + k` finds what searching its tail after
/// `start` finds from `k`, shifted by `start`.
pub proof fn lemma_find_mark_shift(s: Seq<char>, start: int, k: int, m: (char, char))
    requires
        0 <= start <= s.len(),
        0 <= k,
    ensures
        match find_mark(s.skip(start), k, m) {
            Some(i) => find_mark(s, start + k, m) == Some(start + i),
            None => find_mark(s, start + k, m) is None,
        },
    decreases s.len() - start - k,
{
    let t = s.skip(start);
    if k + 1 < t.len() {
        assert(t[k] == s[start + k]);
        assert(t[k + 1] == s[start + k + 1]);
        if !mark_at(t, k, m) {
            lemma_find_mark_shift(s, start, k + 1, m);
        }
    }
}

/// The pieces of `s` between non-overlapping occurrences of the two-character
/// mark, searched from the left, as `str::split` with a two-character pattern
/// yields them.
pub open spec fn split_mark(s: Seq<char>, m: (char, char)) -> Seq<Seq<char>>
    decreases s.len(),
{
    match find_mark(s, 0, m) {
        Some(i) => {
            proof { lemma_find_mark_bounds(s, 0, m); }
            seq![s.take(i)] + split_mark(s.skip(i + 2), m)
        },
        None => seq![s],
    }
}

/// The first position from `from` on where the mark `m0 m1` starts.
fn find_mark_from(s: &str, from: usize, m0: char, m1: char) -> (r: Option<usize>)
    requires
        from <= s@.len(),
    ensures
        match r {
            Some(i) => find_mark(s@, from as int, (m0, m1)) == Some(i as int),
            None => find_mark(s@, from as int, (m0, m1)) is None,
        },
{
    let len = s.unicode_len();
    let mut i = from;
    while i < len && i + 1 < len
        invariant
            len == s@.len(),
            from <= i <= len,
            find_mark(s@, from as int, (m0, m1)) == find_mark(s@, i as int, (m0, m1)),
        decreases len - i,
    {
        if s.get_char(i) == m0 && s.get_char(i + 1) == m1 {
            return Some(i);
        }
        i = i + 1;
    }
    None
}

/// Splits `s` at every occurrence of the two-character mark `m0 m1`.
pub fn split_at_mark(s: &str, m0: char, m1: char) -> (r: Vec<String>)
    ensures
        r@.map_values(|x: String| x@) == split_mark(s@, (m0, m1)),
{
    let len = s.unicode_len();
    let mut pieces: Vec<String> = Vec::new();
    let mut start: usize = 0;
    assert(s@.skip(0) =~= s@);
    assert(pieces@.map_values(|x: String| x@) =~= Seq::<Seq<char>>::empty());
    loop
        invariant
            len == s@.len(),
            start <= len,
            pieces@.map_values(|x: String| x@) + split_mark(s@.skip(start as int), (m0, m1)) == split_mark(s@, (m0, m1)),
        decreases len - start,
    {
        let ghost rest = s@.skip(start as int);
        proof { lemma_find_mark_shift(s@, start as int, 0, (m0, m1)); }
        match find_mark_from(s, start, m0, m1) {
            Some(i) => {
                proof { lemma_find_mark_bounds(s@, start as int, (m0, m1)); }
                let piece = String::from_str(s.substring_char(start, i));
                proof {
                    assert(find_mark(rest, 0, (m0, m1)) == Some(i - start));
                    assert(rest.take(i - start) =~= s@.subrange(start as int, i as int));
                    assert(rest.skip(i - start + 2) =~= s@.skip(i + 2));
                    let before = pieces@.map_values(|x: String| x@);
                    assert(pieces@.push(piece).map_values(|x: String| x@) =~= before.push(piece@));
                    assert(before.push(piece@) + split_mark(s@.skip(i + 2), (m0, m1)) =~= before + split_mark(rest, (m0, m1)));
                }
                pieces.push(piece);
                start = i + 2;
            },
            None => {
                let piece = String::from_str(s.substring_char(start, len));
                proof {
                    assert(rest =~= s@.subrange(start as int, len as int));
                    let before = pieces@.map_values(|x: String| x@);
                    assert(pieces@.push(piece).map_values(|x: String| x@) =~= before.push(piece@));
                    assert(before.push(piece@) =~= before + split_mark(rest, (m0, m1)));
                }
                pieces.push(piece);
                return pieces;
            },
        }
    }
}

} // verus!
