//! Text primitives: decimal numbers, splitting, escaping.
use vstd::prelude::*;
use vstd::string::*;

verus! {

/// The decimal digit character of `d` (for `d < 10`).
pub open spec fn digit_char(d: nat) -> char {
    if d == 0 { '0' }
    else if d == 1 { '1' }
    else if d == 2 { '2' }
    else if d == 3 { '3' }
    else if d == 4 { '4' }
    else if d == 5 { '5' }
    else if d == 6 { '6' }
    else if d == 7 { '7' }
    else if d == 8 { '8' }
    else { '9' }
}

/// The decimal representation of a natural number, without leading zeros.
pub open spec fn decimal(n: nat) -> Seq<char>
    decreases n,
{
    if n < 10 {
        seq![digit_char(n)]
    } else {
        decimal(n / 10).push(digit_char(n % 10))
    }
}

/// The decimal representation of an integer, with a leading '-' when negative.
pub open spec fn signed_decimal(i: int) -> Seq<char> {
    if i < 0 {
        seq!['-'] + decimal((-i) as nat)
    } else {
        decimal(i as nat)
    }
}

fn digit_str(d: u64) -> (r: &'static str)
    requires
        d < 10,
    ensures
        r@ == seq![digit_char(d as nat)],
{
    if d == 0 {
        proof { reveal_strlit("0"); }
        "0"
    } else if d == 1 {
        proof { reveal_strlit("1"); }
        "1"
    } else if d == 2 {
        proof { reveal_strlit("2"); }
        "2"
    } else if d == 3 {
        proof { reveal_strlit("3"); }
        "3"
    } else if d == 4 {
        proof { reveal_strlit("4"); }
        "4"
    } else if d == 5 {
        proof { reveal_strlit("5"); }
        "5"
    } else if d == 6 {
        proof { reveal_strlit("6"); }
        "6"
    } else if d == 7 {
        proof { reveal_strlit("7"); }
        "7"
    } else if d == 8 {
        proof { reveal_strlit("8"); }
        "8"
    } else {
        proof { reveal_strlit("9"); }
        "9"
    }
}

/// Writes `n` in decimal.
pub fn u64_to_string(n: u64) -> (s: String)
    ensures
        s@ == decimal(n as nat),
    decreases n,
{
    if n < 10 {
        String::from_str(digit_str(n))
    } else {
        let mut s = u64_to_string(n / 10);
        s.append(digit_str(n % 10));
        s
    }
}

/// Writes `i` in decimal, with a '-' sign when negative.
pub fn i64_to_string(i: i64) -> (s: String)
    ensures
        s@ == signed_decimal(i as int),
{
    if i < 0 {
        let m: u64 = ((-(i + 1)) as u64) + 1;
        let mut s = String::from_str("-");
        proof { reveal_strlit("-"); }
        let d = u64_to_string(m);
        s.append(d.as_str());
        s
    } else {
        u64_to_string(i as u64)
    }
}


/// Whether `c` is an ASCII decimal digit.
pub open spec fn is_digit(c: char) -> bool {
    '0' <= c && c <= '9'
}

/// The value of a string of decimal digits (most significant first).
pub open spec fn digits_value(s: Seq<char>) -> nat
    decreases s.len(),
{
    if s.len() == 0 {
        0
    } else {
        digits_value(s.drop_last()) * 10 + ((s.last() as int) - ('0' as int)) as nat
    }
}

/// The digits of a number in text form: an optional leading '+' is not part of them.
pub open spec fn unsigned_digits(s: Seq<char>) -> Seq<char> {
    if s.len() > 0 && s[0] == '+' {
        s.drop_first()
    } else {
        s
    }
}

/// How an unsigned 64-bit number is read from text: an optional '+', then one or
/// more decimal digits, whose value fits in 64 bits.
pub open spec fn parse_u64_spec(s: Seq<char>) -> Option<u64> {
    let d = unsigned_digits(s);
    if d.len() > 0 && (forall|i: int| 0 <= i < d.len() ==> is_digit(#[trigger] d[i]))
        && digits_value(d) <= u64::MAX {
        Some(digits_value(d) as u64)
    } else {
        None
    }
}

proof fn lemma_digits_value_prefix_le(s: Seq<char>, k: int)
    requires
        0 <= k <= s.len(),
        forall|i: int| 0 <= i < s.len() ==> is_digit(#[trigger] s[i]),
    ensures
        digits_value(s.take(k)) <= digits_value(s),
    decreases s.len() - k,
{
    if k < s.len() {
        lemma_digits_value_prefix_le(s, k + 1);
        assert(s.take(k + 1).drop_last() =~= s.take(k));
    } else {
        assert(s.take(k) =~= s);
    }
}

/// Every character of a decimal representation is a digit, and the digits
/// have the value written.
pub proof fn lemma_decimal_digits(n: nat)
    ensures
        decimal(n).len() > 0,
        forall|i: int| 0 <= i < decimal(n).len() ==> is_digit(#[trigger] decimal(n)[i]),
        digits_value(decimal(n)) == n,
    decreases n,
{
    if n < 10 {
        assert(digits_value(decimal(n).drop_last()) == 0);
    } else {
        lemma_decimal_digits(n / 10);
        let s = decimal(n);
        assert(s.drop_last() =~= decimal(n / 10));
        assert forall|i: int| 0 <= i < s.len() implies is_digit(#[trigger] s[i]) by {
            if i < s.len() - 1 {
                assert(s[i] == decimal(n / 10)[i]);
            }
        };
        assert((n / 10) * 10 + n % 10 == n);
    }
}

/// Reading the decimal representation of a 64-bit number gives the number
/// back.
pub proof fn lemma_parse_decimal(n: u64)
    ensures
        parse_u64_spec(decimal(n as nat)) == Some(n),
{
    lemma_decimal_digits(n as nat);
    let d = decimal(n as nat);
    assert(is_digit(d[0]));
    assert(unsigned_digits(d) == d);
}

/// Reads an unsigned 64-bit number as `str::parse::<u64>` does.
pub fn parse_u64(s: &str) -> (r: Option<u64>)
    ensures
        r == parse_u64_spec(s@),
{
    let len = s.unicode_len();
    if len == 0 {
        return None;
    }
    let mut i: usize = 0;
    if s.get_char(0) == '+' {
        i = 1;
        if len == 1 {
            return None;
        }
    }
    let start = i;
    let ghost d = unsigned_digits(s@);
    assert(d =~= s@.skip(start as int));
    let mut acc: u64 = 0;
    while i < len
        invariant
            len == s@.len(),
            start <= i <= len,
            start < len,
            d == s@.skip(start as int),
            d == unsigned_digits(s@),
            forall|j: int| 0 <= j < i - start ==> is_digit(#[trigger] d[j]),
            acc as nat == digits_value(d.take(i - start)),
        decreases len - i,
    {
        let c = s.get_char(i);
        if !('0' <= c && c <= '9') {
            assert(d[i - start] == c);
            assert(!is_digit(d[i - start]));
            return None;
        }
        let v: u64 = (c as u64) - ('0' as u64);
        assert(d.take(i + 1 - start).drop_last() =~= d.take(i - start));
        assert(d[i - start] == c);
        if acc > (u64::MAX - v) / 10 {
            proof {
                assert(acc * 10 + v > u64::MAX) by (nonlinear_arith)
                    requires acc > (u64::MAX - v) / 10, v < 10;
                let k = i + 1 - start;
                if forall|j: int| 0 <= j < d.len() ==> is_digit(#[trigger] d[j]) {
                    lemma_digits_value_prefix_le(d, k as int);
                }
            }
            return None;
        }
        acc = acc * 10 + v;
        i = i + 1;
    }
    assert(d.take(len - start) =~= d);
    Some(acc)
}


/// The position of the first occurrence of `c` in `s`, if any.
pub open spec fn find_char(s: Seq<char>, c: char) -> Option<nat>
    decreases s.len(),
{
    if s.len() == 0 {
        None
    } else if s[0] == c {
        Some(0)
    } else {
        match find_char(s.drop_first(), c) {
            Some(i) => Some(i + 1),
            None => None,
        }
    }
}

/// What `find_char` finds: the first occurrence, or that there is none.
pub proof fn lemma_find_char(s: Seq<char>, c: char)
    ensures
        match find_char(s, c) {
            Some(i) => i < s.len() && s[i as int] == c && forall|j: int| 0 <= j < i ==> s[j] != c,
            None => forall|j: int| 0 <= j < s.len() ==> s[j] != c,
        },
    decreases s.len(),
{
    if s.len() > 0 && s[0] != c {
        lemma_find_char(s.drop_first(), c);
        match find_char(s.drop_first(), c) {
            Some(i) => {
                assert forall|j: int| 0 <= j < i + 1 implies s[j] != c by {
                    if j > 0 {
                        assert(s[j] == s.drop_first()[j - 1]);
                    }
                };
            },
            None => {
                assert forall|j: int| 0 <= j < s.len() implies s[j] != c by {
                    if j > 0 {
                        assert(s[j] == s.drop_first()[j - 1]);
                    }
                };
            },
        }
    }
}

/// The first occurrence of `c` is at `i` where `s[i]` is `c` and no earlier
/// position holds it.
pub proof fn lemma_find_char_at(s: Seq<char>, c: char, i: int)
    requires
        0 <= i < s.len(),
        s[i] == c,
        forall|j: int| 0 <= j < i ==> s[j] != c,
    ensures
        find_char(s, c) == Some(i as nat),
    decreases i,
{
    if i > 0 {
        assert forall|j: int| 0 <= j < i - 1 implies s.drop_first()[j] != c by {
            assert(s.drop_first()[j] == s[j + 1]);
        };
        lemma_find_char_at(s.drop_first(), c, i - 1);
    }
}

proof fn lemma_find_char_none(s: Seq<char>, c: char)
    requires
        forall|j: int| 0 <= j < s.len() ==> s[j] != c,
    ensures
        find_char(s, c) == None::<nat>,
    decreases s.len(),
{
    if s.len() > 0 {
        assert forall|j: int| 0 <= j < s.len() - 1 implies s.drop_first()[j] != c by {
            assert(s.drop_first()[j] == s[j + 1]);
        };
        lemma_find_char_none(s.drop_first(), c);
    }
}

/// The pieces of `s` between occurrences of `c`, as `str::split` yields them
/// (empty pieces included; one more piece than there are separators).
pub open spec fn split_all(s: Seq<char>, c: char) -> Seq<Seq<char>>
    decreases s.len(),
{
    match find_char(s, c) {
        Some(i) => {
            proof {
                lemma_find_char(s, c);
            }
            seq![s.take(i as int)] + split_all(s.skip(i as int + 1), c)
        },
        None => seq![s],
    }
}

/// At most `n` pieces of `s` between occurrences of `c`, as `str::splitn` yields
/// them: the last piece holds the rest of the text, separators included.
pub open spec fn split_n(s: Seq<char>, c: char, n: nat) -> Seq<Seq<char>>
    decreases n,
{
    if n == 0 {
        seq![]
    } else if n == 1 {
        seq![s]
    } else {
        match find_char(s, c) {
            Some(i) => seq![s.take(i as int)] + split_n(s.skip(i as int + 1), c, (n - 1) as nat),
            None => seq![s],
        }
    }
}

/// The first position at or after `from` that holds `c`.
fn find_char_from(s: &str, c: char, from: usize) -> (r: Option<usize>)
    requires
        from <= s@.len(),
    ensures
        match find_char(s@.skip(from as int), c) {
            Some(k) => r == Some((from + k) as usize),
            None => r is None,
        },
{
    let len = s.unicode_len();
    let mut i = from;
    while i < len
        invariant
            len == s@.len(),
            from <= i <= len,
            forall|j: int| from <= j < i ==> s@[j] != c,
        decreases len - i,
    {
        if s.get_char(i) == c {
            proof {
                let t = s@.skip(from as int);
                assert forall|j: int| 0 <= j < i - from implies t[j] != c by {
                    assert(t[j] == s@[j + from]);
                };
                lemma_find_char_at(t, c, i - from);
            }
            return Some(i);
        }
        i = i + 1;
    }
    proof {
        let t = s@.skip(from as int);
        assert forall|j: int| 0 <= j < t.len() implies t[j] != c by {
            assert(t[j] == s@[j + from]);
        };
        lemma_find_char_none(t, c);
    }
    None
}

/// The views of a list of strings.
pub open spec fn views(v: Seq<String>) -> Seq<Seq<char>> {
    v.map_values(|x: String| x@)
}

/// Splits `s` at every `c`, as `str::split` does.
pub fn split_char(s: &str, c: char) -> (r: Vec<String>)
    ensures
        views(r@) == split_all(s@, c),
{
    let len = s.unicode_len();
    let mut pieces: Vec<String> = Vec::new();
    let mut start: usize = 0;
    assert(s@.skip(0) =~= s@);
    loop
        invariant
            len == s@.len(),
            start <= len,
            views(pieces@) + split_all(s@.skip(start as int), c) == split_all(s@, c),
        decreases len - start,
    {
        let ghost rest = s@.skip(start as int);
        match find_char_from(s, c, start) {
            Some(k) => {
                proof { lemma_find_char(rest, c); }
                let piece = String::from_str(s.substring_char(start, k));
                proof {
                    assert(rest.take(k - start) =~= s@.subrange(start as int, k as int));
                    assert(rest.skip(k - start + 1) =~= s@.skip(k + 1));
                    assert(views(pieces@.push(piece)) =~= views(pieces@).push(piece@));
                    assert(views(pieces@).push(piece@) + split_all(s@.skip(k + 1), c)
                        =~= views(pieces@) + split_all(rest, c));
                }
                pieces.push(piece);
                start = k + 1;
            },
            None => {
                let piece = String::from_str(s.substring_char(start, len));
                proof {
                    assert(rest =~= s@.subrange(start as int, len as int));
                    assert(views(pieces@.push(piece)) =~= views(pieces@).push(piece@));
                    assert(views(pieces@).push(piece@) =~= views(pieces@) + split_all(rest, c));
                }
                pieces.push(piece);
                return pieces;
            },
        }
    }
}

/// Splits `s` into at most `n` pieces at `c`, as `str::splitn` does.
pub fn split_char_n(s: &str, c: char, n: usize) -> (r: Vec<String>)
    ensures
        views(r@) == split_n(s@, c, n as nat),
{
    let len = s.unicode_len();
    let mut pieces: Vec<String> = Vec::new();
    if n == 0 {
        assert(views(pieces@) =~= Seq::<Seq<char>>::empty());
        return pieces;
    }
    let mut start: usize = 0;
    let mut left: usize = n;
    assert(s@.skip(0) =~= s@);
    assert(views(pieces@) =~= Seq::<Seq<char>>::empty());
    loop
        invariant
            len == s@.len(),
            start <= len,
            1 <= left <= n,
            views(pieces@) + split_n(s@.skip(start as int), c, left as nat) == split_n(s@, c, n as nat),
        decreases left,
    {
        let ghost rest = s@.skip(start as int);
        let found = if left == 1 { None } else { find_char_from(s, c, start) };
        match found {
            Some(k) => {
                proof { lemma_find_char(rest, c); }
                let piece = String::from_str(s.substring_char(start, k));
                proof {
                    assert(rest.take(k - start) =~= s@.subrange(start as int, k as int));
                    assert(rest.skip(k - start + 1) =~= s@.skip(k + 1));
                    assert(views(pieces@.push(piece)) =~= views(pieces@).push(piece@));
                    assert(views(pieces@).push(piece@) + split_n(s@.skip(k + 1), c, (left - 1) as nat)
                        =~= views(pieces@) + split_n(rest, c, left as nat));
                }
                pieces.push(piece);
                start = k + 1;
                left = left - 1;
            },
            None => {
                let piece = String::from_str(s.substring_char(start, len));
                proof {
                    assert(rest =~= s@.subrange(start as int, len as int));
                    assert(views(pieces@.push(piece)) =~= views(pieces@).push(piece@));
                    assert(views(pieces@).push(piece@) =~= views(pieces@) + split_n(rest, c, left as nat));
                }
                pieces.push(piece);
                return pieces;
            },
        }
    }
}


/// The signed number that an unsigned one stands for when its bits are read as `i64`.
pub open spec fn as_signed(x: u64) -> int {
    if x <= i64::MAX {
        x as int
    } else {
        x - 0x1_0000_0000_0000_0000
    }
}

/// Reads the bits of `x` as `i64`, as `x as i64` does.
pub fn to_signed(x: u64) -> (r: i64)
    ensures
        r as int == as_signed(x),
{
    let r: i64 = #[verifier::truncate] (x as i64);
    assert(x <= 0x7fff_ffff_ffff_ffff ==> r == x) by (bit_vector)
        requires r == #[verifier::truncate] (x as i64);
    assert(x > 0x7fff_ffff_ffff_ffff ==> r == x - 0x1_0000_0000_0000_0000) by (bit_vector)
        requires r == #[verifier::truncate] (x as i64);
    r
}


/// Whether two texts are equal, character by character.
pub fn str_eq(a: &str, b: &str) -> (r: bool)
    ensures
        r == (a@ == b@),
{
    let n = a.unicode_len();
    if n != b.unicode_len() {
        return false;
    }
    let mut i: usize = 0;
    while i < n
        invariant
            n == a@.len(),
            n == b@.len(),
            i <= n,
            forall|j: int| 0 <= j < i ==> a@[j] == b@[j],
        decreases n - i,
    {
        if a.get_char(i) != b.get_char(i) {
            return false;
        }
        i = i + 1;
    }
    assert(a@ =~= b@);
    true
}

/// Whether `s` begins with `prefix`.
pub open spec fn starts_with_spec(s: Seq<char>, prefix: Seq<char>) -> bool {
    prefix.len() <= s.len() && s.take(prefix.len() as int) == prefix
}

pub fn starts_with(s: &str, prefix: &str) -> (r: bool)
    ensures
        r == starts_with_spec(s@, prefix@),
{
    let n = prefix.unicode_len();
    if n > s.unicode_len() {
        return false;
    }
    let mut i: usize = 0;
    while i < n
        invariant
            n == prefix@.len(),
            n <= s@.len(),
            i <= n,
            forall|j: int| 0 <= j < i ==> s@[j] == prefix@[j],
        decreases n - i,
    {
        if s.get_char(i) != prefix.get_char(i) {
            assert(s@.take(n as int)[i as int] != prefix@[i as int]);
            return false;
        }
        i = i + 1;
    }
    assert(s@.take(n as int) =~= prefix@);
    true
}

/// The text of `s` from position `from` on.
pub fn skip_chars(s: &str, from: usize) -> (r: String)
    requires
        from <= s@.len(),
    ensures
        r@ == s@.skip(from as int),
{
    let n = s.unicode_len();
    let r = String::from_str(s.substring_char(from, n));
    assert(s@.subrange(from as int, n as int) =~= s@.skip(from as int));
    r
}


/// The unsigned number that a signed one stands for when its bits are read as `u64`.
pub open spec fn as_unsigned(x: i64) -> u64 {
    if x >= 0 {
        x as u64
    } else {
        (x + 0x1_0000_0000_0000_0000) as u64
    }
}

/// Reads the bits of `x` as `u64`, as `x as u64` does.
pub fn to_unsigned(x: i64) -> (r: u64)
    ensures
        r == as_unsigned(x),
{
    let r: u64 = #[verifier::truncate] (x as u64);
    assert(x >= 0 ==> r == x) by (bit_vector)
        requires r == #[verifier::truncate] (x as u64);
    assert(x < 0 ==> r == x + 0x1_0000_0000_0000_0000) by (bit_vector)
        requires r == #[verifier::truncate] (x as u64);
    r
}

/// Reading the bits of an unsigned number as signed and back gives it again.
pub proof fn lemma_signed_round_trip(x: u64)
    ensures
        as_signed(x) >= i64::MIN && as_signed(x) <= i64::MAX,
        as_unsigned(as_signed(x) as i64) == x,
{
}


/// Appends a character (`String::push`).
#[verifier::external_body]
pub(crate) fn push_char(s: &mut String, c: char)
    ensures
        final(s)@ == old(s)@.push(c),
{
    s.push(c)
}

} // verus!
