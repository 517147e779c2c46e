//! Character-level text operations used to build messages and read numbers:
//! decimal rendering and parsing of integers, and substring tests and
//! replacement on strings, each stated over the string's characters.

use vstd::prelude::*;
use vstd::utf8::valid_utf8;
use vstd::utf8::decode_utf8;

verus! {

/// The decimal digit character for a digit value `0 <= d < 10`.
pub open spec fn digit_char(d: int) -> char {
    ((d + 48) as u32) as char
}

/// Decimal rendering of a natural number, most significant digit first,
/// without leading zeros (zero is rendered as "0").
pub open spec fn nat_decimal(n: nat) -> Seq<char>
    decreases n,
{
    if n < 10 {
        seq![digit_char(n as int)]
    } else {
        nat_decimal(n / 10) + seq![digit_char((n % 10) as int)]
    }
}

/// Decimal rendering of an integer: a minus sign before the digits of the
/// magnitude when the integer is negative.
pub open spec fn int_decimal(n: int) -> Seq<char> {
    if n < 0 {
        seq!['-'] + nat_decimal((-n) as nat)
    } else {
        nat_decimal(n as nat)
    }
}

/// The one-character string of a decimal digit.
fn digit_str(d: u64) -> (s: &'static str)
    requires
        d < 10,
    ensures
        s@ == seq![digit_char(d as int)],
{
    if d == 0 {
        proof { reveal_strlit("0"); }
        "0"
    } else if d == 1 {
        proof { reveal_strlit("1"); }
        "1"
    } else if d == 2 {
        proof { reveal_strlit("2"); }
        "2"
    } else if d == 3 {
        proof { reveal_strlit("3"); }
        "3"
    } else if d == 4 {
        proof { reveal_strlit("4"); }
        "4"
    } else if d == 5 {
        proof { reveal_strlit("5"); }
        "5"
    } else if d == 6 {
        proof { reveal_strlit("6"); }
        "6"
    } else if d == 7 {
        proof { reveal_strlit("7"); }
        "7"
    } else if d == 8 {
        proof { reveal_strlit("8"); }
        "8"
    } else {
        proof { reveal_strlit("9"); }
        "9"
    }
}

/// Renders an unsigned integer in decimal, as `Display` does.
pub fn u64_to_decimal(n: u64) -> (s: String)
    ensures
        s@ == nat_decimal(n as nat),
    decreases n,
{
    if n < 10 {
        String::from_str(digit_str(n))
    } else {
        let mut s = u64_to_decimal(n / 10);
        s.append(digit_str(n % 10));
        s
    }
}

/// Renders a signed integer in decimal, as `Display` does.
pub fn i64_to_decimal(n: i64) -> (s: String)
    ensures
        s@ == int_decimal(n as int),
{
    if n < 0 {
        let magnitude: u64 = ((-(n + 1)) as u64) + 1;
        let digits = u64_to_decimal(magnitude);
        proof { reveal_strlit("-"); }
        let s = String::from_str("-");
        s.concat(digits.as_str())
    } else {
        u64_to_decimal(n as u64)
    }
}


/// `p` occurs in `s` starting at position `i`.
pub open spec fn matches_at(s: Seq<char>, p: Seq<char>, i: int) -> bool {
    &&& 0 <= i
    &&& i + p.len() <= s.len()
    &&& s.subrange(i, i + p.len()) == p
}

/// `p` occurs somewhere in `s`.
pub open spec fn contains_seq(s: Seq<char>, p: Seq<char>) -> bool {
    exists|i: int| matches_at(s, p, i)
}

/// `s` begins with `p`.
pub open spec fn starts_with_seq(s: Seq<char>, p: Seq<char>) -> bool {
    matches_at(s, p, 0)
}

/// `s` with every occurrence of the non-empty pattern `from` replaced by
/// `to`, occurrences taken left to right without overlap.
pub open spec fn replace_all(s: Seq<char>, from: Seq<char>, to: Seq<char>) -> Seq<char>
    decreases s.len(),
{
    if s.len() == 0 || from.len() == 0 {
        s
    } else if matches_at(s, from, 0) {
        to + replace_all(s.skip(from.len() as int), from, to)
    } else {
        seq![s[0]] + replace_all(s.skip(1), from, to)
    }
}

/// Whether `p` occurs in `s` at character position `i`.
fn str_matches_at(s: &str, s_len: usize, i: usize, p: &str, p_len: usize) -> (b: bool)
    requires
        s_len == s@.len(),
        p_len == p@.len(),
    ensures
        b == matches_at(s@, p@, i as int),
{
    if i > s_len || p_len > s_len - i {
        return false;
    }
    let mut j: usize = 0;
    while j < p_len
        invariant
            j <= p_len,
            i + p_len <= s_len,
            s_len == s@.len(),
            p_len == p@.len(),
            forall|k: int| 0 <= k < j ==> s@[i + k] == p@[k],
        decreases p_len - j,
    {
        if s.get_char(i + j) != p.get_char(j) {
            assert(s@.subrange(i as int, i + p_len)[j as int] != p@[j as int]);
            return false;
        }
        j += 1;
    }
    assert(s@.subrange(i as int, i + p_len) =~= p@);
    true
}

/// Whether `p` occurs in `s`, as `str::contains` with a string pattern.
pub fn contains_str(s: &str, p: &str) -> (b: bool)
    ensures
        b == contains_seq(s@, p@),
{
    let s_len = s.unicode_len();
    let p_len = p.unicode_len();
    if p_len > s_len {
        return false;
    }
    if p_len == 0 {
        assert(s@.subrange(0, 0) =~= p@);
        assert(matches_at(s@, p@, 0));
        return true;
    }
    let mut i: usize = 0;
    while i <= s_len - p_len
        invariant
            s_len == s@.len(),
            p_len == p@.len(),
            0 < p_len <= s_len,
            forall|k: int| 0 <= k < i ==> !matches_at(s@, p@, k),
        decreases s_len - p_len + 1 - i,
    {
        if str_matches_at(s, s_len, i, p, p_len) {
            return true;
        }
        i += 1;
    }
    assert forall|k: int| !matches_at(s@, p@, k) by {
        if 0 <= k < i {
        }
    }
    false
}

/// Whether `s` begins with `p`, as `str::starts_with` with a string pattern.
pub fn starts_with_str(s: &str, p: &str) -> (b: bool)
    ensures
        b == starts_with_seq(s@, p@),
{
    let s_len = s.unicode_len();
    let p_len = p.unicode_len();
    str_matches_at(s, s_len, 0, p, p_len)
}

/// Whether the character `c` occurs in `s`, as `str::contains` with a `char`.
pub fn contains_char(s: &str, c: char) -> (b: bool)
    ensures
        b == s@.contains(c),
{
    let s_len = s.unicode_len();
    let mut i: usize = 0;
    while i < s_len
        invariant
            s_len == s@.len(),
            i <= s_len,
            forall|k: int| 0 <= k < i ==> s@[k] != c,
        decreases s_len - i,
    {
        if s.get_char(i) == c {
            return true;
        }
        i += 1;
    }
    false
}

proof fn lemma_matches_at_skip(s: Seq<char>, p: Seq<char>, i: int)
    requires
        0 <= i <= s.len(),
    ensures
        matches_at(s.skip(i), p, 0) == matches_at(s, p, i),
{
    if i + p.len() <= s.len() {
        assert(s.skip(i).subrange(0, p.len() as int) =~= s.subrange(i, i + p.len()));
    }
}

/// Replaces every occurrence of the non-empty pattern `from` by `to`, as
/// `str::replace` does.
pub fn replace_str(s: &str, from: &str, to: &str) -> (r: String)
    requires
        from@.len() > 0,
    ensures
        r@ == replace_all(s@, from@, to@),
{
    let s_len = s.unicode_len();
    let from_len = from.unicode_len();
    let mut r = String::new();
    let mut i: usize = 0;
    assert(s@.skip(0) =~= s@);
    while i < s_len
        invariant
            s_len == s@.len(),
            from_len == from@.len(),
            from_len > 0,
            i <= s_len,
            r@ + replace_all(s@.skip(i as int), from@, to@) == replace_all(s@, from@, to@),
        decreases s_len - i,
    {
        let ghost rest = s@.skip(i as int);
        proof {
            lemma_matches_at_skip(s@, from@, i as int);
        }
        if str_matches_at(s, s_len, i, from, from_len) {
            r.append(to);
            assert(rest.skip(from_len as int) =~= s@.skip(i + from_len));
            assert(r@ + replace_all(s@.skip(i + from_len), from@, to@)
                =~= replace_all(s@, from@, to@));
            i = i + from_len;
        } else {
            let one = s.substring_char(i, i + 1);
            r.append(one);
            assert(rest.skip(1) =~= s@.skip(i + 1));
            assert(one@ =~= seq![rest[0]]);
            assert(r@ + replace_all(s@.skip(i + 1), from@, to@)
                =~= replace_all(s@, from@, to@));
            i = i + 1;
        }
    }
    assert(s@.skip(i as int) =~= Seq::<char>::empty());
    assert(r@ =~= replace_all(s@, from@, to@));
    r
}


/// `c` is one of the ASCII digits `0`..`9`.
pub open spec fn is_digit(c: char) -> bool {
    48 <= c as u32 <= 57
}

/// The value of a string of decimal digits, most significant first.
pub open spec fn digits_value(d: Seq<char>) -> int
    decreases d.len(),
{
    if d.len() == 0 {
        0
    } else {
        digits_value(d.drop_last()) * 10 + (d.last() as u32 - 48)
    }
}

/// The digits of an unsigned number: the text without one leading `+`.
pub open spec fn unsigned_digits(s: Seq<char>) -> Seq<char> {
    if s.len() > 0 && s[0] == '+' {
        s.skip(1)
    } else {
        s
    }
}

/// What `u32::from_str` gives for a text: the number when the text is an
/// optional `+` followed by at least one decimal digit and nothing else, and
/// the value fits in 32 bits; nothing otherwise.
pub open spec fn spec_parse_u32(s: Seq<char>) -> Option<u32> {
    let d = unsigned_digits(s);
    if d.len() > 0 && (forall|i: int| 0 <= i < d.len() ==> is_digit(#[trigger] d[i]))
        && digits_value(d) <= u32::MAX {
        Some(digits_value(d) as u32)
    } else {
        None
    }
}

proof fn lemma_digits_value_prefix(d: Seq<char>, k: int)
    requires
        0 <= k <= d.len(),
        forall|i: int| 0 <= i < d.len() ==> is_digit(#[trigger] d[i]),
    ensures
        0 <= digits_value(d.take(k)) <= digits_value(d),
    decreases d.len(),
{
    if d.len() > 0 {
        assert(is_digit(d[d.len() - 1]));
        let e = d.drop_last();
        assert forall|i: int| 0 <= i < e.len() implies is_digit(#[trigger] e[i]) by {
            assert(e[i] == d[i]);
        }
        if k == d.len() {
            assert(d.take(k) =~= d);
            lemma_digits_value_prefix(e, 0);
        } else {
            assert(e.take(k) =~= d.take(k));
            lemma_digits_value_prefix(e, k);
        }
    } else {
        assert(d.take(k) =~= d);
    }
}

/// Reads an unsigned 32-bit decimal number the way `u32::from_str` does.
pub fn parse_u32(s: &str) -> (r: Option<u32>)
    ensures
        r == spec_parse_u32(s@),
{
    let len = s.unicode_len();
    let start: usize = if len > 0 && s.get_char(0) == '+' { 1 } else { 0 };
    let ghost d = unsigned_digits(s@);
    assert(d =~= s@.subrange(start as int, len as int));
    if start >= len {
        return None;
    }
    let mut v: u64 = 0;
    let mut i: usize = start;
    assert(d.take(0) =~= Seq::<char>::empty());
    while i < len
        invariant
            start <= i <= len,
            len == s@.len(),
            d =~= s@.subrange(start as int, len as int),
            d == unsigned_digits(s@),
            v as int == digits_value(d.take(i - start)),
            v <= u32::MAX,
            forall|k: int| 0 <= k < i - start ==> is_digit(#[trigger] d[k]),
        decreases len - i,
    {
        let c = s.get_char(i);
        assert(c == d[i - start]);
        if !('0' <= c && c <= '9') {
            assert(!is_digit(d[i - start]));
            return None;
        }
        let dv: u64 = (c as u32 - 48) as u64;
        let next: u64 = v * 10 + dv;
        assert(d.take(i - start + 1).drop_last() =~= d.take(i - start));
        assert(next as int == digits_value(d.take(i - start + 1)));
        if next > 0xFFFF_FFFF {
            proof {
                if forall|k: int| 0 <= k < d.len() ==> is_digit(#[trigger] d[k]) {
                    lemma_digits_value_prefix(d, i - start + 1);
                }
            }
            return None;
        }
        v = next;
        i += 1;
    }
    assert(d.take(len - start) =~= d);
    Some(v as u32)
}


/// The character that stands in for an invalid UTF-8 sequence.
pub const REPLACEMENT_CHARACTER: char = '\u{FFFD}';

/// What `String::from_utf8_lossy` makes of a byte sequence.
pub uninterp spec fn utf8_lossy(bytes: Seq<u8>) -> Seq<char>;

/// Decodes bytes as UTF-8 with `String::from_utf8_lossy`, which replaces each
/// invalid sequence by U+FFFD. The contract names the result and states what
/// its documentation promises of valid input: the same characters that the
/// bytes encode; and of invalid input, that each invalid sequence becomes
/// U+FFFD, so that the result holds at least one. Which characters stand
/// around the replacements is left unsaid.
#[verifier::external_body]
pub(crate) fn decode_utf8_lossy(bytes: &[u8]) -> (s: String)
    ensures
        s@ == utf8_lossy(bytes@),
        valid_utf8(bytes@) ==> s@ == decode_utf8(bytes@),
        !valid_utf8(bytes@) ==> exists|i: int| 0 <= i < s@.len() && s@[i] == REPLACEMENT_CHARACTER,
{
    String::from_utf8_lossy(bytes).into_owned()
}

/// Whether two strings hold the same characters.
pub fn str_equal(a: &str, b: &str) -> (r: bool)
    ensures
        r == (a@ == b@),
{
    let a_len = a.unicode_len();
    let b_len = b.unicode_len();
    if a_len != b_len {
        return false;
    }
    let r = str_matches_at(a, a_len, 0, b, b_len);
    assert(a@.subrange(0, a_len as int) =~= a@);
    r
}

} // verus!
