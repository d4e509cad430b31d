//! Verified string helpers, built on the character and UTF-8 models of vstd.

use vstd::prelude::*;

verus! {

use vstd::string::StrSliceExecFns;

/// The characters of a sequence of ASCII bytes, each byte read as the
/// character with the same value.
pub open spec fn ascii_chars_of(bytes: Seq<u8>) -> Seq<char> {
    bytes.map_values(|b: u8| b as char)
}

/// Relies on `String::from_utf8`: ASCII bytes are valid UTF-8 and decode
/// to the characters with the same values.
#[verifier::external_body]
pub(crate) fn ascii_to_string(bytes: Vec<u8>) -> (r: String)
    requires
        crate::seq_is_ascii(bytes@),
    ensures
        r@ == ascii_chars_of(bytes@),
{
    match String::from_utf8(bytes) {
        Ok(s) => s,
        Err(_) => String::new(),
    }
}

/// String equality, decided on the UTF-8 bytes of the two strings.
pub fn str_eq(a: &str, b: &str) -> (r: bool)
    ensures
        r == (a@ == b@),
{
    let ab = a.as_bytes();
    let bb = b.as_bytes();
    proof {
        if a@ == b@ {
            assert(ab@ == bb@);
        }
    }
    if ab.len() != bb.len() {
        return false;
    }
    let mut i: usize = 0;
    while i < ab.len()
        invariant
            i <= ab@.len(),
            ab@.len() == bb@.len(),
            ab@ == vstd::utf8::encode_utf8(a@),
            bb@ == vstd::utf8::encode_utf8(b@),
            forall|j: int| 0 <= j < i ==> ab@[j] == bb@[j],
        decreases ab@.len() - i,
    {
        if ab[i] != bb[i] {
            proof {
                if a@ == b@ {
                    assert(ab@ == bb@);
                }
            }
            return false;
        }
        i += 1;
    }
    proof {
        assert(ab@ =~= bb@);
        vstd::utf8::encode_utf8_decode_utf8(a@);
        vstd::utf8::encode_utf8_decode_utf8(b@);
    }
    true
}

/// The decimal digits of `n`, as ASCII bytes, most significant first.
pub open spec fn dec_digits(n: nat) -> Seq<u8>
    decreases n,
{
    if n <= 9 {
        seq![(0x30 + n) as u8]
    } else {
        dec_digits(n / 10).push((0x30 + n % 10) as u8)
    }
}

/// Every byte of a decimal representation is an ASCII digit.
pub proof fn lemma_dec_digits_ascii(n: nat)
    ensures
        forall|i: int| 0 <= i < dec_digits(n).len() ==> 0x30 <= #[trigger] dec_digits(n)[i] <= 0x39,
    decreases n,
{
    if n <= 9 {
        assert(dec_digits(n) == seq![(0x30 + n) as u8]);
        assert(dec_digits(n)[0] == (0x30 + n) as u8);
    } else {
        lemma_dec_digits_ascii(n / 10);
        let prior = dec_digits(n / 10);
        let last = (0x30 + n % 10) as u8;
        assert(dec_digits(n) == prior.push(last));
        assert forall|i: int| 0 <= i < dec_digits(n).len() implies 0x30 <= #[trigger] dec_digits(
            n,
        )[i] <= 0x39 by {
            if i < prior.len() {
                assert(dec_digits(n)[i] == prior[i]);
            } else {
                assert(dec_digits(n)[i] == last);
            }
        }
    }
}

/// Append the decimal digits of `n` to `out`.
pub fn push_dec_u16(n: u16, out: &mut Vec<u8>)
    ensures
        final(out)@ == old(out)@ + dec_digits(n as nat),
    decreases n,
{
    if n <= 9 {
        out.push(0x30 + n as u8);
        assert(out@ =~= old(out)@ + dec_digits(n as nat));
    } else {
        push_dec_u16(n / 10, out);
        out.push(0x30 + (n % 10) as u8);
        assert(out@ =~= old(out)@ + dec_digits(n as nat));
    }
}

/// The decimal representation of `n` as a string.
pub fn u16_to_string(n: u16) -> (r: String)
    ensures
        r@ == ascii_chars_of(dec_digits(n as nat)),
{
    let mut bytes: Vec<u8> = Vec::new();
    push_dec_u16(n, &mut bytes);
    proof {
        lemma_dec_digits_ascii(n as nat);
        assert(bytes@ =~= dec_digits(n as nat));
    }
    ascii_to_string(bytes)
}

/// What `str::trim` returns: the input without leading and trailing
/// whitespace.
pub uninterp spec fn trim_of(s: Seq<char>) -> Seq<char>;

/// Relies on `str::trim`: the result depends on the characters alone, and
/// is the input without leading and trailing whitespace.
#[verifier::external_body]
pub(crate) fn str_trim(s: &str) -> (r: String)
    ensures
        r@ == trim_of(s@),
{
    s.trim().to_string()
}

/// The views of a vector of owned strings.
pub open spec fn string_views(ss: Seq<String>) -> Seq<Seq<char>> {
    ss.map_values(|s: String| s@)
}

/// The view of an optional owned string.
pub open spec fn opt_string_view(o: Option<String>) -> Option<Seq<char>> {
    match o {
        Some(s) => Some(s@),
        None => None,
    }
}

/// The index of the last occurrence of `c` in `s`, if there is one.
pub fn find_last_char(s: &str, c: char) -> (r: Option<usize>)
    ensures
        match r {
            Some(i) => i < s@.len() && s@[i as int] == c && (forall|j: int|
                i < j < s@.len() ==> s@[j] != c),
            None => forall|j: int| 0 <= j < s@.len() ==> s@[j] != c,
        },
{
    let n = s.unicode_len();
    let mut i: usize = n;
    while i > 0
        invariant
            i <= n,
            n == s@.len(),
            forall|j: int| i <= j < n ==> s@[j] != c,
        decreases i,
    {
        if s.get_char(i - 1) == c {
            return Some(i - 1);
        }
        i -= 1;
    }
    None
}

/// A decimal digit.
pub open spec fn is_digit(c: char) -> bool {
    '0' <= c && c <= '9'
}

/// The index of the first character satisfying `p`, or the length when
/// none does.
pub open spec fn first_where(s: Seq<char>, p: spec_fn(char) -> bool) -> int
    decreases s.len(),
{
    if s.len() == 0 {
        0
    } else if p(s[0]) {
        0
    } else {
        1 + first_where(s.drop_first(), p)
    }
}

/// What characterizes the first index: nothing before it satisfies `p`,
/// and the character there does, when the index is in range.
pub proof fn lemma_first_where_ensures(s: Seq<char>, p: spec_fn(char) -> bool)
    ensures
        0 <= first_where(s, p) <= s.len(),
        forall|j: int| 0 <= j < first_where(s, p) ==> !p(s[j]),
        first_where(s, p) < s.len() ==> p(s[first_where(s, p)]),
    decreases s.len(),
{
    if s.len() != 0 && !p(s[0]) {
        lemma_first_where_ensures(s.drop_first(), p);
        let fw = first_where(s, p);
        assert forall|j: int| 0 <= j < fw implies !p(s[j]) by {
            if j > 0 {
                assert(s.drop_first()[j - 1] == s[j]);
            }
        }
        if fw < s.len() {
            assert(s.drop_first()[fw - 1] == s[fw]);
        }
    }
}

/// An index with nothing satisfying `p` before it, and `p` holding there
/// unless it is the length, is the first index.
pub proof fn lemma_first_where_is(s: Seq<char>, p: spec_fn(char) -> bool, r: int)
    requires
        0 <= r <= s.len(),
        forall|j: int| 0 <= j < r ==> !p(s[j]),
        r < s.len() ==> p(s[r]),
    ensures
        first_where(s, p) == r,
{
    lemma_first_where_ensures(s, p);
    let fw = first_where(s, p);
    if fw < r {
        assert(p(s[fw]));
        assert(!p(s[fw]));
    }
    if fw > r {
        assert(p(s[r]));
        assert(!p(s[r]));
    }
}

/// The index of the first occurrence of any of three characters, at or
/// after `start`; the length when there is none.
pub fn find_any3_from(s: &str, start: usize, c1: char, c2: char, c3: char) -> (r: usize)
    requires
        start <= s@.len(),
    ensures
        start <= r <= s@.len(),
        forall|j: int| start <= j < r ==> !(s@[j] == c1 || s@[j] == c2 || s@[j] == c3),
        r < s@.len() ==> (s@[r as int] == c1 || s@[r as int] == c2 || s@[r as int] == c3),
{
    let n = s.unicode_len();
    let mut i: usize = start;
    while i < n
        invariant
            start <= i <= n,
            n == s@.len(),
            forall|j: int| start <= j < i ==> !(s@[j] == c1 || s@[j] == c2 || s@[j] == c3),
        decreases n - i,
    {
        let ch = s.get_char(i);
        if ch == c1 || ch == c2 || ch == c3 {
            return i;
        }
        i += 1;
    }
    n
}

/// Whether every character at or after `start` is a decimal digit.
pub fn all_digits_from(s: &str, start: usize) -> (r: bool)
    requires
        start <= s@.len(),
    ensures
        r == (forall|j: int| start <= j < s@.len() ==> is_digit(s@[j])),
{
    let n = s.unicode_len();
    let mut i: usize = start;
    while i < n
        invariant
            start <= i <= n,
            n == s@.len(),
            forall|j: int| start <= j < i ==> is_digit(s@[j]),
        decreases n - i,
    {
        let ch = s.get_char(i);
        if !(ch >= '0' && ch <= '9') {
            assert(!is_digit(s@[i as int]));
            return false;
        }
        i += 1;
    }
    true
}

/// A position carrying the last occurrence of `c`, with none after it, is
/// what `index_of_last` returns.
pub proof fn lemma_index_of_last_is(s: Seq<char>, c: char, i: int)
    requires
        0 <= i < s.len(),
        s[i] == c,
        forall|j: int| i < j < s.len() ==> s[j] != c,
    ensures
        s.index_of_last(c) == Some(i),
{
    s.index_of_last_ensures(c);
    match s.index_of_last(c) {
        Some(k) => {
            if k < i {
                assert(s[i] == c);
            }
            if k > i {
                assert(s[k] == c);
            }
        },
        None => {
            assert(s.contains(c));
        },
    }
}

/// A sequence without `c` has no last occurrence of it.
pub proof fn lemma_index_of_last_none(s: Seq<char>, c: char)
    requires
        forall|j: int| 0 <= j < s.len() ==> s[j] != c,
    ensures
        s.index_of_last(c) is None,
{
    s.index_of_last_ensures(c);
    match s.index_of_last(c) {
        Some(k) => {
            assert(s[k] == c);
        },
        None => {},
    }
}

/// True when `s` starts with `prefix`.
pub open spec fn starts_with(s: Seq<char>, prefix: Seq<char>) -> bool {
    s.len() >= prefix.len() && s.take(prefix.len() as int) == prefix
}

/// Whether the string starts with the given prefix.
pub fn str_starts_with(s: &str, prefix: &str) -> (r: bool)
    ensures
        r == starts_with(s@, prefix@),
{
    let n = s.unicode_len();
    let m = prefix.unicode_len();
    if m > n {
        assert(!starts_with(s@, prefix@));
        return false;
    }
    let mut i: usize = 0;
    while i < m
        invariant
            0 <= i <= m,
            m <= n,
            n == s@.len(),
            m == prefix@.len(),
            forall|j: int| 0 <= j < i ==> s@[j] == prefix@[j],
        decreases m - i,
    {
        if s.get_char(i) != prefix.get_char(i) {
            assert(s@.take(m as int)[i as int] != prefix@[i as int]);
            return false;
        }
        i += 1;
    }
    assert(s@.take(m as int) =~= prefix@);
    true
}

/// True when `s` ends with `suffix`.
pub open spec fn ends_with(s: Seq<char>, suffix: Seq<char>) -> bool {
    s.len() >= suffix.len() && s.subrange(s.len() - suffix.len(), s.len() as int) == suffix
}

/// Whether the string ends with the given ASCII suffix.
pub fn str_ends_with(s: &str, suffix: &str) -> (r: bool)
    ensures
        r == ends_with(s@, suffix@),
{
    let n = s.unicode_len();
    let m = suffix.unicode_len();
    if m > n {
        assert(!ends_with(s@, suffix@));
        return false;
    }
    let mut i: usize = 0;
    while i < m
        invariant
            0 <= i <= m,
            m <= n,
            n == s@.len(),
            m == suffix@.len(),
            forall|j: int| 0 <= j < i ==> s@[n - m + j] == suffix@[j],
        decreases m - i,
    {
        if s.get_char(n - m + i) != suffix.get_char(i) {
            assert(s@.subrange(n - m, n as int)[i as int] != suffix@[i as int]);
            return false;
        }
        i += 1;
    }
    assert(s@.subrange(n - m, n as int) =~= suffix@);
    true
}

} // verus!
