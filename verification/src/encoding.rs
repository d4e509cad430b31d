//! A verified encoder for the `application/x-www-form-urlencoded` format.
//!
//! A byte is kept when it is an ASCII letter, a digit, or one of `*-._`;
//! a space becomes `+`; every other byte becomes `%XX` with upper-case
//! hexadecimal digits. Pairs are joined as `key=value`, separated by `&`.

use vstd::prelude::*;

verus! {

use crate::strings::ascii_chars_of;
use crate::strings::ascii_to_string;
use crate::seq_is_ascii;
use vstd::string::StringExecFns;
use vstd::utf8::encode_utf8;

/// Bytes that the form encoding keeps as they are.
pub open spec fn is_unreserved(b: u8) -> bool {
    ||| 0x41 <= b <= 0x5a
    ||| 0x61 <= b <= 0x7a
    ||| 0x30 <= b <= 0x39
    ||| b == 0x2a
    ||| b == 0x2d
    ||| b == 0x2e
    ||| b == 0x5f
}

/// The upper-case hexadecimal digit for a value below 16.
pub open spec fn hex_upper(n: u8) -> u8
    recommends
        n < 16,
{
    if n < 10 {
        (0x30 + n) as u8
    } else {
        (0x37 + n) as u8
    }
}

/// The form encoding of one byte.
pub open spec fn encode_byte(b: u8) -> Seq<u8> {
    if is_unreserved(b) {
        seq![b]
    } else if b == 0x20 {
        seq![0x2bu8]
    } else {
        seq![0x25u8, hex_upper(b / 16), hex_upper(b % 16)]
    }
}

/// The form encoding of a byte sequence.
pub open spec fn encode_bytes(s: Seq<u8>) -> Seq<u8>
    decreases s.len(),
{
    if s.len() == 0 {
        Seq::empty()
    } else {
        encode_byte(s[0]) + encode_bytes(s.drop_first())
    }
}

/// The form encoding of a string: its UTF-8 bytes, encoded byte by byte.
pub open spec fn encoded_str(s: Seq<char>) -> Seq<u8> {
    encode_bytes(encode_utf8(s))
}

/// The form encoding of a sequence of key/value pairs, joined with `&`.
pub open spec fn encode_pairs(ps: Seq<(Seq<char>, Seq<char>)>) -> Seq<u8>
    decreases ps.len(),
{
    if ps.len() == 0 {
        Seq::empty()
    } else if ps.len() == 1 {
        encoded_str(ps[0].0) + seq![0x3du8] + encoded_str(ps[0].1)
    } else {
        encode_pairs(ps.drop_last()) + seq![0x26u8] + encoded_str(ps.last().0) + seq![0x3du8]
            + encoded_str(ps.last().1)
    }
}

/// The encoded query as characters.
pub open spec fn query_string(ps: Seq<(Seq<char>, Seq<char>)>) -> Seq<char> {
    ascii_chars_of(encode_pairs(ps))
}

/// The pair an optional field contributes to a query: one entry when the
/// field is set, nothing when it is not.
pub open spec fn opt_pair(key: Seq<char>, value: Option<String>) -> Seq<(Seq<char>, Seq<char>)> {
    match value {
        Some(v) => seq![(key, v@)],
        None => Seq::empty(),
    }
}

/// The views of a vector of owned pairs.
pub open spec fn pair_views(ps: Seq<(String, String)>) -> Seq<(Seq<char>, Seq<char>)> {
    ps.map_values(|p: (String, String)| (p.0@, p.1@))
}

/// The encoding of a single byte holds only ASCII bytes.
pub proof fn lemma_encode_byte_ascii(b: u8)
    ensures
        seq_is_ascii(encode_byte(b)),
{
}

/// The encoding of a byte sequence holds only ASCII bytes.
pub proof fn lemma_encode_bytes_ascii(s: Seq<u8>)
    ensures
        seq_is_ascii(encode_bytes(s)),
    decreases s.len(),
{
    if s.len() != 0 {
        lemma_encode_byte_ascii(s[0]);
        lemma_encode_bytes_ascii(s.drop_first());
    }
}

/// The encoding of a pair sequence holds only ASCII bytes.
pub proof fn lemma_encode_pairs_ascii(ps: Seq<(Seq<char>, Seq<char>)>)
    ensures
        seq_is_ascii(encode_pairs(ps)),
    decreases ps.len(),
{
    if ps.len() == 1 {
        lemma_encode_bytes_ascii(encode_utf8(ps[0].0));
        lemma_encode_bytes_ascii(encode_utf8(ps[0].1));
    } else if ps.len() > 1 {
        lemma_encode_pairs_ascii(ps.drop_last());
        lemma_encode_bytes_ascii(encode_utf8(ps.last().0));
        lemma_encode_bytes_ascii(encode_utf8(ps.last().1));
    }
}

/// Appending one byte extends the encoding of a byte sequence.
pub proof fn lemma_encode_bytes_snoc(s: Seq<u8>, b: u8)
    ensures
        encode_bytes(s.push(b)) == encode_bytes(s) + encode_byte(b),
    decreases s.len(),
{
    if s.len() == 0 {
        assert(s.push(b)[0] == b);
        assert(s.push(b).drop_first() =~= Seq::<u8>::empty());
        assert(encode_bytes(Seq::<u8>::empty()) == Seq::<u8>::empty());
        assert(encode_bytes(s.push(b)) == encode_byte(b) + encode_bytes(Seq::<u8>::empty()));
        assert(encode_bytes(s.push(b)) =~= encode_bytes(s) + encode_byte(b));
    } else {
        assert(s.push(b).drop_first() =~= s.drop_first().push(b));
        lemma_encode_bytes_snoc(s.drop_first(), b);
        assert(encode_bytes(s.push(b)) =~= encode_bytes(s) + encode_byte(b));
    }
}

/// The hexadecimal digit of a value below 16, as executable code.
fn hex_upper_exec(n: u8) -> (r: u8)
    requires
        n < 16,
    ensures
        r == hex_upper(n),
{
    if n < 10 {
        0x30 + n
    } else {
        0x37 + n
    }
}

/// Append the form encoding of one byte to `out`.
fn encode_byte_into(b: u8, out: &mut Vec<u8>)
    ensures
        final(out)@ == old(out)@ + encode_byte(b),
{
    let keep = (b >= 0x41 && b <= 0x5a) || (b >= 0x61 && b <= 0x7a) || (b >= 0x30 && b <= 0x39)
        || b == 0x2a || b == 0x2d || b == 0x2e || b == 0x5f;
    if keep {
        out.push(b);
    } else if b == 0x20 {
        out.push(0x2b);
    } else {
        out.push(0x25);
        out.push(hex_upper_exec(b / 16));
        out.push(hex_upper_exec(b % 16));
    }
    assert(out@ =~= old(out)@ + encode_byte(b));
}

/// Append the form encoding of a byte slice to `out`.
pub fn encode_bytes_into(s: &[u8], out: &mut Vec<u8>)
    ensures
        final(out)@ == old(out)@ + encode_bytes(s@),
{
    let mut i: usize = 0;
    while i < s.len()
        invariant
            i <= s@.len(),
            out@ == old(out)@ + encode_bytes(s@.take(i as int)),
        decreases s@.len() - i,
    {
        proof {
            assert(s@.take(i + 1).drop_last() =~= s@.take(i as int));
            assert(s@.take(i + 1) =~= s@.take(i as int).push(s@[i as int]));
            lemma_encode_bytes_snoc(s@.take(i as int), s@[i as int]);
        }
        encode_byte_into(s[i], out);
        i += 1;
    }
    assert(s@.take(s@.len() as int) =~= s@);
}

/// Append the form encoding of a string to `out`.
pub fn encode_str_into(s: &str, out: &mut Vec<u8>)
    ensures
        final(out)@ == old(out)@ + encoded_str(s@),
{
    let bytes = s.as_bytes();
    encode_bytes_into(bytes, out);
}

/// A URL with encoded pairs appended as its query: the `?` appears only
/// when the encoded query is not empty.
pub open spec fn with_query(url: Seq<char>, ps: Seq<(Seq<char>, Seq<char>)>) -> Seq<char> {
    if query_string(ps).len() == 0 {
        url
    } else {
        url + "?"@ + query_string(ps)
    }
}

/// Append key/value pairs to a URL as its form-urlencoded query; an
/// empty query appends no bare `?`.
pub fn append_query(url: &str, pairs: &Vec<(String, String)>) -> (r: String)
    ensures
        r@ == with_query(url@, pair_views(pairs@)),
{
    let q = encode_query(pairs);
    let mut out = url.to_owned();
    if !q.as_str().is_empty() {
        out.append("?");
        out.append(q.as_str());
    }
    out
}

/// Encode key/value pairs as a form-urlencoded query string.
pub fn encode_query(pairs: &Vec<(String, String)>) -> (r: String)
    ensures
        r@ == query_string(pair_views(pairs@)),
{
    let ghost all = pair_views(pairs@);
    let mut out: Vec<u8> = Vec::new();
    let mut i: usize = 0;
    while i < pairs.len()
        invariant
            i <= pairs@.len(),
            all == pair_views(pairs@),
            all.len() == pairs@.len(),
            out@ == encode_pairs(all.take(i as int)),
        decreases pairs@.len() - i,
    {
        if i > 0 {
            out.push(0x26);
        }
        encode_str_into(pairs[i].0.as_str(), &mut out);
        out.push(0x3d);
        encode_str_into(pairs[i].1.as_str(), &mut out);
        proof {
            assert(all.take(i + 1).drop_last() =~= all.take(i as int));
            assert(all.take(i + 1).last() == all[i as int]);
            assert(all[i as int].0 == pairs@[i as int].0@);
            assert(all[i as int].1 == pairs@[i as int].1@);
            if i == 0 {
                assert(out@ =~= encode_pairs(all.take(i + 1)));
            } else {
                assert(out@ =~= encode_pairs(all.take(i + 1)));
            }
        }
        i += 1;
    }
    proof {
        assert(all.take(all.len() as int) =~= all);
        lemma_encode_pairs_ascii(all);
    }
    ascii_to_string(out)
}

} // verus!
