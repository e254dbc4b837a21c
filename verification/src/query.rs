//! Encoding of query-string pairs.
//!
//! Keys and values are percent-encoded over their UTF-8 bytes: a byte that is
//! an ASCII letter, a digit, or one of `-`, `.`, `_`, `~` stands as itself,
//! every other byte as `%` and two uppercase hex digits. Pairs are joined
//! with `=` and `&`.

use vstd::prelude::*;
use vstd::string::StrSliceExecFns;
use vstd::utf8::encode_utf8;

verus! {

/// A byte that needs no escaping in a query string.
pub open spec fn is_unreserved(b: u8) -> bool {
    (48 <= b && b <= 57) || (65 <= b && b <= 90) || (97 <= b && b <= 122) || b == 45 || b == 46
        || b == 95 || b == 126
}

/// The uppercase hex digit for a value below 16.
pub open spec fn hex_digit(n: u8) -> u8
    recommends
        n < 16,
{
    if n < 10 {
        (48 + n) as u8
    } else {
        (55 + n) as u8
    }
}

/// The encoding of one byte: itself, or `%` and two hex digits.
pub open spec fn enc_byte(b: u8) -> Seq<u8> {
    if is_unreserved(b) {
        seq![b]
    } else {
        seq![37u8, hex_digit(b / 16), hex_digit(b % 16)]
    }
}

/// The encoding of a byte sequence, byte for byte.
pub open spec fn enc_bytes(bs: Seq<u8>) -> Seq<u8>
    decreases bs.len(),
{
    if bs.len() == 0 {
        Seq::empty()
    } else {
        enc_bytes(bs.drop_last()) + enc_byte(bs.last())
    }
}

/// The encoding of a text: its UTF-8 bytes, escaped.
pub open spec fn enc_text(s: Seq<char>) -> Seq<u8> {
    enc_bytes(encode_utf8(s))
}

/// One `key=value` pair, both sides escaped.
pub open spec fn pair_bytes(p: (String, String)) -> Seq<u8> {
    enc_text(p.0@) + seq![61u8] + enc_text(p.1@)
}

/// All pairs, joined with `&`.
pub open spec fn pairs_bytes(ps: Seq<(String, String)>) -> Seq<u8>
    decreases ps.len(),
{
    if ps.len() == 0 {
        Seq::empty()
    } else if ps.len() == 1 {
        pair_bytes(ps[0])
    } else {
        pairs_bytes(ps.drop_last()) + seq![38u8] + pair_bytes(ps.last())
    }
}

/// ASCII bytes read as the characters they stand for.
pub open spec fn ascii_chars(bs: Seq<u8>) -> Seq<char> {
    Seq::new(bs.len(), |i: int| bs[i] as char)
}

/// The encoded query string of a list of key/value pairs.
pub open spec fn spec_query(ps: Seq<(String, String)>) -> Seq<char> {
    ascii_chars(pairs_bytes(ps))
}

/// Key/value pairs read through their text views.
pub open spec fn pairs_view(ps: Seq<(String, String)>) -> Seq<(Seq<char>, Seq<char>)> {
    Seq::new(ps.len(), |i: int| (ps[i].0@, ps[i].1@))
}

/// Every byte an encoding produces is ASCII.
pub open spec fn all_ascii(bs: Seq<u8>) -> bool {
    forall|i: int| 0 <= i < bs.len() ==> bs[i] < 128
}

proof fn lemma_enc_byte_ascii(b: u8)
    ensures
        all_ascii(enc_byte(b)),
{
    assert(b / 16 < 16);
    assert(b % 16 < 16);
}

proof fn lemma_enc_bytes_ascii(bs: Seq<u8>)
    ensures
        all_ascii(enc_bytes(bs)),
    decreases bs.len(),
{
    if bs.len() > 0 {
        lemma_enc_bytes_ascii(bs.drop_last());
        lemma_enc_byte_ascii(bs.last());
    }
}

proof fn lemma_pair_bytes_ascii(p: (String, String))
    ensures
        all_ascii(pair_bytes(p)),
{
    lemma_enc_bytes_ascii(encode_utf8(p.0@));
    lemma_enc_bytes_ascii(encode_utf8(p.1@));
}

proof fn lemma_pairs_bytes_ascii(ps: Seq<(String, String)>)
    ensures
        all_ascii(pairs_bytes(ps)),
    decreases ps.len(),
{
    if ps.len() == 1 {
        lemma_pair_bytes_ascii(ps[0]);
    } else if ps.len() > 1 {
        lemma_pairs_bytes_ascii(ps.drop_last());
        lemma_pair_bytes_ascii(ps.last());
    }
}

fn hex_digit_exec(n: u8) -> (r: u8)
    requires
        n < 16,
    ensures
        r == hex_digit(n),
{
    if n < 10 {
        48 + n
    } else {
        55 + n
    }
}

fn push_enc_byte(out: &mut Vec<u8>, b: u8)
    ensures
        final(out)@ == old(out)@ + enc_byte(b),
{
    if (48 <= b && b <= 57) || (65 <= b && b <= 90) || (97 <= b && b <= 122) || b == 45 || b == 46
        || b == 95 || b == 126 {
        out.push(b);
        proof {
            assert(out@ =~= old(out)@ + enc_byte(b));
        }
    } else {
        out.push(37);
        let hi = b / 16;
        let lo = b % 16;
        out.push(hex_digit_exec(hi));
        out.push(hex_digit_exec(lo));
        proof {
            assert(out@ =~= old(out)@ + enc_byte(b));
        }
    }
}

fn append_enc_text(out: &mut Vec<u8>, s: &str)
    ensures
        final(out)@ == old(out)@ + enc_text(s@),
{
    let bs = s.as_bytes_vec();
    let mut i: usize = 0;
    proof {
        assert(bs@.take(0) =~= Seq::<u8>::empty());
        assert(out@ =~= out@ + enc_bytes(bs@.take(0)));
    }
    while i < bs.len()
        invariant
            i <= bs.len(),
            bs@ == encode_utf8(s@),
            out@ == old(out)@ + enc_bytes(bs@.take(i as int)),
        decreases bs.len() - i,
    {
        push_enc_byte(out, bs[i]);
        proof {
            assert(bs@.take(i as int + 1).drop_last() =~= bs@.take(i as int));
            assert(bs@.take(i as int + 1).last() == bs@[i as int]);
            assert(out@ =~= old(out)@ + enc_bytes(bs@.take(i as int + 1)));
        }
        i = i + 1;
    }
    proof {
        assert(bs@.take(bs@.len() as int) =~= bs@);
    }
}

/// Encodes key/value pairs into a query string: `k1=v1&k2=v2`, with both
/// sides percent-escaped.
pub fn encode_query(pairs: &Vec<(String, String)>) -> (r: String)
    ensures
        r@ == spec_query(pairs@),
{
    let mut out: Vec<u8> = Vec::new();
    let mut i: usize = 0;
    proof {
        assert(pairs@.take(0) =~= Seq::<(String, String)>::empty());
    }
    while i < pairs.len()
        invariant
            i <= pairs.len(),
            out@ == pairs_bytes(pairs@.take(i as int)),
        decreases pairs.len() - i,
    {
        if i > 0 {
            out.push(38);
        }
        append_enc_text(&mut out, pairs[i].0.as_str());
        out.push(61);
        append_enc_text(&mut out, pairs[i].1.as_str());
        proof {
            let prefix = pairs@.take(i as int + 1);
            assert(prefix.drop_last() =~= pairs@.take(i as int));
            assert(prefix.last() == pairs@[i as int]);
            if i == 0 {
                assert(out@ =~= pair_bytes(pairs@[0]));
            } else {
                assert(out@ =~= pairs_bytes(pairs@.take(i as int)) + seq![38u8] + pair_bytes(
                    pairs@[i as int],
                ));
            }
        }
        i = i + 1;
    }
    proof {
        assert(pairs@.take(pairs.len() as int) =~= pairs@);
        lemma_pairs_bytes_ascii(pairs@);
    }
    ascii_to_string(out)
}

/// Relies on `String::from_utf8`: bytes below 128 decode to exactly the
/// characters they stand for.
#[verifier::external_body]
fn ascii_to_string(v: Vec<u8>) -> (r: String)
    requires
        all_ascii(v@),
    ensures
        r@ == ascii_chars(v@),
{
    String::from_utf8(v).unwrap_or_default()
}

/// The decimal digits of a non-negative number, most significant first.
pub open spec fn dec_bytes(n: nat) -> Seq<u8>
    decreases n,
{
    if n < 10 {
        seq![(48 + n) as u8]
    } else {
        dec_bytes(n / 10) + seq![(48 + n % 10) as u8]
    }
}

/// The decimal rendering of a signed number: a minus sign, then digits.
pub open spec fn i32_dec_bytes(n: int) -> Seq<u8> {
    if n >= 0 {
        dec_bytes(n as nat)
    } else {
        seq![45u8] + dec_bytes((-n) as nat)
    }
}

/// The decimal rendering of a signed number, as text.
pub open spec fn i32_dec_chars(n: int) -> Seq<char> {
    ascii_chars(i32_dec_bytes(n))
}

proof fn lemma_dec_bytes_ascii(n: nat)
    ensures
        all_ascii(dec_bytes(n)),
    decreases n,
{
    if n >= 10 {
        lemma_dec_bytes_ascii(n / 10);
    }
}

fn push_dec(out: &mut Vec<u8>, n: u32)
    ensures
        final(out)@ == old(out)@ + dec_bytes(n as nat),
    decreases n,
{
    if n >= 10 {
        push_dec(out, n / 10);
    }
    out.push(48 + (n % 10) as u8);
    proof {
        if n < 10 {
            assert(out@ =~= old(out)@ + dec_bytes(n as nat));
        } else {
            assert(out@ =~= old(out)@ + dec_bytes(n as nat));
        }
    }
}

/// Renders a signed number in decimal, as its query-string value.
pub fn i32_to_dec_string(n: i32) -> (r: String)
    ensures
        r@ == i32_dec_chars(n as int),
{
    let mut out: Vec<u8> = Vec::new();
    if n >= 0 {
        push_dec(&mut out, n as u32);
    } else {
        out.push(45);
        let mag: u32 = (-(n as i64)) as u32;
        proof {
            assert(mag == -(n as int));
            assert(out@ =~= Seq::<u8>::empty() + seq![45u8]);
        }
        push_dec(&mut out, mag);
        proof {
            assert(out@ =~= seq![45u8] + dec_bytes(mag as nat));
        }
    }
    proof {
        lemma_dec_bytes_ascii(if n >= 0 {
            n as nat
        } else {
            (-(n as int)) as nat
        });
    }
    ascii_to_string(out)
}

} // verus!
