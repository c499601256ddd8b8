//! Percent-encoding of the message text for the request URL.
//!
//! A byte is escaped when it is outside the ASCII range or in the fragment
//! set (controls, space, double quote, angle brackets, backtick); an escaped
//! byte becomes a percent sign followed by two upper-case hex digits.

use vstd::prelude::*;
use crate::utils::{ascii_chars, ascii_to_string};
use vstd::string::StringSliceAdditionalSpecFns;

verus! {

/// Whether a byte is escaped: non-ASCII bytes, control bytes (including
/// delete), the space, the double quote, the angle brackets and the backtick.
pub open spec fn fragment_escaped(b: u8) -> bool {
    ||| b >= 0x80
    ||| b <= 0x1f
    ||| b == 0x7f
    ||| b == 0x20
    ||| b == 0x22
    ||| b == 0x3c
    ||| b == 0x3e
    ||| b == 0x60
}

/// The upper-case hex digit byte for a value below 16.
pub open spec fn hex_byte(v: u8) -> u8
    recommends
        v < 16,
{
    if v < 10 {
        (0x30 + v) as u8
    } else {
        (0x37 + v) as u8
    }
}

/// The bytes one input byte contributes to the encoded text.
pub open spec fn encode_byte(b: u8) -> Seq<u8> {
    if fragment_escaped(b) {
        seq![0x25u8, hex_byte(b / 16), hex_byte(b % 16)]
    } else {
        seq![b]
    }
}

/// The encoded bytes of a whole input.
pub open spec fn percent_encoded_bytes(bs: Seq<u8>) -> Seq<u8>
    decreases bs.len(),
{
    if bs.len() == 0 {
        Seq::<u8>::empty()
    } else {
        encode_byte(bs[0]) + percent_encoded_bytes(bs.skip(1))
    }
}

/// The encoded text of an input, as characters.
pub open spec fn percent_encoded(bs: Seq<u8>) -> Seq<char> {
    ascii_chars(percent_encoded_bytes(bs))
}

proof fn lemma_percent_encoded_bytes_push(bs: Seq<u8>, b: u8)
    ensures
        percent_encoded_bytes(bs.push(b)) == percent_encoded_bytes(bs) + encode_byte(b),
    decreases bs.len(),
{
    let s2 = bs.push(b);
    if bs.len() == 0 {
        assert(s2.skip(1) =~= Seq::<u8>::empty());
        assert(percent_encoded_bytes(s2.skip(1)) == Seq::<u8>::empty());
        assert(s2[0] == b);
        assert(percent_encoded_bytes(s2) == encode_byte(b) + Seq::<u8>::empty());
        assert(percent_encoded_bytes(s2) =~= percent_encoded_bytes(bs) + encode_byte(b));
    } else {
        assert(s2.skip(1) =~= bs.skip(1).push(b));
        lemma_percent_encoded_bytes_push(bs.skip(1), b);
        assert(percent_encoded_bytes(s2.skip(1)) == percent_encoded_bytes(bs.skip(1))
            + encode_byte(b));
        assert(s2[0] == bs[0]);
        assert(percent_encoded_bytes(s2) == encode_byte(bs[0]) + percent_encoded_bytes(
            s2.skip(1),
        ));
        assert(percent_encoded_bytes(bs) == encode_byte(bs[0]) + percent_encoded_bytes(bs.skip(1)));
        assert(percent_encoded_bytes(s2) =~= percent_encoded_bytes(bs) + encode_byte(b));
    }
}

/// Every encoded byte is ASCII: escapes are a percent sign and hex digits,
/// and a byte left alone was below the ASCII bound.
proof fn lemma_percent_encoded_bytes_ascii(bs: Seq<u8>)
    ensures
        forall|i: int|
            0 <= i < percent_encoded_bytes(bs).len() ==> #[trigger] percent_encoded_bytes(bs)[i]
                < 0x80,
    decreases bs.len(),
{
    if bs.len() > 0 {
        lemma_percent_encoded_bytes_ascii(bs.skip(1));
        assert(percent_encoded_bytes(bs) == encode_byte(bs[0]) + percent_encoded_bytes(
            bs.skip(1),
        ));
        assert forall|i: int|
            0 <= i < percent_encoded_bytes(bs).len() implies #[trigger] percent_encoded_bytes(
            bs,
        )[i] < 0x80 by {
            let head = encode_byte(bs[0]);
            if i < head.len() {
                assert(percent_encoded_bytes(bs)[i] == head[i]);
                assert(head[0] < 0x80);
                if head.len() == 3 {
                    assert(head[1] < 0x80);
                    assert(head[2] < 0x80);
                }
            } else {
                assert(percent_encoded_bytes(bs)[i] == percent_encoded_bytes(bs.skip(1))[i
                    - head.len()]);
            }
        }
    }
}

/// The encoded text is empty exactly when the input is: each input byte
/// contributes at least one encoded byte.
pub proof fn lemma_percent_encoded_empty(bs: Seq<u8>)
    ensures
        percent_encoded(bs).len() == 0 <==> bs.len() == 0,
{
    if bs.len() > 0 {
        assert(percent_encoded_bytes(bs).len() >= encode_byte(bs[0]).len());
    }
}

/// Relies on percent_encoding::percent_encode_byte: any byte encodes as a
/// percent sign followed by its value as two upper-case hex digits.
#[verifier::external_body]
fn percent_encode_byte_bytes(b: u8) -> (r: Vec<u8>)
    ensures
        r@ == seq![0x25u8, hex_byte(b / 16), hex_byte(b % 16)],
{
    percent_encoding::percent_encode_byte(b).as_bytes().to_vec()
}

/// Whether a byte is escaped; mirrors [`fragment_escaped`].
fn is_fragment_escaped(b: u8) -> (r: bool)
    ensures
        r == fragment_escaped(b),
{
    b >= 0x80 || b <= 0x1f || b == 0x7f || b == 0x20 || b == 0x22 || b == 0x3c || b == 0x3e
        || b == 0x60
}

/// A message text beside its percent-encoded form.
#[derive(Debug)]
pub struct EncodedFragment {
    pub encoded: String,
    pub decoded: String,
}

impl EncodedFragment {
    /// Percent-encodes the text for use in a URL.  Empty text is rejected
    /// with a message; any other text yields its encoded form beside the
    /// original.
    pub fn fragmenter(text: &str) -> (r: Result<Self, String>)
        ensures
            r matches Ok(f) ==> {
                &&& f.encoded@ == percent_encoded(text.spec_bytes())
                &&& f.decoded@ == text@
                &&& text.spec_bytes().len() > 0
            },
            r matches Err(m) ==> m@ == "Empty text"@,
            r is Err <==> text.spec_bytes().len() == 0,
    {
        let raw_bytes = text.as_bytes();
        let mut out: Vec<u8> = Vec::new();
        let mut idx: usize = 0;
        while idx < raw_bytes.len()
            invariant
                idx <= raw_bytes@.len(),
                out@ == percent_encoded_bytes(raw_bytes@.take(idx as int)),
            decreases raw_bytes@.len() - idx,
        {
            let b = raw_bytes[idx];
            if is_fragment_escaped(b) {
                let mut escaped = percent_encode_byte_bytes(b);
                out.append(&mut escaped);
            } else {
                out.push(b);
            }
            proof {
                lemma_percent_encoded_bytes_push(raw_bytes@.take(idx as int), raw_bytes@[idx as int]);
                assert(raw_bytes@.take(idx as int).push(raw_bytes@[idx as int]) =~= raw_bytes@.take(
                    idx + 1,
                ));
            }
            idx = idx + 1;
        }
        proof {
            assert(raw_bytes@.take(raw_bytes@.len() as int) =~= raw_bytes@);
            lemma_percent_encoded_bytes_ascii(raw_bytes@);
            lemma_percent_encoded_empty(raw_bytes@);
        }
        let encoded = ascii_to_string(out);
        if encoded.as_str().is_empty() {
            return Err("Empty text".to_owned());
        }
        Ok(Self { encoded, decoded: text.to_owned() })
    }
}

} // verus!
