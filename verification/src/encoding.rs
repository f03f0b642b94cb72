//! Byte-level encodings used when talking to vision backends: a trusted
//! wrapper around base64, and a verified JSON string escape.

use vstd::prelude::*;

verus! {

/// The standard base64 encoding of a byte string, as the `base64` crate's
/// `STANDARD` engine computes it: a function of the bytes alone.
pub uninterp spec fn base64_of(bytes: Seq<u8>) -> Seq<u8>;

/// Encode bytes as standard base64 with padding.
///
/// Relies on `base64`'s `STANDARD` engine `encode`: the output is a function
/// of the input bytes alone, and empty input encodes to an empty string.
#[verifier::external_body]
pub fn encode_base64(bytes: &Vec<u8>) -> (r: Vec<u8>)
    ensures
        r@ == base64_of(bytes@),
        bytes@.len() == 0 ==> r@.len() == 0,
{
    base64::engine::Engine::encode(&base64::engine::general_purpose::STANDARD, bytes.as_slice())
        .into_bytes()
}

/// The lowercase hexadecimal digit for a value below sixteen.
pub open spec fn spec_hex_digit(x: u8) -> u8 {
    if x < 10 {
        (0x30 + x) as u8
    } else {
        (0x57 + x) as u8
    }
}

/// How one byte of a UTF-8 string is written inside a JSON string literal:
/// quote and backslash are escaped, control bytes take their short escape or
/// a `\u00..` escape, and every other byte stands for itself.
pub open spec fn json_escape_byte(b: u8) -> Seq<u8> {
    if b == 0x22 {
        seq![0x5cu8, 0x22u8]
    } else if b == 0x5c {
        seq![0x5cu8, 0x5cu8]
    } else if b == 0x08 {
        seq![0x5cu8, 0x62u8]
    } else if b == 0x0c {
        seq![0x5cu8, 0x66u8]
    } else if b == 0x0a {
        seq![0x5cu8, 0x6eu8]
    } else if b == 0x0d {
        seq![0x5cu8, 0x72u8]
    } else if b == 0x09 {
        seq![0x5cu8, 0x74u8]
    } else if b < 0x20 {
        seq![0x5cu8, 0x75u8, 0x30u8, 0x30u8, spec_hex_digit(b / 16), spec_hex_digit(b % 16)]
    } else {
        seq![b]
    }
}

/// A UTF-8 byte string escaped for use inside a JSON string literal.
pub open spec fn json_escaped_bytes(s: Seq<u8>) -> Seq<u8>
    decreases s.len(),
{
    if s.len() == 0 {
        Seq::<u8>::empty()
    } else {
        json_escaped_bytes(s.drop_last()) + json_escape_byte(s.last())
    }
}

/// Append the JSON escape of one byte to `out`.
fn push_json_escape(out: &mut Vec<u8>, b: u8)
    ensures
        final(out)@ == old(out)@ + json_escape_byte(b),
{
    if b == 0x22 {
        out.push(0x5c);
        out.push(0x22);
    } else if b == 0x5c {
        out.push(0x5c);
        out.push(0x5c);
    } else if b == 0x08 {
        out.push(0x5c);
        out.push(0x62);
    } else if b == 0x0c {
        out.push(0x5c);
        out.push(0x66);
    } else if b == 0x0a {
        out.push(0x5c);
        out.push(0x6e);
    } else if b == 0x0d {
        out.push(0x5c);
        out.push(0x72);
    } else if b == 0x09 {
        out.push(0x5c);
        out.push(0x74);
    } else if b < 0x20 {
        out.push(0x5c);
        out.push(0x75);
        out.push(0x30);
        out.push(0x30);
        out.push(if b / 16 < 10 {
            0x30 + b / 16
        } else {
            0x57 + b / 16
        });
        out.push(if b % 16 < 10 {
            0x30 + b % 16
        } else {
            0x57 + b % 16
        });
    } else {
        out.push(b);
    }
    proof {
        assert(out@ =~= old(out)@ + json_escape_byte(b));
    }
}

/// Escape a UTF-8 byte string for use inside a JSON string literal and
/// append it to `out`.
pub fn append_json_escaped(out: &mut Vec<u8>, s: &Vec<u8>)
    ensures
        final(out)@ == old(out)@ + json_escaped_bytes(s@),
{
    let mut i: usize = 0;
    let len = s.len();
    while i < len
        invariant
            i <= len,
            len == s@.len(),
            out@ == old(out)@ + json_escaped_bytes(s@.take(i as int)),
        decreases len - i,
    {
        proof {
            assert(s@.take(i + 1).drop_last() =~= s@.take(i as int));
            assert(s@.take(i + 1).last() == s@[i as int]);
        }
        push_json_escape(out, s[i]);
        i = i + 1;
    }
    proof {
        assert(s@.take(len as int) =~= s@);
    }
}

} // verus!
