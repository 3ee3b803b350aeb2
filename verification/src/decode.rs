//! Decoding of UTF-8: one scalar value at a time, and the model of what a
//! whole byte sequence decodes to.

use vstd::prelude::*;
use vstd::utf8::*;

verus! {

/// The characters that decode from `bytes`, up to its end or to the first
/// byte sequence that is not well-formed UTF-8.
pub open spec fn scalars(bytes: Seq<u8>) -> Seq<char>
    decreases bytes.len(),
{
    if bytes.len() > 0 && valid_first_scalar(bytes) {
        seq![decode_first_scalar(bytes) as char] + scalars(pop_first_scalar(bytes))
    } else {
        Seq::empty()
    }
}

/// Whether `bytes` holds a sequence that is not well-formed UTF-8, so that
/// decoding stops before the end.
pub open spec fn malformed(bytes: Seq<u8>) -> bool {
    !valid_utf8(bytes)
}

/// Well-formed bytes decode to the characters they encode.
pub proof fn lemma_scalars_of_valid(bytes: Seq<u8>)
    requires
        valid_utf8(bytes),
    ensures
        scalars(bytes) == decode_utf8(bytes),
    decreases bytes.len(),
{
    if bytes.len() > 0 {
        lemma_scalars_of_valid(pop_first_scalar(bytes));
    }
}

/// The bytes that encode a text decode to that text, and none of them is malformed.
pub proof fn lemma_scalars_of_encoded(text: Seq<char>)
    ensures
        scalars(encode_utf8(text)) == text,
        !malformed(encode_utf8(text)),
{
    encode_utf8_valid_utf8(text);
    encode_utf8_decode_utf8(text);
    lemma_scalars_of_valid(encode_utf8(text));
}

/// Nothing decodes from `bytes` and nothing is malformed exactly when `bytes` is empty.
pub proof fn lemma_scalars_empty(bytes: Seq<u8>)
    ensures
        (scalars(bytes).len() == 0 && !malformed(bytes)) <==> bytes.len() == 0,
        scalars(bytes).len() == 0 && bytes.len() > 0 ==> !valid_first_scalar(bytes),
{
}

/// How decoding goes on behind a well-formed first scalar.
pub proof fn lemma_scalars_step(bytes: Seq<u8>)
    requires
        bytes.len() > 0,
        valid_first_scalar(bytes),
    ensures
        scalars(bytes).len() > 0,
        scalars(bytes)[0] == decode_first_scalar(bytes) as char,
        scalars(bytes).skip(1) == scalars(pop_first_scalar(bytes)),
        malformed(bytes) == malformed(pop_first_scalar(bytes)),
        1 <= length_of_first_scalar(bytes) <= bytes.len(),
{
}

/// Decodes the scalar value whose encoding starts at index `at`: the
/// character and the number of bytes it takes, or `None` where the bytes
/// from `at` on do not begin with a well-formed encoding.
pub fn decode_at(bytes: &[u8], at: usize) -> (r: Option<(char, usize)>)
    requires
        at < bytes@.len(),
    ensures
        r is Some <==> valid_first_scalar(bytes@.skip(at as int)),
        r matches Some((c, n)) ==> {
            &&& c == decode_first_scalar(bytes@.skip(at as int)) as char
            &&& n == length_of_first_scalar(bytes@.skip(at as int))
            &&& 1 <= n <= 4
            &&& at + n <= bytes@.len()
        },
{
    let len = bytes.len();
    let b0 = bytes[at];
    let code: u32;
    let width: usize;
    if b0 <= 0x7f {
        code = (b0 & 0x7F) as u32;
        width = 1;
    } else if 0xc0 <= b0 && b0 <= 0xdf {
        if len - at < 2 {
            return None;
        }
        let b1 = bytes[at + 1];
        if !(0x80 <= b1 && b1 <= 0xbf) {
            return None;
        }
        code = (((b0 & 0x1F) as u32) << 6) | ((b1 & 0x3f) as u32);
        width = 2;
        assert(((((b0 & 0x1F) as u32) << 6) | ((b1 & 0x3f) as u32)) <= 0x7ff) by (bit_vector);
    } else if 0xe0 <= b0 && b0 <= 0xef {
        if len - at < 3 {
            return None;
        }
        let b1 = bytes[at + 1];
        let b2 = bytes[at + 2];
        if !(0x80 <= b1 && b1 <= 0xbf) || !(0x80 <= b2 && b2 <= 0xbf) {
            return None;
        }
        code = (((b0 & 0x0F) as u32) << 12) | (((b1 & 0x3f) as u32) << 6) | ((b2 & 0x3f) as u32);
        width = 3;
        assert(((((b0 & 0x0F) as u32) << 12) | (((b1 & 0x3f) as u32) << 6) | ((b2 & 0x3f) as u32))
            <= 0xffff) by (bit_vector);
    } else if 0xf0 <= b0 && b0 <= 0xf7 {
        if len - at < 4 {
            return None;
        }
        let b1 = bytes[at + 1];
        let b2 = bytes[at + 2];
        let b3 = bytes[at + 3];
        if !(0x80 <= b1 && b1 <= 0xbf) || !(0x80 <= b2 && b2 <= 0xbf) || !(0x80 <= b3 && b3
            <= 0xbf) {
            return None;
        }
        code = (((b0 & 0x07) as u32) << 18) | (((b1 & 0x3f) as u32) << 12) | (((b2 & 0x3f) as u32)
            << 6) | ((b3 & 0x3f) as u32);
        width = 4;
    } else {
        return None;
    }
    let overlong = (width == 2 && code < 0x80) || (width == 3 && code < 0x800) || (width == 4
        && (code < 0x10000 || code > 0x10ffff));
    let surrogate = 0xD800 <= code && code <= 0xDFFF;
    if overlong || surrogate {
        return None;
    }
    match char::from_u32(code) {
        Some(c) => Some((c, width)),
        None => None,
    }
}

} // verus!
