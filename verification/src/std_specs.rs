//! Contracts for the two functions of the standard library that the scanners
//! call and for which no specification is supplied elsewhere. Both are taken
//! on trust: they restate the documented behaviour and are not proved.

use vstd::prelude::*;
use vstd::utf8::is_scalar;

verus! {

/// `char::from_u32` turns a number into the character with that scalar value.
/// It gives `None` exactly for the numbers that are no Unicode scalar value:
/// the surrogates `0xD800..=0xDFFF` and everything above `0x10FFFF`.
pub assume_specification[ char::from_u32 ](i: u32) -> (c: Option<char>)
    ensures
        is_scalar(i) ==> c == Some(i as char),
        !is_scalar(i) ==> c is None,
;

/// `String::push` appends one character to the end of the string and leaves
/// the characters before it as they were.
pub assume_specification[ String::push ](s: &mut String, ch: char)
    ensures
        final(s)@ == old(s)@.push(ch),
;

} // verus!
