//! The character classes of the lexical grammar.

use vstd::prelude::*;

verus! {

/// White space of the language: space, tab, vertical tab, form feed,
/// no-break space, the byte order mark, and the other characters of the
/// Unicode category "Space_Separator". This is not the host's notion of a
/// blank character: line terminators are left out.
pub open spec fn whitespace(c: char) -> bool {
    ||| c == '\u{0020}'
    ||| c == '\u{0009}'
    ||| c == '\u{000B}'
    ||| c == '\u{000C}'
    ||| c == '\u{00A0}'
    ||| c == '\u{FEFF}'
    ||| c == '\u{1680}'
    ||| ('\u{2000}' <= c && c <= '\u{200A}')
    ||| c == '\u{202F}'
    ||| c == '\u{205F}'
    ||| c == '\u{3000}'
}

/// The four line terminators: line feed, carriage return, line separator
/// and paragraph separator.
pub open spec fn line_terminator(c: char) -> bool {
    c == '\n' || c == '\r' || c == '\u{2028}' || c == '\u{2029}'
}

/// A character that may begin an identifier: an ASCII letter, `$` or `_`.
pub open spec fn identifier_start(c: char) -> bool {
    ('a' <= c && c <= 'z') || ('A' <= c && c <= 'Z') || c == '$' || c == '_'
}

/// A character that may continue an identifier: one that may begin it, or a decimal digit.
pub open spec fn identifier_part(c: char) -> bool {
    identifier_start(c) || decimal_digit(c)
}

/// One of the digits `0` to `9`.
pub open spec fn decimal_digit(c: char) -> bool {
    '0' <= c && c <= '9'
}

/// A digit of base sixteen, in either case.
pub open spec fn hex_digit(c: char) -> bool {
    decimal_digit(c) || ('a' <= c && c <= 'f') || ('A' <= c && c <= 'F')
}

/// The number that a digit of base sixteen stands for.
pub open spec fn hex_value(c: char) -> nat
    recommends
        hex_digit(c),
{
    if decimal_digit(c) {
        (c as u32 - '0' as u32) as nat
    } else if 'a' <= c && c <= 'f' {
        (c as u32 - 'a' as u32 + 10) as nat
    } else {
        (c as u32 - 'A' as u32 + 10) as nat
    }
}

/// Whether `c` is a line terminator.
pub fn is_line_terminator(c: char) -> (b: bool)
    ensures
        b == line_terminator(c),
{
    c == '\n' || c == '\r' || c == '\u{2028}' || c == '\u{2029}'
}

/// Whether `c` may begin an identifier.
pub fn is_identifier_start(c: char) -> (b: bool)
    ensures
        b == identifier_start(c),
{
    ('a' <= c && c <= 'z') || ('A' <= c && c <= 'Z') || c == '$' || c == '_'
}

/// Whether `c` may continue an identifier.
pub fn is_identifier_part(c: char) -> (b: bool)
    ensures
        b == identifier_part(c),
{
    is_identifier_start(c) || is_decimal_digit(c)
}

/// Whether `c` is a decimal digit.
pub fn is_decimal_digit(c: char) -> (b: bool)
    ensures
        b == decimal_digit(c),
{
    '0' <= c && c <= '9'
}

/// The value of `c` as a digit of base sixteen, or `None` where it is none.
pub fn hex_digit_value(c: char) -> (v: Option<u32>)
    ensures
        v is Some <==> hex_digit(c),
        v matches Some(n) ==> n == hex_value(c) && n < 16,
{
    if '0' <= c && c <= '9' {
        Some(c as u32 - '0' as u32)
    } else if 'a' <= c && c <= 'f' {
        Some(c as u32 - 'a' as u32 + 10)
    } else if 'A' <= c && c <= 'F' {
        Some(c as u32 - 'A' as u32 + 10)
    } else {
        None
    }
}

} // verus!
