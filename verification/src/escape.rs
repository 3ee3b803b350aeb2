//! Escape sequences, as strings and templates share them.

use vstd::prelude::*;
use crate::classify::{
    decimal_digit, hex_digit, hex_digit_value, hex_value, is_decimal_digit, is_line_terminator,
    line_terminator,
};
use crate::cursor::Cursor;
use crate::scan::{lemma_take_reaches, read, take, Fault};
use crate::stream::Stream;

verus! {

/// The character with the scalar value `value`, where there is one: the
/// surrogates and the numbers above `0x10FFFF` have none.
pub open spec fn scalar_of(value: nat) -> Option<char> {
    if value <= 0x10FFFF && !(0xD800 <= value <= 0xDFFF) {
        Some(value as char)
    } else {
        None
    }
}

/// The character that a run of digits stands for; a value that is no scalar
/// value makes the escape invalid.
pub open spec fn escaped_scalar(run: Result<nat, Fault>) -> Result<Option<char>, Fault> {
    match run {
        Ok(value) => match scalar_of(value) {
            Some(c) => Ok(Some(c)),
            None => Err(Fault::Invalid),
        },
        Err(fault) => Err(fault),
    }
}

/// Exactly `count` digits of base sixteen, read as a number after `value`.
pub open spec fn hex_run(s: Stream, count: nat, value: nat) -> (Result<nat, Fault>, Stream)
    decreases count,
{
    if count == 0 {
        (Ok(value), s)
    } else {
        let (r, t) = take(s);
        match r {
            Err(fault) => (Err(fault), t),
            Ok(c) => if hex_digit(c) {
                hex_run(t, (count - 1) as nat, value * 16 + hex_value(c))
            } else {
                (Err(Fault::Invalid), t)
            },
        }
    }
}

/// One or more digits of base sixteen up to a closing brace, read as a
/// number after `value` that must not pass `0x10FFFF`; `seen` says whether a
/// digit was read before.
pub open spec fn braced_run(s: Stream, value: nat, seen: bool) -> (Result<nat, Fault>, Stream)
    decreases s.chars.len(),
{
    let (r, t) = take(s);
    match r {
        Err(fault) => (Err(fault), t),
        Ok(c) => if c == '}' {
            if seen {
                (Ok(value), t)
            } else {
                (Err(Fault::Invalid), t)
            }
        } else if hex_digit(c) && value * 16 + hex_value(c) <= 0x10FFFF {
            braced_run(t, value * 16 + hex_value(c), true)
        } else {
            (Err(Fault::Invalid), t)
        },
    }
}

/// The escape sequence behind a backslash: `s` is the stream behind the
/// backslash. It yields the character that the sequence stands for, or
/// nothing for a line continuation, and the stream behind the sequence.
///
/// A line terminator continues the line. `n`, `t`, `r`, `b`, `f` and `v`
/// stand for the control characters; `0` for the null character, unless a
/// digit follows; the other digits for nothing: such a sequence is invalid.
/// `x` takes two digits of base sixteen, `u` four, or any number in braces,
/// and the number must be a scalar value. Any other character stands for
/// itself.
pub open spec fn escape(s: Stream) -> (Result<Option<char>, Fault>, Stream) {
    let (r, t) = take(s);
    match r {
        Err(fault) => (Err(fault), t),
        Ok(c) => if line_terminator(c) {
            (Ok(None), t)
        } else if c == 'n' {
            (Ok(Some('\n')), t)
        } else if c == 't' {
            (Ok(Some('\t')), t)
        } else if c == 'r' {
            (Ok(Some('\r')), t)
        } else if c == 'b' {
            (Ok(Some('\u{0008}')), t)
        } else if c == 'f' {
            (Ok(Some('\u{000C}')), t)
        } else if c == 'v' {
            (Ok(Some('\u{000B}')), t)
        } else if c == '0' {
            if t.peek() is Some && decimal_digit(t.peek()->0) {
                (Err(Fault::Invalid), t)
            } else {
                (Ok(Some('\0')), t)
            }
        } else if decimal_digit(c) {
            (Err(Fault::Invalid), t)
        } else if c == 'x' {
            (escaped_scalar(hex_run(t, 2, 0).0), hex_run(t, 2, 0).1)
        } else if c == 'u' {
            if t.peek() == Some('{') {
                (
                    escaped_scalar(braced_run(t.advance(), 0, false).0),
                    braced_run(t.advance(), 0, false).1,
                )
            } else {
                (escaped_scalar(hex_run(t, 4, 0).0), hex_run(t, 4, 0).1)
            }
        } else {
            (Ok(Some(c)), t)
        },
    }
}

/// Reading a run of digits leads on.
pub proof fn lemma_hex_run_reaches(s: Stream, count: nat, value: nat)
    ensures
        s.reaches(hex_run(s, count, value).1),
        hex_run(s, count, value).0 == Err::<nat, Fault>(Fault::Broken) ==> s.broken,
    decreases count,
{
    if count > 0 {
        lemma_take_reaches(s);
        let (r, t) = take(s);
        if let Ok(c) = r {
            if hex_digit(c) {
                lemma_hex_run_reaches(t, (count - 1) as nat, value * 16 + hex_value(c));
            }
        }
    }
}

/// Reading digits up to a brace leads on.
pub proof fn lemma_braced_run_reaches(s: Stream, value: nat, seen: bool)
    ensures
        s.reaches(braced_run(s, value, seen).1),
        braced_run(s, value, seen).0 == Err::<nat, Fault>(Fault::Broken) ==> s.broken,
    decreases s.chars.len(),
{
    lemma_take_reaches(s);
    let (r, t) = take(s);
    if let Ok(c) = r {
        if c != '}' && hex_digit(c) && value * 16 + hex_value(c) <= 0x10FFFF {
            lemma_braced_run_reaches(t, value * 16 + hex_value(c), true);
        }
    }
}

/// Reading an escape sequence leads on.
pub proof fn lemma_escape_reaches(s: Stream)
    ensures
        s.reaches(escape(s).1),
        escape(s).0 == Err::<Option<char>, Fault>(Fault::Broken) ==> s.broken,
{
    lemma_take_reaches(s);
    let (r, t) = take(s);
    if r is Ok {
        lemma_hex_run_reaches(t, 2, 0);
        lemma_hex_run_reaches(t, 4, 0);
        if t.chars.len() > 0 {
            lemma_take_reaches(t);
            lemma_braced_run_reaches(t.advance(), 0, false);
        }
    }
}

/// Sixteen to the power `n`.
pub open spec fn pow16(n: nat) -> nat
    decreases n,
{
    if n == 0 {
        1
    } else {
        16 * pow16((n - 1) as nat)
    }
}

proof fn lemma_pow16_small(n: nat)
    requires
        n <= 4,
    ensures
        pow16(n) <= 0x10000,
{
    reveal_with_fuel(pow16, 5);
}

/// Reads exactly `count` digits of base sixteen as a number.
fn read_hex_run(cursor: &mut Cursor, count: u32) -> (r: Result<u32, Fault>)
    requires
        count <= 4,
    ensures
        r matches Ok(v) ==> hex_run(old(cursor)@, count as nat, 0).0 == Ok::<nat, Fault>(v as nat),
        r matches Err(f) ==> hex_run(old(cursor)@, count as nat, 0).0 == Err::<nat, Fault>(f),
        final(cursor)@ == hex_run(old(cursor)@, count as nat, 0).1,
{
    let mut value: u32 = 0;
    let mut i: u32 = 0;
    while i < count
        invariant
            i <= count <= 4,
            value < pow16(i as nat),
            hex_run(old(cursor)@, count as nat, 0) == hex_run(
                cursor@,
                (count - i) as nat,
                value as nat,
            ),
        decreases count - i,
    {
        proof {
            lemma_pow16_small(i as nat);
            lemma_pow16_small((i + 1) as nat);
        }
        match read(cursor) {
            Err(fault) => {
                return Err(fault);
            },
            Ok(c) => {
                match hex_digit_value(c) {
                    Some(d) => {
                        value = value * 16 + d;
                        i = i + 1;
                    },
                    None => {
                        return Err(Fault::Invalid);
                    },
                }
            },
        }
    }
    Ok(value)
}

/// Reads digits of base sixteen up to a closing brace as a number.
fn read_braced_run(cursor: &mut Cursor) -> (r: Result<u32, Fault>)
    ensures
        r matches Ok(v) ==> braced_run(old(cursor)@, 0, false).0 == Ok::<nat, Fault>(v as nat),
        r matches Err(f) ==> braced_run(old(cursor)@, 0, false).0 == Err::<nat, Fault>(f),
        final(cursor)@ == braced_run(old(cursor)@, 0, false).1,
{
    let mut value: u32 = 0;
    let mut seen = false;
    loop
        invariant
            value <= 0x10FFFF,
            braced_run(old(cursor)@, 0, false) == braced_run(cursor@, value as nat, seen),
        decreases cursor@.chars.len(),
    {
        match read(cursor) {
            Err(fault) => {
                return Err(fault);
            },
            Ok(c) => {
                if c == '}' {
                    if seen {
                        return Ok(value);
                    } else {
                        return Err(Fault::Invalid);
                    }
                }
                match hex_digit_value(c) {
                    Some(d) => {
                        if value * 16 + d > 0x10FFFF {
                            return Err(Fault::Invalid);
                        }
                        value = value * 16 + d;
                        seen = true;
                    },
                    None => {
                        return Err(Fault::Invalid);
                    },
                }
            },
        }
    }
}

/// The character that a number read from an escape stands for.
fn to_scalar(run: Result<u32, Fault>) -> (r: Result<Option<char>, Fault>)
    ensures
        run matches Ok(v) ==> r == escaped_scalar(Ok(v as nat)),
        run matches Err(f) ==> r == escaped_scalar(Err(f)),
{
    match run {
        Ok(value) => match char::from_u32(value) {
            Some(c) => Ok(Some(c)),
            None => Err(Fault::Invalid),
        },
        Err(fault) => Err(fault),
    }
}

/// Reads the escape sequence behind a backslash that was read just before.
pub fn read_escape(cursor: &mut Cursor) -> (r: Result<Option<char>, Fault>)
    ensures
        (r, final(cursor)@) == escape(old(cursor)@),
{
    let c = match read(cursor) {
        Ok(c) => c,
        Err(fault) => {
            return Err(fault);
        },
    };
    if is_line_terminator(c) {
        Ok(None)
    } else if c == 'n' {
        Ok(Some('\n'))
    } else if c == 't' {
        Ok(Some('\t'))
    } else if c == 'r' {
        Ok(Some('\r'))
    } else if c == 'b' {
        Ok(Some('\u{0008}'))
    } else if c == 'f' {
        Ok(Some('\u{000C}'))
    } else if c == 'v' {
        Ok(Some('\u{000B}'))
    } else if c == '0' {
        match cursor.peek() {
            Some(d) => {
                if is_decimal_digit(d) {
                    Err(Fault::Invalid)
                } else {
                    Ok(Some('\0'))
                }
            },
            None => Ok(Some('\0')),
        }
    } else if is_decimal_digit(c) {
        Err(Fault::Invalid)
    } else if c == 'x' {
        to_scalar(read_hex_run(cursor, 2))
    } else if c == 'u' {
        if cursor.next_if('{') {
            to_scalar(read_braced_run(cursor))
        } else {
            to_scalar(read_hex_run(cursor, 4))
        }
    } else {
        Ok(Some(c))
    }
}

} // verus!
