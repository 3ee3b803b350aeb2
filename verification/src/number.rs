//! Numeric literals: decimal digits with an optional fraction and exponent.
//! The token holds the digits as written; what number they denote is left
//! to whoever takes the token.

use vstd::prelude::*;
use crate::classify::{decimal_digit, identifier_start, is_decimal_digit, is_identifier_start};
use crate::cursor::Cursor;
use crate::error::{Error, ErrorView};
use crate::position::{Position, PositionView, Span, SpanView};
use crate::scan::{Scanned, Tokenizer};
use crate::stream::Stream;
use crate::token::{KindView, Token, TokenKind, TokenView};

verus! {

/// The text of the error for a number that is cut short or runs into a word.
pub open spec fn invalid_number() -> Seq<char> {
    "invalid numeric literal"@
}

/// The longest run of decimal digits at the start of `s`, appended to
/// `text`, and the stream behind the run.
pub open spec fn digit_run(s: Stream, text: Seq<char>) -> (Seq<char>, Stream)
    decreases s.chars.len(),
{
    if s.chars.len() > 0 && decimal_digit(s.chars[0]) {
        digit_run(s.advance(), text.push(s.chars[0]))
    } else {
        (text, s)
    }
}

/// A fraction where one follows: a dot and the digits behind it.
pub open spec fn fraction(s: Stream, text: Seq<char>) -> (Seq<char>, Stream) {
    if s.peek() == Some('.') {
        digit_run(s.advance(), text.push('.'))
    } else {
        (text, s)
    }
}

/// A sign where one follows.
pub open spec fn sign(s: Stream, text: Seq<char>) -> (Seq<char>, Stream) {
    if s.peek() == Some('+') || s.peek() == Some('-') {
        (text.push(s.chars[0]), s.advance())
    } else {
        (text, s)
    }
}

/// An exponent where one follows: `e` or `E`, a sign if there is one, and
/// at least one digit. `None` where the digits are missing.
pub open spec fn exponent(s: Stream, text: Seq<char>) -> (Option<Seq<char>>, Stream) {
    if s.peek() == Some('e') || s.peek() == Some('E') {
        let (signed, u) = sign(s.advance(), text.push(s.chars[0]));
        if u.peek() is Some && decimal_digit(u.peek()->0) {
            (Some(digit_run(u, signed).0), digit_run(u, signed).1)
        } else {
            (None, u)
        }
    } else {
        (Some(text), s)
    }
}

/// The rest of a numeric literal that began at `start` with `first`, a
/// digit or the dot before a fraction, read from `s`.
///
/// Behind the digits that follow `first` comes a fraction, unless `first`
/// was the dot, and then an exponent, each if the source holds one. An
/// exponent without digits, and a literal that is followed directly by a
/// character that may begin an identifier, are a syntax error at `start`.
pub open spec fn number(s: Stream, start: PositionView, first: char) -> Scanned {
    let (whole, t) = digit_run(s, seq![first]);
    let (mantissa, u) = if first == '.' {
        (whole, t)
    } else {
        fraction(t, whole)
    };
    let (full, v) = exponent(u, mantissa);
    if full is Some && !(v.peek() is Some && identifier_start(v.peek()->0)) {
        Scanned {
            output: Ok(
                TokenView {
                    kind: KindView::NumericLiteral(full->0),
                    span: SpanView { start: start, end: v.position },
                },
            ),
            rest: v,
        }
    } else {
        Scanned { output: Err(ErrorView::Syntax(invalid_number(), start)), rest: v }
    }
}

/// Reading a run of digits leads on.
pub proof fn lemma_digit_run_reaches(s: Stream, text: Seq<char>)
    ensures
        s.reaches(digit_run(s, text).1),
    decreases s.chars.len(),
{
    if s.chars.len() > 0 && decimal_digit(s.chars[0]) {
        lemma_digit_run_reaches(s.advance(), text.push(s.chars[0]));
    }
}

/// The scanner of numbers is orderly.
pub proof fn lemma_number_orderly(s: Stream, start: PositionView, first: char)
    ensures
        number(s, start, first).orderly(s, start),
{
    let (whole, t) = digit_run(s, seq![first]);
    lemma_digit_run_reaches(s, seq![first]);
    let (mantissa, u) = if first == '.' {
        (whole, t)
    } else {
        fraction(t, whole)
    };
    if first != '.' && t.peek() == Some('.') {
        lemma_digit_run_reaches(t.advance(), whole.push('.'));
    }
    if u.peek() == Some('e') || u.peek() == Some('E') {
        let (signed, w) = sign(u.advance(), mantissa.push(u.chars[0]));
        lemma_digit_run_reaches(w, signed);
    }
}

/// Reads the longest run of decimal digits and appends it to `text`.
fn read_digits(cursor: &mut Cursor, text: &mut String)
    ensures
        (final(text)@, final(cursor)@) == digit_run(old(cursor)@, old(text)@),
{
    loop
        invariant
            digit_run(old(cursor)@, old(text)@) == digit_run(cursor@, text@),
        decreases cursor@.chars.len(),
    {
        match cursor.peek() {
            None => {
                return ;
            },
            Some(c) => {
                if !is_decimal_digit(c) {
                    return ;
                }
                let _ = cursor.next();
                text.push(c);
            },
        }
    }
}

/// Reads an exponent where one follows, and says whether its digits are there.
fn read_exponent(cursor: &mut Cursor, text: &mut String) -> (complete: bool)
    ensures
        complete == exponent(old(cursor)@, old(text)@).0 is Some,
        complete ==> final(text)@ == exponent(old(cursor)@, old(text)@).0->0,
        final(cursor)@ == exponent(old(cursor)@, old(text)@).1,
{
    if cursor.next_if('e') {
        text.push('e');
    } else if cursor.next_if('E') {
        text.push('E');
    } else {
        return true;
    }
    if cursor.next_if('+') {
        text.push('+');
    } else if cursor.next_if('-') {
        text.push('-');
    }
    match cursor.peek() {
        Some(c) => {
            if is_decimal_digit(c) {
                read_digits(cursor, text);
                true
            } else {
                false
            }
        },
        None => false,
    }
}

/// The scanner of numeric literals.
#[derive(Clone, Copy, Debug)]
pub struct NumericLiteral {
    /// The character that began the literal: a digit, or the dot before a fraction.
    pub first: char,
}

impl NumericLiteral {
    /// The scanner for a literal that `first` began.
    pub fn new(first: char) -> (scanner: NumericLiteral)
        ensures
            scanner.first == first,
    {
        NumericLiteral { first }
    }
}

impl Tokenizer for NumericLiteral {
    open spec fn scan(&self, s: Stream, start: PositionView) -> Scanned {
        number(s, start, self.first)
    }

    fn lex(&self, cursor: &mut Cursor, start: Position) -> (r: Result<Token, Error>) {
        proof {
            lemma_number_orderly(cursor@, start@, self.first);
        }
        let mut text = String::new();
        text.push(self.first);
        read_digits(cursor, &mut text);
        if self.first != '.' && cursor.next_if('.') {
            text.push('.');
            read_digits(cursor, &mut text);
        }
        let complete = read_exponent(cursor, &mut text);
        let runs_on = match cursor.peek() {
            Some(c) => is_identifier_start(c),
            None => false,
        };
        if complete && !runs_on {
            Ok(Token::new(TokenKind::NumericLiteral(text), Span::new(start, cursor.pos())))
        } else {
            Err(Error::syntax("invalid numeric literal", start))
        }
    }
}

} // verus!
