//! String literals.

use vstd::prelude::*;
use crate::classify::{is_line_terminator, line_terminator};
use crate::cursor::Cursor;
use crate::error::{invalid_data, Error, ErrorView};
use crate::escape::{escape, lemma_escape_reaches, read_escape};
use crate::position::{Position, PositionView, Span, SpanView};
use crate::scan::{error_of, fault_error, lemma_take_reaches, read, take, Scanned, Tokenizer};
use crate::stream::Stream;
use crate::token::{KindView, Token, TokenKind, TokenView};

verus! {

/// The text of the error for a string that is not closed on its line.
pub open spec fn unterminated_string() -> Seq<char> {
    "unterminated string literal"@
}

/// The rest of a string literal that is closed by `quote`, began at `start`
/// and has the text `text` so far, read from `s`.
///
/// The literal ends at the first `quote` outside an escape sequence, and
/// its span runs from `start` to behind that quote. A backslash begins an
/// escape sequence, which adds the character it stands for, or nothing for
/// a line continuation; any other character but a line terminator adds
/// itself. A line terminator outside an escape sequence and the end of the
/// source both leave the string unterminated: a syntax error at `start`. An
/// invalid escape sequence is a syntax error at its backslash.
pub open spec fn string_body(s: Stream, quote: char, start: PositionView, text: Seq<char>) -> Scanned
    decreases s.chars.len(),
{
    let (r, t) = take(s);
    match r {
        Err(fault) => Scanned {
            output: Err(fault_error(fault, unterminated_string(), start, s.position)),
            rest: t,
        },
        Ok(c) => if c == quote {
            Scanned {
                output: Ok(
                    TokenView {
                        kind: KindView::StringLiteral(text),
                        span: SpanView { start: start, end: t.position },
                    },
                ),
                rest: t,
            }
        } else if line_terminator(c) {
            Scanned { output: Err(ErrorView::Syntax(unterminated_string(), start)), rest: t }
        } else if c == '\\' {
            let (e, u) = escape(t);
            match e {
                Err(fault) => Scanned {
                    output: Err(fault_error(fault, unterminated_string(), start, s.position)),
                    rest: u,
                },
                Ok(piece) => {
                    proof {
                        lemma_escape_reaches(t);
                    }
                    string_body(
                        u,
                        quote,
                        start,
                        match piece {
                            Some(x) => text.push(x),
                            None => text,
                        },
                    )
                },
            }
        } else {
            string_body(t, quote, start, text.push(c))
        },
    }
}

/// The scanner of string literals is orderly.
pub proof fn lemma_string_body_orderly(s: Stream, quote: char, start: PositionView, text: Seq<char>)
    ensures
        string_body(s, quote, start, text).orderly(s, start),
    decreases s.chars.len(),
{
    lemma_take_reaches(s);
    let (r, t) = take(s);
    if let Ok(c) = r {
        if c == quote || line_terminator(c) {
        } else if c == '\\' {
            lemma_escape_reaches(t);
            let (e, u) = escape(t);
            if let Ok(piece) = e {
                lemma_string_body_orderly(
                    u,
                    quote,
                    start,
                    match piece {
                        Some(x) => text.push(x),
                        None => text,
                    },
                );
            }
        } else {
            lemma_string_body_orderly(t, quote, start, text.push(c));
        }
    }
}

/// Where a string literal fails, the error is one of three: the source
/// could not be decoded; the string is unterminated, reported at `start`,
/// where its opening quote stands; or an escape sequence is invalid.
pub proof fn lemma_string_errors(s: Stream, quote: char, start: PositionView, text: Seq<char>)
    ensures
        string_body(s, quote, start, text).output matches Err(error) ==> {
            ||| error == invalid_data()
            ||| error == ErrorView::Syntax(unterminated_string(), start)
            ||| error matches ErrorView::Syntax(message, _) && message
                == "invalid escape sequence"@
        },
    decreases s.chars.len(),
{
    lemma_take_reaches(s);
    let (r, t) = take(s);
    if let Ok(c) = r {
        if c == quote || line_terminator(c) {
        } else if c == '\\' {
            lemma_escape_reaches(t);
            let (e, u) = escape(t);
            if let Ok(piece) = e {
                lemma_string_errors(
                    u,
                    quote,
                    start,
                    match piece {
                        Some(x) => text.push(x),
                        None => text,
                    },
                );
            }
        } else {
            lemma_string_errors(t, quote, start, text.push(c));
        }
    }
}

/// The scanner of string literals that are closed by one given quote.
#[derive(Clone, Copy, Debug)]
pub struct StringLiteral {
    /// The quote that opened the literal and will close it.
    pub terminator: char,
}

impl StringLiteral {
    /// The scanner for a literal that `terminator` opened.
    pub fn new(terminator: char) -> (scanner: StringLiteral)
        ensures
            scanner.terminator == terminator,
    {
        StringLiteral { terminator }
    }
}

impl Tokenizer for StringLiteral {
    open spec fn scan(&self, s: Stream, start: PositionView) -> Scanned {
        string_body(s, self.terminator, start, Seq::empty())
    }

    fn lex(&self, cursor: &mut Cursor, start: Position) -> (r: Result<Token, Error>) {
        let mut text = String::new();
        loop
            invariant
                start@.le(cursor@.position),
                self.scan(old(cursor)@, start@) == string_body(
                    cursor@,
                    self.terminator,
                    start@,
                    text@,
                ),
            decreases cursor@.chars.len(),
        {
            let here = cursor.pos();
            proof {
                lemma_take_reaches(cursor@);
                lemma_escape_reaches(take(cursor@).1);
            }
            match read(cursor) {
                Err(fault) => {
                    return Err(error_of(fault, "unterminated string literal", start, here));
                },
                Ok(c) => {
                    if c == self.terminator {
                        return Ok(
                            Token::new(TokenKind::StringLiteral(text), Span::new(start, cursor.pos())),
                        );
                    } else if is_line_terminator(c) {
                        return Err(Error::syntax("unterminated string literal", start));
                    } else if c == '\\' {
                        match read_escape(cursor) {
                            Err(fault) => {
                                return Err(
                                    error_of(fault, "unterminated string literal", start, here),
                                );
                            },
                            Ok(Some(x)) => {
                                text.push(x);
                            },
                            Ok(None) => {},
                        }
                    } else {
                        text.push(c);
                    }
                },
            }
        }
    }
}

} // verus!
