//! Regular-expression literals. Only the boundaries of the literal are
//! found: what the body means is left to whoever takes the token.

use vstd::prelude::*;
use crate::classify::{is_line_terminator, line_terminator};
use crate::cursor::Cursor;
use crate::error::{Error, ErrorView};
use crate::identifier::{lemma_word_run_reaches, read_word, word_run};
use crate::position::{Position, PositionView, Span, SpanView};
use crate::scan::{error_of, fault_error, lemma_take_reaches, read, take, Scanned, Tokenizer};
use crate::stream::Stream;
use crate::token::{KindView, Token, TokenKind, TokenView};

verus! {

/// The text of the error for a regular expression that is not closed on its line.
pub open spec fn unterminated_regex() -> Seq<char> {
    "unterminated regular expression literal"@
}

/// Whether the text behind `c` stands in a character class, where it stood
/// in one before `c` according to `in_class`.
pub open spec fn class_after(in_class: bool, c: char) -> bool {
    if c == '[' {
        true
    } else if c == ']' {
        false
    } else {
        in_class
    }
}

/// The rest of a regular-expression literal that began at `start` and has
/// the body `body` so far, read from `s`; `in_class` says whether `s`
/// stands inside a character class.
///
/// The body ends at the first slash that stands neither in a character
/// class, between `[` and `]`, nor behind a backslash. A backslash and the
/// character behind it belong to the body as they are written. Behind the
/// closing slash, the longest run of identifier characters is the flags. A
/// line terminator in the body and the end of the source both leave the
/// literal unterminated: a syntax error at `start`.
pub open spec fn regex_body(s: Stream, start: PositionView, in_class: bool, body: Seq<char>) -> Scanned
    decreases s.chars.len(),
{
    let (r, t) = take(s);
    match r {
        Err(fault) => Scanned {
            output: Err(fault_error(fault, unterminated_regex(), start, start)),
            rest: t,
        },
        Ok(c) => if line_terminator(c) {
            Scanned { output: Err(ErrorView::Syntax(unterminated_regex(), start)), rest: t }
        } else if c == '/' && !in_class {
            let (flags, u) = word_run(t, Seq::empty());
            Scanned {
                output: Ok(
                    TokenView {
                        kind: KindView::RegularExpressionLiteral(body, flags),
                        span: SpanView { start: start, end: u.position },
                    },
                ),
                rest: u,
            }
        } else if c == '\\' {
            let (r2, t2) = take(t);
            match r2 {
                Err(fault) => Scanned {
                    output: Err(fault_error(fault, unterminated_regex(), start, start)),
                    rest: t2,
                },
                Ok(d) => if line_terminator(d) {
                    Scanned {
                        output: Err(ErrorView::Syntax(unterminated_regex(), start)),
                        rest: t2,
                    }
                } else {
                    regex_body(t2, start, in_class, body.push(c).push(d))
                },
            }
        } else {
            regex_body(t, start, class_after(in_class, c), body.push(c))
        },
    }
}

/// The scanner of regular expressions is orderly.
pub proof fn lemma_regex_body_orderly(
    s: Stream,
    start: PositionView,
    in_class: bool,
    body: Seq<char>,
)
    ensures
        regex_body(s, start, in_class, body).orderly(s, start),
    decreases s.chars.len(),
{
    lemma_take_reaches(s);
    let (r, t) = take(s);
    if let Ok(c) = r {
        if line_terminator(c) {
        } else if c == '/' && !in_class {
            lemma_word_run_reaches(t, Seq::empty());
        } else if c == '\\' {
            lemma_take_reaches(t);
            let (r2, t2) = take(t);
            if let Ok(d) = r2 {
                if !line_terminator(d) {
                    lemma_regex_body_orderly(t2, start, in_class, body.push(c).push(d));
                }
            }
        } else {
            lemma_regex_body_orderly(t, start, class_after(in_class, c), body.push(c));
        }
    }
}

/// The scanner of regular-expression literals.
#[derive(Clone, Copy, Debug)]
pub struct RegexLiteral {}

impl RegexLiteral {
    /// The scanner for a literal that a slash opened.
    pub fn new() -> (scanner: RegexLiteral) {
        RegexLiteral {  }
    }
}

impl Tokenizer for RegexLiteral {
    open spec fn scan(&self, s: Stream, start: PositionView) -> Scanned {
        regex_body(s, start, false, Seq::empty())
    }

    fn lex(&self, cursor: &mut Cursor, start: Position) -> (r: Result<Token, Error>) {
        let mut body = String::new();
        let mut in_class = false;
        loop
            invariant
                start@.le(cursor@.position),
                self.scan(old(cursor)@, start@) == regex_body(cursor@, start@, in_class, body@),
            decreases cursor@.chars.len(),
        {
            proof {
                lemma_take_reaches(cursor@);
                lemma_take_reaches(take(cursor@).1);
                lemma_word_run_reaches(take(cursor@).1, Seq::empty());
            }
            match read(cursor) {
                Err(fault) => {
                    return Err(
                        error_of(fault, "unterminated regular expression literal", start, start),
                    );
                },
                Ok(c) => {
                    if is_line_terminator(c) {
                        return Err(
                            Error::syntax("unterminated regular expression literal", start),
                        );
                    } else if c == '/' && !in_class {
                        let mut flags = String::new();
                        read_word(cursor, &mut flags);
                        return Ok(
                            Token::new(
                                TokenKind::RegularExpressionLiteral(body, flags),
                                Span::new(start, cursor.pos()),
                            ),
                        );
                    } else if c == '\\' {
                        match read(cursor) {
                            Err(fault) => {
                                return Err(
                                    error_of(
                                        fault,
                                        "unterminated regular expression literal",
                                        start,
                                        start,
                                    ),
                                );
                            },
                            Ok(d) => {
                                if is_line_terminator(d) {
                                    return Err(
                                        Error::syntax(
                                            "unterminated regular expression literal",
                                            start,
                                        ),
                                    );
                                }
                                body.push(c);
                                body.push(d);
                            },
                        }
                    } else {
                        if c == '[' {
                            in_class = true;
                        } else if c == ']' {
                            in_class = false;
                        }
                        body.push(c);
                    }
                },
            }
        }
    }
}

} // verus!
