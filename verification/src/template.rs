//! Template literals.

use vstd::prelude::*;
use crate::cursor::Cursor;
use crate::error::{invalid_data, Error, ErrorView};
use crate::escape::{escape, lemma_escape_reaches, read_escape};
use crate::position::{Position, PositionView, Span, SpanView};
use crate::scan::{error_of, fault_error, lemma_take_reaches, read, take, Scanned, Tokenizer};
use crate::stream::Stream;
use crate::token::{KindView, TemplatePart, Token, TokenKind, TokenView};

verus! {

/// The text of the error for a template that the source ends in.
pub open spec fn unterminated_template() -> Seq<char> {
    "unterminated template literal"@
}

/// The part that a template token is, by whether it resumes the template
/// behind a substitution and whether it opens a substitution.
pub open spec fn part_of(resumed: bool, opens: bool) -> TemplatePart {
    if resumed {
        if opens {
            TemplatePart::Middle
        } else {
            TemplatePart::Tail
        }
    } else {
        if opens {
            TemplatePart::Head
        } else {
            TemplatePart::Whole
        }
    }
}

/// The rest of one part of a template literal that began at `start` and has
/// the text `text` so far, read from `s`; `resumed` says whether the part
/// began with the `}` that closes a substitution rather than with a
/// backquote.
///
/// The part ends behind a backquote, which closes the template, or behind
/// `${`, which opens a substitution: the tokens of the substituted
/// expression are then asked for one by one, and the part behind its `}` is
/// asked for under a goal symbol that stands for a template tail. Escape
/// sequences are those of string literals. A line terminator belongs to the
/// text; a carriage return, alone or with its line feed, is read as a line
/// feed. The end of the source leaves the template unterminated: a syntax
/// error at `start`.
pub open spec fn template_body(s: Stream, start: PositionView, resumed: bool, text: Seq<char>) -> Scanned
    decreases s.chars.len(),
{
    let (r, t) = take(s);
    match r {
        Err(fault) => Scanned {
            output: Err(fault_error(fault, unterminated_template(), start, s.position)),
            rest: t,
        },
        Ok(c) => if c == '`' {
            Scanned {
                output: Ok(
                    TokenView {
                        kind: KindView::TemplateLiteral(part_of(resumed, false), text),
                        span: SpanView { start: start, end: t.position },
                    },
                ),
                rest: t,
            }
        } else if c == '$' && t.peek() == Some('{') {
            Scanned {
                output: Ok(
                    TokenView {
                        kind: KindView::TemplateLiteral(part_of(resumed, true), text),
                        span: SpanView { start: start, end: t.advance().position },
                    },
                ),
                rest: t.advance(),
            }
        } else if c == '\\' {
            let (e, u) = escape(t);
            match e {
                Err(fault) => Scanned {
                    output: Err(fault_error(fault, unterminated_template(), start, s.position)),
                    rest: u,
                },
                Ok(piece) => {
                    proof {
                        lemma_escape_reaches(t);
                    }
                    template_body(
                        u,
                        start,
                        resumed,
                        match piece {
                            Some(x) => text.push(x),
                            None => text,
                        },
                    )
                },
            }
        } else if c == '\r' {
            template_body(t, start, resumed, text.push('\n'))
        } else {
            template_body(t, start, resumed, text.push(c))
        },
    }
}

/// The scanner of templates is orderly.
pub proof fn lemma_template_body_orderly(
    s: Stream,
    start: PositionView,
    resumed: bool,
    text: Seq<char>,
)
    ensures
        template_body(s, start, resumed, text).orderly(s, start),
    decreases s.chars.len(),
{
    lemma_take_reaches(s);
    let (r, t) = take(s);
    if let Ok(c) = r {
        if c == '`' {
        } else if c == '$' && t.peek() == Some('{') {
            lemma_take_reaches(t);
        } else if c == '\\' {
            lemma_escape_reaches(t);
            let (e, u) = escape(t);
            if let Ok(piece) = e {
                lemma_template_body_orderly(
                    u,
                    start,
                    resumed,
                    match piece {
                        Some(x) => text.push(x),
                        None => text,
                    },
                );
            }
        } else if c == '\r' {
            lemma_template_body_orderly(t, start, resumed, text.push('\n'));
        } else {
            lemma_template_body_orderly(t, start, resumed, text.push(c));
        }
    }
}

/// Where a part of a template fails, the error is one of three: the source
/// could not be decoded; the template is unterminated, reported at `start`,
/// where the part began; or an escape sequence is invalid.
pub proof fn lemma_template_errors(s: Stream, start: PositionView, resumed: bool, text: Seq<char>)
    ensures
        template_body(s, start, resumed, text).output matches Err(error) ==> {
            ||| error == invalid_data()
            ||| error == ErrorView::Syntax(unterminated_template(), start)
            ||| error matches ErrorView::Syntax(message, _) && message
                == "invalid escape sequence"@
        },
    decreases s.chars.len(),
{
    lemma_take_reaches(s);
    let (r, t) = take(s);
    if let Ok(c) = r {
        if c == '`' {
        } else if c == '$' && t.peek() == Some('{') {
        } else if c == '\\' {
            lemma_escape_reaches(t);
            let (e, u) = escape(t);
            if let Ok(piece) = e {
                lemma_template_errors(
                    u,
                    start,
                    resumed,
                    match piece {
                        Some(x) => text.push(x),
                        None => text,
                    },
                );
            }
        } else if c == '\r' {
            lemma_template_errors(t, start, resumed, text.push('\n'));
        } else {
            lemma_template_errors(t, start, resumed, text.push(c));
        }
    }
}

/// The scanner of the parts of template literals.
#[derive(Clone, Copy, Debug)]
pub struct TemplateLiteral {
    /// Whether the part resumes a template behind a substitution.
    pub resumed: bool,
}

impl TemplateLiteral {
    /// The scanner for a template that a backquote opened.
    pub fn new() -> (scanner: TemplateLiteral)
        ensures
            !scanner.resumed,
    {
        TemplateLiteral { resumed: false }
    }

    /// The scanner for the part of a template behind the `}` that closes a substitution.
    pub fn resumed() -> (scanner: TemplateLiteral)
        ensures
            scanner.resumed,
    {
        TemplateLiteral { resumed: true }
    }

    /// The part that a token of this scanner is.
    fn part(&self, opens: bool) -> (part: TemplatePart)
        ensures
            part == part_of(self.resumed, opens),
    {
        if self.resumed {
            if opens {
                TemplatePart::Middle
            } else {
                TemplatePart::Tail
            }
        } else {
            if opens {
                TemplatePart::Head
            } else {
                TemplatePart::Whole
            }
        }
    }
}

impl Tokenizer for TemplateLiteral {
    open spec fn scan(&self, s: Stream, start: PositionView) -> Scanned {
        template_body(s, start, self.resumed, Seq::empty())
    }

    fn lex(&self, cursor: &mut Cursor, start: Position) -> (r: Result<Token, Error>) {
        let mut text = String::new();
        loop
            invariant
                start@.le(cursor@.position),
                self.scan(old(cursor)@, start@) == template_body(
                    cursor@,
                    start@,
                    self.resumed,
                    text@,
                ),
            decreases cursor@.chars.len(),
        {
            let here = cursor.pos();
            proof {
                lemma_take_reaches(cursor@);
                lemma_take_reaches(take(cursor@).1);
                lemma_escape_reaches(take(cursor@).1);
            }
            match read(cursor) {
                Err(fault) => {
                    return Err(error_of(fault, "unterminated template literal", start, here));
                },
                Ok(c) => {
                    if c == '`' {
                        return Ok(
                            Token::new(
                                TokenKind::TemplateLiteral(self.part(false), text),
                                Span::new(start, cursor.pos()),
                            ),
                        );
                    } else if c == '$' {
                        if cursor.next_if('{') {
                            return Ok(
                                Token::new(
                                    TokenKind::TemplateLiteral(self.part(true), text),
                                    Span::new(start, cursor.pos()),
                                ),
                            );
                        }
                        text.push(c);
                    } else if c == '\\' {
                        match read_escape(cursor) {
                            Err(fault) => {
                                return Err(
                                    error_of(fault, "unterminated template literal", start, here),
                                );
                            },
                            Ok(Some(x)) => {
                                text.push(x);
                            },
                            Ok(None) => {},
                        }
                    } else if c == '\r' {
                        text.push('\n');
                    } else {
                        text.push(c);
                    }
                },
            }
        }
    }
}

} // verus!
