//! The lexer: it skips white space and comments, looks at the next
//! character and at the goal symbol, and reads one token.

use vstd::prelude::*;
use crate::classify::{
    decimal_digit, identifier_start, is_decimal_digit, is_identifier_start, is_line_terminator,
    line_terminator, whitespace,
};
use crate::comment::{
    block_comment, lemma_block_comment_reaches, lemma_line_comment_reaches, line_comment,
    skip_block_comment, skip_line_comment, unterminated_comment,
};
use crate::cursor::Cursor;
use crate::error::{invalid_data, unexpected_character, Error, ErrorView};
use crate::identifier::{lemma_word_run_reaches, Identifier};
use crate::number::{lemma_number_orderly, number, NumericLiteral};
use crate::position::{Position, PositionView, Span, SpanView};
use crate::punctuator::{lemma_punctuator_reaches, punctuator, read_punctuator, Punctuator};
use crate::regex::{lemma_regex_body_orderly, regex_body, RegexLiteral};
use crate::scan::{fault_error, lemma_take_reaches, read, take, Fault, Scanned, Tokenizer};
use crate::stream::Stream;
use crate::string::{lemma_string_body_orderly, string_body, StringLiteral};
use crate::template::{lemma_template_body_orderly, template_body, TemplateLiteral};
use crate::token::{answer_view, scanned_view, KindView, Token, TokenKind, TokenView};

verus! {

/// The goal symbol: which of the readings of an ambiguous character holds
/// for the next token. Whoever asks for tokens knows what the grammar
/// expects and sets it before the request.
#[derive(Clone, Copy, Debug, PartialEq, Eq, Structural)]
pub enum InputElement {
    /// A slash is the division operator; a closing brace is a punctuator.
    Div,
    /// A slash opens a regular expression; a closing brace is a punctuator.
    RegExp,
    /// A slash opens a regular expression; a closing brace resumes a template.
    RegExpOrTemplateTail,
    /// A slash is the division operator; a closing brace resumes a template.
    TemplateTail,
}

impl InputElement {
    /// Whether a slash that begins no comment opens a regular expression.
    pub open spec fn slash_opens_regex(self) -> bool {
        self == InputElement::RegExp || self == InputElement::RegExpOrTemplateTail
    }

    /// Whether a closing brace resumes a template behind a substitution.
    pub open spec fn brace_resumes_template(self) -> bool {
        self == InputElement::RegExpOrTemplateTail || self == InputElement::TemplateTail
    }

    /// Whether a slash that begins no comment opens a regular expression.
    pub fn opens_regex(&self) -> (b: bool)
        ensures
            b == self.slash_opens_regex(),
    {
        match self {
            InputElement::RegExp | InputElement::RegExpOrTemplateTail => true,
            InputElement::Div | InputElement::TemplateTail => false,
        }
    }

    /// Whether a closing brace resumes a template behind a substitution.
    pub fn resumes_template(&self) -> (b: bool)
        ensures
            b == self.brace_resumes_template(),
    {
        match self {
            InputElement::RegExpOrTemplateTail | InputElement::TemplateTail => true,
            InputElement::Div | InputElement::RegExp => false,
        }
    }
}

impl Default for InputElement {
    /// The goal at the start of a script is `RegExp`: no expression stands
    /// before the first token, so a slash there cannot divide.
    fn default() -> (goal: InputElement)
        ensures
            goal == InputElement::RegExp,
    {
        InputElement::RegExp
    }
}

/// The token made of `kind` from `start` to the position of `rest`, with `rest` left to read.
pub open spec fn token_to(kind: KindView, start: PositionView, rest: Stream) -> Scanned {
    Scanned {
        output: Ok(TokenView { kind: kind, span: SpanView { start: start, end: rest.position } }),
        rest: rest,
    }
}

/// What a dot at `start` begins, with `t` the stream behind it: a number
/// where a digit follows, the spread punctuator where two more dots follow,
/// and the dot punctuator otherwise. Two dots without a third are a syntax
/// error at `start`.
pub open spec fn dot(t: Stream, start: PositionView) -> Scanned {
    if t.peek() is Some && decimal_digit(t.peek()->0) {
        number(t, start, '.')
    } else if t.peek() == Some('.') {
        let u = t.advance();
        if u.peek() == Some('.') {
            token_to(KindView::Punctuator(Punctuator::Spread), start, u.advance())
        } else {
            Scanned { output: Err(ErrorView::Syntax(unexpected_character('.'), start)), rest: u }
        }
    } else {
        token_to(KindView::Punctuator(Punctuator::Dot), start, t)
    }
}

/// The token that begins with the character `c`, which stood at `start`
/// and is neither white space nor the start of a comment; `t` is the stream
/// behind `c` and `goal` the goal symbol in effect.
///
/// A line terminator is a token of its own. A quote opens a string, a
/// backquote a template. A closing brace resumes a template where the goal
/// says so, and a slash opens a regular expression where the goal says so.
/// A digit begins a number; a dot may; a letter, `$` or `_` begins a word.
/// Any other character is a punctuator or begins one, or else it is a
/// syntax error that names the character, at `start`.
pub open spec fn token_at(c: char, start: PositionView, t: Stream, goal: InputElement) -> Scanned {
    if line_terminator(c) {
        token_to(KindView::LineTerminator, start, t)
    } else if c == '"' || c == '\'' {
        string_body(t, c, start, Seq::empty())
    } else if c == '`' {
        template_body(t, start, false, Seq::empty())
    } else if c == '}' && goal.brace_resumes_template() {
        template_body(t, start, true, Seq::empty())
    } else if c == '/' && goal.slash_opens_regex() {
        regex_body(t, start, false, Seq::empty())
    } else if decimal_digit(c) {
        number(t, start, c)
    } else if c == '.' {
        dot(t, start)
    } else if identifier_start(c) {
        (Identifier { first: c }).scan(t, start)
    } else {
        match punctuator(c, t) {
            Some((p, u)) => token_to(KindView::Punctuator(p), start, u),
            None => Scanned {
                output: Err(ErrorView::Syntax(unexpected_character(c), start)),
                rest: t,
            },
        }
    }
}

/// The answer to one request for a token, and the stream that is left.
pub struct Step {
    /// The token or the error, or `None` at the end of the source.
    pub output: Option<Result<TokenView, ErrorView>>,
    /// What is left to read after the request.
    pub rest: Stream,
}

/// One request for a token on the stream `s` under the goal symbol `goal`.
///
/// White space is skipped, and so are comments: a line comment from `//`
/// through the line terminator that ends it, and a block comment from `/*`
/// to the first `*/`, whatever it holds. At the end of the source the answer
/// is `None`, and it stays so. Otherwise the answer is the token that
/// begins with the next character, or an error; behind an error nothing
/// more is read: every later answer is `None`.
pub open spec fn lex(s: Stream, goal: InputElement) -> Step
    decreases s.chars.len(),
{
    let (r, t) = take(s);
    match r {
        Err(Fault::End) => Step { output: None, rest: t },
        Err(_) => Step { output: Some(Err(invalid_data())), rest: t },
        Ok(c) => if whitespace(c) {
            lex(t, goal)
        } else if c == '/' && t.peek() == Some('/') {
            proof {
                lemma_line_comment_reaches(t.advance());
            }
            lex(line_comment(t.advance()), goal)
        } else if c == '/' && t.peek() == Some('*') {
            let (closed, u) = block_comment(t.advance(), false);
            match closed {
                Ok(_) => {
                    proof {
                        lemma_block_comment_reaches(t.advance(), false);
                    }
                    lex(u, goal)
                },
                Err(fault) => Step {
                    output: Some(
                        Err(fault_error(fault, unterminated_comment(), s.position, s.position)),
                    ),
                    rest: u.halt(),
                },
            }
        } else {
            let scanned = token_at(c, s.position, t, goal);
            Step {
                output: Some(scanned.output),
                rest: if scanned.output is Ok {
                    scanned.rest
                } else {
                    scanned.rest.halt()
                },
            }
        },
    }
}

/// Whatever begins a token, the scanner that reads it leads on and its
/// token spans from `start` to where the scanner stops.
pub proof fn lemma_token_at_orderly(c: char, start: PositionView, t: Stream, goal: InputElement)
    ensures
        token_at(c, start, t, goal).orderly(t, start),
{
    lemma_string_body_orderly(t, c, start, Seq::empty());
    lemma_template_body_orderly(t, start, false, Seq::empty());
    lemma_template_body_orderly(t, start, true, Seq::empty());
    lemma_regex_body_orderly(t, start, false, Seq::empty());
    lemma_number_orderly(t, start, c);
    lemma_number_orderly(t, start, '.');
    lemma_word_run_reaches(t, seq![c]);
    lemma_punctuator_reaches(c, t);
    lemma_take_reaches(t);
    lemma_take_reaches(take(t).1);
}

/// One request leads on. Its token, if it answers with one, does not begin
/// before the place where the request found the lexer, does not end before
/// it begins, and ends where the request leaves the lexer. If it answers
/// with an error or with the end of the source, nothing is left to read.
/// It fails to read the source only where malformed bytes lie ahead.
pub proof fn lemma_lex_leads_on(s: Stream, goal: InputElement)
    ensures
        s.reaches(lex(s, goal).rest),
        lex(s, goal).output matches Some(Ok(token)) ==> {
            &&& s.position.le(token.span.start)
            &&& token.span.start.le(token.span.end)
            &&& token.span.end == lex(s, goal).rest.position
        },
        !(lex(s, goal).output matches Some(Ok(_))) ==> lex(s, goal).rest.exhausted(),
        lex(s, goal).output matches Some(Err(ErrorView::Io(_))) ==> s.broken,
    decreases s.chars.len(),
{
    lemma_take_reaches(s);
    let (r, t) = take(s);
    if let Ok(c) = r {
        lemma_take_reaches(t);
        if whitespace(c) {
            lemma_lex_leads_on(t, goal);
        } else if c == '/' && t.peek() == Some('/') {
            lemma_line_comment_reaches(t.advance());
            lemma_lex_leads_on(line_comment(t.advance()), goal);
        } else if c == '/' && t.peek() == Some('*') {
            lemma_block_comment_reaches(t.advance(), false);
            let (closed, u) = block_comment(t.advance(), false);
            if closed is Ok {
                lemma_lex_leads_on(u, goal);
            }
        } else {
            lemma_token_at_orderly(c, s.position, t, goal);
        }
    }
}

/// A lexer as a mathematical value: what is left to read, and the goal symbol.
pub struct LexerView {
    pub stream: Stream,
    pub goal: InputElement,
}

impl LexerView {
    /// The lexer over a whole source, before the first request.
    pub open spec fn over(source: Seq<u8>) -> LexerView {
        LexerView { stream: Stream::of_bytes(source), goal: InputElement::RegExp }
    }

    /// The same lexer with the goal symbol `goal`.
    pub open spec fn with_goal(self, goal: InputElement) -> LexerView {
        LexerView { stream: self.stream, goal: goal }
    }

    /// The answer to the next request.
    pub open spec fn answer(self) -> Option<Result<TokenView, ErrorView>> {
        lex(self.stream, self.goal).output
    }

    /// The lexer after the next request: the goal symbol stays as it is.
    pub open spec fn after(self) -> LexerView {
        LexerView { stream: lex(self.stream, self.goal).rest, goal: self.goal }
    }
}

/// Hands out the tokens of a source one by one, each when it is asked for.
#[derive(Debug)]
pub struct Lexer {
    cursor: Cursor,
    goal_symbol: InputElement,
}

impl View for Lexer {
    type V = LexerView;

    closed spec fn view(&self) -> LexerView {
        LexerView { stream: self.cursor@, goal: self.goal_symbol }
    }
}

impl Lexer {
    /// Checks if a character is white space of the language. This is not
    /// the host's test for blank characters: the language counts the
    /// Unicode category "Space_Separator", tab, vertical tab, form feed and
    /// the byte order mark, and no line terminator.
    pub fn is_whitespace(ch: char) -> (b: bool)
        ensures
            b == whitespace(ch),
    {
        ch == '\u{0020}' || ch == '\u{0009}' || ch == '\u{000B}' || ch == '\u{000C}' || ch
            == '\u{00A0}' || ch == '\u{FEFF}' || ch == '\u{1680}' || ('\u{2000}' <= ch && ch
            <= '\u{200A}') || ch == '\u{202F}' || ch == '\u{205F}' || ch == '\u{3000}'
    }

    /// Sets the goal symbol. It holds from the next request on, until it is set again.
    pub fn set_goal(&mut self, elm: InputElement)
        ensures
            final(self)@ == old(self)@.with_goal(elm),
    {
        self.goal_symbol = elm;
    }

    /// The goal symbol in effect.
    pub fn goal(&self) -> (goal: InputElement)
        ensures
            goal == self@.goal,
    {
        self.goal_symbol
    }

    /// The position of the next character to be read.
    pub fn pos(&self) -> (p: Position)
        ensures
            p@ == self@.stream.position,
    {
        self.cursor.pos()
    }

    /// Creates a new lexer over the bytes of a source, before its first
    /// character. The goal symbol is the default one, `RegExp`, which is
    /// the goal at the start of a script. The source is shorter than
    /// `usize::MAX` bytes, so that every line and column can be counted.
    pub fn new(reader: &[u8]) -> (lexer: Lexer)
        requires
            reader@.len() < usize::MAX,
        ensures
            lexer@ == LexerView::over(reader@),
    {
        Lexer { cursor: Cursor::new(reader), goal_symbol: InputElement::default() }
    }

    /// Reads what a dot begins.
    fn lex_dot(&mut self, start: Position) -> (r: Result<Token, Error>)
        requires
            start@.le(old(self)@.stream.position),
        ensures
            scanned_view(r) == dot(old(self)@.stream, start@).output,
            final(self)@.stream == dot(old(self)@.stream, start@).rest,
            final(self)@.goal == old(self)@.goal,
    {
        proof {
            lemma_take_reaches(self.cursor@);
            lemma_take_reaches(take(self.cursor@).1);
        }
        match self.cursor.peek() {
            Some(d) => {
                if is_decimal_digit(d) {
                    NumericLiteral::new('.').lex(&mut self.cursor, start)
                } else if d == '.' {
                    let _ = self.cursor.next();
                    if self.cursor.next_if('.') {
                        Ok(
                            Token::new(
                                TokenKind::Punctuator(Punctuator::Spread),
                                Span::new(start, self.cursor.pos()),
                            ),
                        )
                    } else {
                        Err(Error::unexpected('.', start))
                    }
                } else {
                    Ok(
                        Token::new(
                            TokenKind::Punctuator(Punctuator::Dot),
                            Span::new(start, self.cursor.pos()),
                        ),
                    )
                }
            },
            None => Ok(
                Token::new(
                    TokenKind::Punctuator(Punctuator::Dot),
                    Span::new(start, self.cursor.pos()),
                ),
            ),
        }
    }

    /// Reads the token that begins with `c`, which was read just before at `start`.
    fn token(&mut self, c: char, start: Position) -> (r: Result<Token, Error>)
        requires
            start@.le(old(self)@.stream.position),
        ensures
            scanned_view(r) == token_at(c, start@, old(self)@.stream, old(self)@.goal).output,
            final(self)@.stream == token_at(c, start@, old(self)@.stream, old(self)@.goal).rest,
            final(self)@.goal == old(self)@.goal,
    {
        if is_line_terminator(c) {
            Ok(Token::new(TokenKind::LineTerminator, Span::new(start, self.cursor.pos())))
        } else if c == '"' || c == '\'' {
            StringLiteral::new(c).lex(&mut self.cursor, start)
        } else if c == '`' {
            TemplateLiteral::new().lex(&mut self.cursor, start)
        } else if c == '}' && self.goal_symbol.resumes_template() {
            TemplateLiteral::resumed().lex(&mut self.cursor, start)
        } else if c == '/' && self.goal_symbol.opens_regex() {
            RegexLiteral::new().lex(&mut self.cursor, start)
        } else if is_decimal_digit(c) {
            NumericLiteral::new(c).lex(&mut self.cursor, start)
        } else if c == '.' {
            self.lex_dot(start)
        } else if is_identifier_start(c) {
            Identifier::new(c).lex(&mut self.cursor, start)
        } else {
            proof {
                lemma_punctuator_reaches(c, self.cursor@);
            }
            match read_punctuator(c, &mut self.cursor) {
                Some(p) => Ok(
                    Token::new(TokenKind::Punctuator(p), Span::new(start, self.cursor.pos())),
                ),
                None => Err(Error::unexpected(c, start)),
            }
        }
    }

    /// Produces the next token, or `None` at the end of the source.
    ///
    /// White space and comments before the token are read and dropped. An
    /// error is returned in place of the token that could not be read, and
    /// ends the sequence: after it every call returns `None`. A token does
    /// not begin before the position at which the call found the lexer, and
    /// it ends at the position at which the call leaves it.
    pub fn next(&mut self) -> (r: Option<Result<Token, Error>>)
        ensures
            answer_view(r) == old(self)@.answer(),
            final(self)@ == old(self)@.after(),
            old(self)@.stream.reaches(final(self)@.stream),
            r matches Some(Ok(token)) ==> {
                &&& old(self)@.stream.position.le(token@.span.start)
                &&& token@.span.start.le(token@.span.end)
                &&& token@.span.end == final(self)@.stream.position
            },
            !(r matches Some(Ok(_))) ==> final(self)@.stream.exhausted(),
    {
        loop
            invariant
                self.goal_symbol == old(self).goal_symbol,
                lex(old(self)@.stream, old(self)@.goal) == lex(self.cursor@, self.goal_symbol),
            decreases self.cursor@.chars.len(),
        {
            let start = self.cursor.pos();
            proof {
                lemma_lex_leads_on(old(self)@.stream, old(self)@.goal);
                lemma_take_reaches(self.cursor@);
                lemma_take_reaches(take(self.cursor@).1);
                if take(self.cursor@).1.chars.len() > 0 {
                    lemma_line_comment_reaches(take(self.cursor@).1.advance());
                    lemma_block_comment_reaches(take(self.cursor@).1.advance(), false);
                }
            }
            match read(&mut self.cursor) {
                Err(Fault::End) => {
                    return None;
                },
                Err(_) => {
                    return Some(Err(Error::invalid_data()));
                },
                Ok(c) => {
                    if Lexer::is_whitespace(c) {
                    } else if c == '/' && self.cursor.next_if('/') {
                        skip_line_comment(&mut self.cursor);
                    } else if c == '/' && self.cursor.next_if('*') {
                        match skip_block_comment(&mut self.cursor, start) {
                            Ok(_) => {},
                            Err(e) => {
                                self.cursor.halt();
                                return Some(Err(e));
                            },
                        }
                    } else {
                        let r = self.token(c, start);
                        match r {
                            Ok(token) => {
                                return Some(Ok(token));
                            },
                            Err(e) => {
                                self.cursor.halt();
                                return Some(Err(e));
                            },
                        }
                    }
                },
            }
        }
    }
}

} // verus!
