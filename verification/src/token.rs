//! Tokens: what the lexer hands out.

use vstd::prelude::*;
use crate::error::{Error, ErrorView};
use crate::keyword::Keyword;
use crate::position::{Span, SpanView};
use crate::punctuator::Punctuator;

verus! {

/// Which part of a template literal a token holds. A template with
/// substitutions comes as a head, any number of middles and a tail, with the
/// tokens of each substituted expression between them.
#[derive(Clone, Copy, Debug, PartialEq, Eq, Structural)]
pub enum TemplatePart {
    /// A whole template without substitution: from a backquote to a backquote.
    Whole,
    /// From the opening backquote to the first `${`.
    Head,
    /// From the `}` that closes one substitution to the `${` that opens the next.
    Middle,
    /// From the `}` that closes the last substitution to the closing backquote.
    Tail,
}

/// The kind of a token as a mathematical value: texts are sequences of characters.
pub enum KindView {
    LineTerminator,
    Identifier(Seq<char>),
    Keyword(Keyword),
    BooleanLiteral(bool),
    NullLiteral,
    NumericLiteral(Seq<char>),
    StringLiteral(Seq<char>),
    TemplateLiteral(TemplatePart, Seq<char>),
    RegularExpressionLiteral(Seq<char>, Seq<char>),
    Punctuator(Punctuator),
}

/// The kind of a token, with what it carries.
#[derive(Clone, Debug, PartialEq, Eq)]
pub enum TokenKind {
    /// The end of a line: one line terminator, or a carriage return and the
    /// line feed behind it.
    LineTerminator,
    /// A name that is no reserved word.
    Identifier(String),
    /// A reserved word.
    Keyword(Keyword),
    /// `true` or `false`.
    BooleanLiteral(bool),
    /// `null`.
    NullLiteral,
    /// A number, with its digits as the source writes them.
    NumericLiteral(String),
    /// A string, with its text after the escapes are resolved.
    StringLiteral(String),
    /// A part of a template, with its text after the escapes are resolved.
    TemplateLiteral(TemplatePart, String),
    /// A regular expression: the body between the slashes as the source
    /// writes it, and the flags behind the closing slash.
    RegularExpressionLiteral(String, String),
    /// An operator or delimiter.
    Punctuator(Punctuator),
}

impl View for TokenKind {
    type V = KindView;

    open spec fn view(&self) -> KindView {
        match self {
            TokenKind::LineTerminator => KindView::LineTerminator,
            TokenKind::Identifier(name) => KindView::Identifier(name@),
            TokenKind::Keyword(word) => KindView::Keyword(*word),
            TokenKind::BooleanLiteral(value) => KindView::BooleanLiteral(*value),
            TokenKind::NullLiteral => KindView::NullLiteral,
            TokenKind::NumericLiteral(digits) => KindView::NumericLiteral(digits@),
            TokenKind::StringLiteral(text) => KindView::StringLiteral(text@),
            TokenKind::TemplateLiteral(part, text) => KindView::TemplateLiteral(*part, text@),
            TokenKind::RegularExpressionLiteral(body, flags) => KindView::RegularExpressionLiteral(
                body@,
                flags@,
            ),
            TokenKind::Punctuator(p) => KindView::Punctuator(*p),
        }
    }
}

/// A token as a mathematical value.
pub struct TokenView {
    pub kind: KindView,
    pub span: SpanView,
}

/// A token: its kind and the part of the source that it occupies.
#[derive(Clone, Debug, PartialEq, Eq)]
pub struct Token {
    /// What the token is.
    pub kind: TokenKind,
    /// Where the token stands, from its first character to behind its last.
    pub span: Span,
}

impl View for Token {
    type V = TokenView;

    open spec fn view(&self) -> TokenView {
        TokenView { kind: self.kind@, span: self.span@ }
    }
}

impl Token {
    /// Makes the token of kind `kind` that occupies `span`.
    pub fn new(kind: TokenKind, span: Span) -> (token: Token)
        ensures
            token@ == (TokenView { kind: kind@, span: span@ }),
    {
        Token { kind, span }
    }

    /// What the token is.
    pub fn kind(&self) -> (kind: &TokenKind)
        ensures
            kind@ == self@.kind,
    {
        &self.kind
    }

    /// Where the token stands.
    pub fn span(&self) -> (span: Span)
        ensures
            span@ == self@.span,
    {
        self.span
    }
}

/// The mathematical value of what a scanner returns.
pub open spec fn scanned_view(r: Result<Token, Error>) -> Result<TokenView, ErrorView> {
    match r {
        Ok(token) => Ok(token@),
        Err(error) => Err(error@),
    }
}

/// The mathematical value of the answer to one request for a token.
pub open spec fn answer_view(r: Option<Result<Token, Error>>) -> Option<
    Result<TokenView, ErrorView>,
> {
    match r {
        Some(scanned) => Some(scanned_view(scanned)),
        None => None,
    }
}

} // verus!
