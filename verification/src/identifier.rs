//! Identifiers, reserved words and the literals that are spelled as words.

use vstd::prelude::*;
use crate::classify::{identifier_part, is_identifier_part};
use crate::cursor::Cursor;
use crate::error::Error;
use crate::keyword::{spells, Keyword};
use crate::position::{Position, PositionView, Span, SpanView};
use crate::scan::{Scanned, Tokenizer};
use crate::stream::Stream;
use crate::token::{KindView, Token, TokenKind, TokenView};

verus! {

/// The longest run of identifier characters at the start of `s`, appended
/// to `text`, and the stream behind the run.
pub open spec fn word_run(s: Stream, text: Seq<char>) -> (Seq<char>, Stream)
    decreases s.chars.len(),
{
    if s.chars.len() > 0 && identifier_part(s.chars[0]) {
        word_run(s.advance(), text.push(s.chars[0]))
    } else {
        (text, s)
    }
}

/// What a word is: `true` and `false` are the boolean literals, `null` is
/// the null literal, a reserved word is a keyword, and any other word is an
/// identifier.
pub open spec fn word_kind(text: Seq<char>) -> KindView {
    if text == "true"@ {
        KindView::BooleanLiteral(true)
    } else if text == "false"@ {
        KindView::BooleanLiteral(false)
    } else if text == "null"@ {
        KindView::NullLiteral
    } else if exists|w: Keyword| w.text() == text {
        KindView::Keyword(choose|w: Keyword| w.text() == text)
    } else {
        KindView::Identifier(text)
    }
}

/// Reading a run of identifier characters leads on, keeps what was read
/// before, and stops before a character that continues no identifier.
pub proof fn lemma_word_run_reaches(s: Stream, text: Seq<char>)
    ensures
        s.reaches(word_run(s, text).1),
        word_run(s, text).1.broken == s.broken,
        word_run(s, text).0.len() >= text.len(),
        word_run(s, text).0.subrange(0, text.len() as int) == text,
        !(word_run(s, text).1.peek() is Some && identifier_part(word_run(s, text).1.peek()->0)),
    decreases s.chars.len(),
{
    if s.chars.len() > 0 && identifier_part(s.chars[0]) {
        lemma_word_run_reaches(s.advance(), text.push(s.chars[0]));
    }
}

/// Reads the longest run of identifier characters and appends it to `text`.
pub fn read_word(cursor: &mut Cursor, text: &mut String)
    ensures
        (final(text)@, final(cursor)@) == word_run(old(cursor)@, old(text)@),
{
    loop
        invariant
            word_run(old(cursor)@, old(text)@) == word_run(cursor@, text@),
        decreases cursor@.chars.len(),
    {
        match cursor.peek() {
            None => {
                return ;
            },
            Some(c) => {
                if !is_identifier_part(c) {
                    return ;
                }
                let _ = cursor.next();
                text.push(c);
            },
        }
    }
}

/// What the word `text` is.
pub fn classify_word(text: String) -> (kind: TokenKind)
    ensures
        kind@ == word_kind(text@),
{
    if spells(text.as_str(), "true") {
        TokenKind::BooleanLiteral(true)
    } else if spells(text.as_str(), "false") {
        TokenKind::BooleanLiteral(false)
    } else if spells(text.as_str(), "null") {
        TokenKind::NullLiteral
    } else {
        match Keyword::from_text(text.as_str()) {
            Some(word) => {
                assert(word.text() == text@);
                TokenKind::Keyword(word)
            },
            None => TokenKind::Identifier(text),
        }
    }
}

/// The scanner of words: identifiers, keywords, `true`, `false` and `null`.
#[derive(Clone, Copy, Debug)]
pub struct Identifier {
    /// The character that began the word.
    pub first: char,
}

impl Identifier {
    /// The scanner for a word that `first` began.
    pub fn new(first: char) -> (scanner: Identifier)
        ensures
            scanner.first == first,
    {
        Identifier { first }
    }
}

impl Tokenizer for Identifier {
    open spec fn scan(&self, s: Stream, start: PositionView) -> Scanned {
        let (text, t) = word_run(s, seq![self.first]);
        Scanned {
            output: Ok(
                TokenView {
                    kind: word_kind(text),
                    span: SpanView { start: start, end: t.position },
                },
            ),
            rest: t,
        }
    }

    fn lex(&self, cursor: &mut Cursor, start: Position) -> (r: Result<Token, Error>) {
        let mut text = String::new();
        text.push(self.first);
        proof {
            lemma_word_run_reaches(cursor@, text@);
        }
        read_word(cursor, &mut text);
        Ok(Token::new(classify_word(text), Span::new(start, cursor.pos())))
    }
}

} // verus!
