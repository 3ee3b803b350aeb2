//! What the scanners share: reading one character with the reason where none
//! comes, and the shape of a scanner's result.

use vstd::prelude::*;
use crate::cursor::Cursor;
use crate::error::{invalid_data, Error, ErrorView};
use crate::position::{Position, PositionView, SpanView};
use crate::stream::Stream;
use crate::token::{scanned_view, Token, TokenView};

verus! {

/// Why a scanner could not go on.
#[derive(Clone, Copy, Debug, PartialEq, Eq, Structural)]
pub enum Fault {
    /// The source ended.
    End,
    /// The source bytes are not well-formed UTF-8.
    Broken,
    /// An escape sequence is not one of the language.
    Invalid,
}

/// One read from the stream: the next character and the stream behind it,
/// or the reason why there is none and the stream that is left.
pub open spec fn take(s: Stream) -> (Result<char, Fault>, Stream) {
    if s.chars.len() > 0 {
        (Ok(s.chars[0]), s.advance())
    } else if s.broken {
        (Err(Fault::Broken), s.halt())
    } else {
        (Err(Fault::End), s)
    }
}

/// Reads one character, or says why none comes.
pub fn read(cursor: &mut Cursor) -> (r: Result<char, Fault>)
    ensures
        (r, final(cursor)@) == take(old(cursor)@),
{
    match cursor.next() {
        Some(Ok(c)) => Ok(c),
        Some(Err(_)) => Err(Fault::Broken),
        None => Err(Fault::End),
    }
}

/// A read leads on: where a character comes the stream behind it is
/// shorter, and the position never goes back. A read fails for malformed
/// bytes only where the stream is broken, and never for an invalid escape.
pub proof fn lemma_take_reaches(s: Stream)
    ensures
        s.reaches(take(s).1),
        take(s).0 is Ok ==> take(s).1.chars.len() < s.chars.len(),
        take(s).0 is Ok <==> s.chars.len() > 0,
        take(s).0 == Err::<char, Fault>(Fault::Broken) ==> s.broken,
        take(s).0 != Err::<char, Fault>(Fault::Invalid),
{
}

/// The error that a fault inside a literal becomes. The end of the source
/// is reported with the text `unterminated` at `start`, where the literal
/// begins; an escape sequence that is none at `slash`, where its backslash
/// stands.
pub open spec fn fault_error(
    fault: Fault,
    unterminated: Seq<char>,
    start: PositionView,
    slash: PositionView,
) -> ErrorView {
    match fault {
        Fault::End => ErrorView::Syntax(unterminated, start),
        Fault::Broken => invalid_data(),
        Fault::Invalid => ErrorView::Syntax("invalid escape sequence"@, slash),
    }
}

/// Makes the error that a fault inside a literal becomes.
pub fn error_of(fault: Fault, unterminated: &str, start: Position, slash: Position) -> (e: Error)
    ensures
        e@ == fault_error(fault, unterminated@, start@, slash@),
{
    match fault {
        Fault::End => Error::syntax(unterminated, start),
        Fault::Broken => Error::invalid_data(),
        Fault::Invalid => Error::syntax("invalid escape sequence", slash),
    }
}

/// What the model of a scanner yields: the token or the error, and the
/// stream that the scanner leaves.
pub struct Scanned {
    pub output: Result<TokenView, ErrorView>,
    pub rest: Stream,
}

impl Scanned {
    /// What every scanner keeps to: it leads on from `s`, a token that it
    /// yields spans from `start` to the position that it leaves, and it
    /// fails to read the source only where the source is broken.
    pub open spec fn orderly(self, s: Stream, start: PositionView) -> bool {
        &&& s.reaches(self.rest)
        &&& self.output matches Ok(token) ==> token.span == (SpanView {
            start: start,
            end: self.rest.position,
        })
        &&& self.output matches Err(ErrorView::Io(_)) ==> s.broken
    }
}

/// A scanner of one kind of token. The first character of the token was
/// read before the scanner is called, and `start` is where it stood.
pub trait Tokenizer {
    /// The model: what the scanner yields on the stream `s` for a token that began at `start`.
    spec fn scan(&self, s: Stream, start: PositionView) -> Scanned;

    /// Reads the rest of the token, or fails with the error that the model gives.
    fn lex(&self, cursor: &mut Cursor, start: Position) -> (r: Result<Token, Error>)
        requires
            start@.le(old(cursor)@.position),
        ensures
            scanned_view(r) == self.scan(old(cursor)@, start@).output,
            final(cursor)@ == self.scan(old(cursor)@, start@).rest,
    ;
}

} // verus!
