//! What a request for a token can fail with.

use vstd::prelude::*;
use vstd::string::*;
use crate::position::{Position, PositionView};

verus! {

/// An error as a mathematical value.
pub enum ErrorView {
    Io(Seq<char>),
    Syntax(Seq<char>, PositionView),
}

/// An error met while reading tokens. It is a value returned in place of a
/// token, and nothing of the token that was being read is kept.
#[derive(Clone, Debug, PartialEq, Eq)]
pub enum Error {
    /// The source could not be read or decoded; the text says why.
    Io(String),
    /// The source holds something that is no token: the text describes it,
    /// and the position is the place to show to the author of the source.
    Syntax(String, Position),
}

impl View for Error {
    type V = ErrorView;

    open spec fn view(&self) -> ErrorView {
        match self {
            Error::Io(cause) => ErrorView::Io(cause@),
            Error::Syntax(message, position) => ErrorView::Syntax(message@, position@),
        }
    }
}

/// The cause given when the source bytes are not well-formed UTF-8.
pub open spec fn invalid_data() -> ErrorView {
    ErrorView::Io("stream did not contain valid UTF-8"@)
}

/// The text of the error for a character that begins no token.
pub open spec fn unexpected_character(c: char) -> Seq<char> {
    "unexpected character '"@.push(c).push('\'')
}

impl Error {
    /// The error for source bytes that are not well-formed UTF-8.
    pub fn invalid_data() -> (e: Error)
        ensures
            e@ == invalid_data(),
    {
        Error::Io(String::from_str("stream did not contain valid UTF-8"))
    }

    /// A syntax error with the text `message`, reported at `position`.
    pub fn syntax(message: &str, position: Position) -> (e: Error)
        ensures
            e@ == ErrorView::Syntax(message@, position@),
    {
        Error::Syntax(String::from_str(message), position)
    }

    /// The syntax error for the character `c`, which begins no token, met at `position`.
    pub fn unexpected(c: char, position: Position) -> (e: Error)
        ensures
            e@ == ErrorView::Syntax(unexpected_character(c), position@),
    {
        let mut message = String::from_str("unexpected character '");
        message.push(c);
        message.push('\'');
        Error::Syntax(message, position)
    }

    /// The text that describes the error.
    pub fn message(&self) -> (m: &String)
        ensures
            self@ matches ErrorView::Io(t) ==> m@ == t,
            self@ matches ErrorView::Syntax(t, _) ==> m@ == t,
    {
        match self {
            Error::Io(cause) => cause,
            Error::Syntax(message, _) => message,
        }
    }
}

} // verus!
