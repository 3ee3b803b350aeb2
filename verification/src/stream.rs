//! The mathematical model of the input that is still to be read.

use vstd::prelude::*;
use crate::classify::line_terminator;
use crate::decode::{malformed, scalars};
use crate::position::PositionView;

verus! {

/// The unread input as the scanners see it: the characters that will be
/// read, whether the bytes behind them are malformed, and the place of the
/// first of them.
pub struct Stream {
    /// The characters that decode from the unread bytes.
    pub chars: Seq<char>,
    /// Whether a byte sequence that is not well-formed UTF-8 follows `chars`.
    pub broken: bool,
    /// The position of the next character.
    pub position: PositionView,
}

impl Stream {
    /// The stream over a whole source, before anything is read.
    pub open spec fn of_bytes(bytes: Seq<u8>) -> Stream {
        Stream { chars: scalars(bytes), broken: malformed(bytes), position: PositionView::origin() }
    }

    /// The stream over a source that is given as its characters.
    pub open spec fn of_text(chars: Seq<char>) -> Stream {
        Stream { chars: chars, broken: false, position: PositionView::origin() }
    }

    /// The next character, if one decodes.
    pub open spec fn peek(self) -> Option<char> {
        if self.chars.len() > 0 {
            Some(self.chars[0])
        } else {
            None
        }
    }

    /// How many characters one read takes: a carriage return takes a line
    /// feed that follows it directly with it, so that the pair is one line
    /// terminator.
    pub open spec fn unit(self) -> nat {
        if self.chars.len() > 1 && self.chars[0] == '\r' && self.chars[1] == '\n' {
            2
        } else {
            1
        }
    }

    /// The stream after one read of a character.
    pub open spec fn advance(self) -> Stream
        recommends
            self.chars.len() > 0,
    {
        Stream {
            chars: self.chars.skip(self.unit() as int),
            broken: self.broken,
            position: if line_terminator(self.chars[0]) {
                self.position.next_line()
            } else {
                self.position.next_column()
            },
        }
    }

    /// The stream `columns` characters further on the same line.
    pub open spec fn shifted(self, columns: nat) -> Stream {
        Stream {
            chars: self.chars.skip(columns as int),
            broken: self.broken,
            position: PositionView {
                line: self.position.line,
                column: self.position.column + columns,
            },
        }
    }

    /// The stream that gives nothing more: what is left when reading has stopped for good.
    pub open spec fn halt(self) -> Stream {
        Stream { chars: Seq::empty(), broken: false, position: self.position }
    }

    /// `later` is this stream or one that reading leads to: it holds no more
    /// characters, its position is not before this one's, and it is broken
    /// only if this one is.
    pub open spec fn reaches(self, later: Stream) -> bool {
        &&& later.chars.len() <= self.chars.len()
        &&& self.position.le(later.position)
        &&& later.broken ==> self.broken
    }

    /// Nothing is left to read and nothing is malformed.
    pub open spec fn exhausted(self) -> bool {
        self.chars.len() == 0 && !self.broken
    }
}

} // verus!
