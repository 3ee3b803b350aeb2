//! The cursor: the one owner of the source bytes, which decodes them
//! character by character and keeps the position.

use vstd::prelude::*;
use vstd::slice::slice_to_vec;
use vstd::utf8::*;
use crate::classify::is_line_terminator;
use crate::decode::{decode_at, lemma_scalars_empty, lemma_scalars_step, malformed, scalars};
use crate::error::{invalid_data, Error};
use crate::position::{Position, PositionView};
use crate::stream::Stream;

verus! {

/// Reads characters from UTF-8 source bytes with one character of lookahead.
#[derive(Debug)]
pub struct Cursor {
    source: Vec<u8>,
    offset: usize,
    line: u64,
    column: u64,
}

impl View for Cursor {
    type V = Stream;

    closed spec fn view(&self) -> Stream {
        Stream {
            chars: scalars(self.source@.skip(self.offset as int)),
            broken: malformed(self.source@.skip(self.offset as int)),
            position: PositionView { line: self.line as nat, column: self.column as nat },
        }
    }
}

/// A line feed decodes from bytes exactly when the first byte is `0x0A`.
proof fn lemma_line_feed_first(bytes: Seq<u8>)
    requires
        bytes.len() > 0,
    ensures
        (scalars(bytes).len() > 0 && scalars(bytes)[0] == '\n') <==> bytes[0] == 0x0Au8,
{
    let b0 = bytes[0];
    assert(b0 <= 0x7f ==> (b0 & 0x7f) == b0) by (bit_vector);
    if valid_first_scalar(bytes) {
        lemma_scalars_step(bytes);
        let code = decode_first_scalar(bytes);
        if is_leading_byte_width_2(b0) {
            let b1 = bytes[1];
            assert(((((b0 & 0x1F) as u32) << 6) | ((b1 & 0x3f) as u32)) <= 0x7ff) by (bit_vector);
        } else if is_leading_byte_width_3(b0) {
            let b1 = bytes[1];
            let b2 = bytes[2];
            assert(((((b0 & 0x0F) as u32) << 12) | (((b1 & 0x3f) as u32) << 6) | ((b2
                & 0x3f) as u32)) <= 0xffff) by (bit_vector);
        }
    }
}

impl Cursor {
    #[verifier::type_invariant]
    spec fn inv(self) -> bool {
        &&& self.offset <= self.source@.len() < usize::MAX
        &&& 1 <= self.line <= self.offset + 1
        &&& 1 <= self.column <= self.offset + 1
    }

    /// Makes a cursor before the first byte of `source`, at line 1, column 1.
    /// The source is shorter than `usize::MAX` bytes, so that every line and
    /// column can be counted.
    pub fn new(source: &[u8]) -> (cursor: Cursor)
        requires
            source@.len() < usize::MAX,
        ensures
            cursor@ == Stream::of_bytes(source@),
    {
        let cursor = Cursor { source: slice_to_vec(source), offset: 0, line: 1, column: 1 };
        assert(cursor.source@.skip(0) =~= source@);
        cursor
    }

    /// The position of the next character: after each character that was
    /// read, line 1 and column 1 before the first.
    pub fn pos(&self) -> (p: Position)
        ensures
            p@ == self@.position,
    {
        Position::new(self.line, self.column)
    }

    /// The next character without reading it; `None` at the end of the
    /// source and where the next bytes do not decode.
    pub fn peek(&self) -> (c: Option<char>)
        ensures
            c == self@.peek(),
    {
        proof {
            use_type_invariant(self);
            let tail = self.source@.skip(self.offset as int);
            lemma_scalars_empty(tail);
            if tail.len() > 0 && valid_first_scalar(tail) {
                lemma_scalars_step(tail);
            }
        }
        if self.offset >= self.source.len() {
            return None;
        }
        match decode_at(self.source.as_slice(), self.offset) {
            Some((c, _)) => Some(c),
            None => None,
        }
    }

    /// Stops the cursor for good: nothing more will be read.
    pub fn halt(&mut self)
        ensures
            final(self)@ == old(self)@.halt(),
    {
        proof {
            use_type_invariant(&*self);
        }
        self.offset = self.source.len();
    }

    /// Reads the next character if it is `expected`, and says whether it did.
    pub fn next_if(&mut self, expected: char) -> (taken: bool)
        ensures
            taken == (old(self)@.peek() == Some(expected)),
            final(self)@ == if taken {
                old(self)@.advance()
            } else {
                old(self)@
            },
    {
        match self.peek() {
            Some(c) => {
                if c == expected {
                    let _ = self.next();
                    true
                } else {
                    false
                }
            },
            None => false,
        }
    }

    /// Reads one character and moves the position behind it. A carriage
    /// return takes a line feed that follows it directly with it. At the end
    /// of the source the result is `None`. Where the next bytes are not
    /// well-formed UTF-8 the result is the error, and the cursor stops for
    /// good: it does not look for a place to go on from.
    pub fn next(&mut self) -> (r: Option<Result<char, Error>>)
        ensures
            old(self)@.chars.len() > 0 ==> r == Some(Ok::<char, Error>(old(self)@.chars[0]))
                && final(self)@ == old(self)@.advance(),
            old(self)@.chars.len() == 0 && old(self)@.broken ==> final(self)@ == old(self)@.halt()
                && (r matches Some(Err(e)) && e@ == invalid_data()),
            old(self)@.exhausted() ==> r is None && final(self)@ == old(self)@,
            old(self)@.reaches(final(self)@),
    {
        proof {
            use_type_invariant(&*self);
        }
        let ghost before = self@;
        let ghost tail = self.source@.skip(self.offset as int);
        proof {
            lemma_scalars_empty(tail);
        }
        if self.offset >= self.source.len() {
            return None;
        }
        match decode_at(self.source.as_slice(), self.offset) {
            None => {
                self.halt();
                Some(Err(Error::invalid_data()))
            },
            Some((c, width)) => {
                proof {
                    lemma_scalars_step(tail);
                    assert(pop_first_scalar(tail) =~= self.source@.skip(self.offset + width));
                }
                self.offset = self.offset + width;
                let ghost behind = self.source@.skip(self.offset as int);
                if c == '\r' && self.offset < self.source.len() && self.source[self.offset]
                    == 0x0A {
                    proof {
                        lemma_line_feed_first(behind);
                        lemma_scalars_step(behind);
                        assert(pop_first_scalar(behind) =~= self.source@.skip(self.offset + 1));
                        assert(before.chars.skip(2) =~= before.chars.skip(1).skip(1));
                    }
                    self.offset = self.offset + 1;
                } else {
                    proof {
                        if behind.len() > 0 {
                            lemma_line_feed_first(behind);
                        } else {
                            lemma_scalars_empty(behind);
                        }
                    }
                }
                if is_line_terminator(c) {
                    self.line = self.line + 1;
                    self.column = 1;
                } else {
                    self.column = self.column + 1;
                }
                Some(Ok(c))
            },
        }
    }
}

} // verus!
