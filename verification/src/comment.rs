//! Comments. They are read and dropped: no token stands for them.

use vstd::prelude::*;
use crate::classify::{is_line_terminator, line_terminator};
use crate::cursor::Cursor;
use crate::error::Error;
use crate::position::Position;
use crate::scan::{error_of, fault_error, lemma_take_reaches, read, take, Fault};
use crate::stream::Stream;

verus! {

/// The text of the error for a block comment that the source ends in.
pub open spec fn unterminated_comment() -> Seq<char> {
    "unterminated comment"@
}

/// The stream behind a line comment whose text begins at `s`: the comment
/// runs through the next line terminator, which belongs to it, or to the
/// end of what can be read.
pub open spec fn line_comment(s: Stream) -> Stream
    decreases s.chars.len(),
{
    if s.chars.len() == 0 {
        s
    } else if line_terminator(s.chars[0]) {
        s.advance()
    } else {
        line_comment(s.advance())
    }
}

/// The stream behind a block comment whose text begins at `s`, or the
/// reason why it is not closed; `star` says whether the character before
/// `s` was an asterisk of the comment's text. The comment runs up to the
/// first `*/`.
pub open spec fn block_comment(s: Stream, star: bool) -> (Result<(), Fault>, Stream)
    decreases s.chars.len(),
{
    let (r, t) = take(s);
    match r {
        Err(fault) => (Err(fault), t),
        Ok(c) => if star && c == '/' {
            (Ok(()), t)
        } else {
            block_comment(t, c == '*')
        },
    }
}

/// Reading a line comment leads on.
pub proof fn lemma_line_comment_reaches(s: Stream)
    ensures
        s.reaches(line_comment(s)),
        line_comment(s).broken == s.broken,
    decreases s.chars.len(),
{
    if s.chars.len() > 0 && !line_terminator(s.chars[0]) {
        lemma_line_comment_reaches(s.advance());
    }
}

/// Reading a block comment leads on.
pub proof fn lemma_block_comment_reaches(s: Stream, star: bool)
    ensures
        s.reaches(block_comment(s, star).1),
        block_comment(s, star).0 != Err::<(), Fault>(Fault::Invalid),
        block_comment(s, star).0 == Err::<(), Fault>(Fault::Broken) ==> s.broken,
    decreases s.chars.len(),
{
    lemma_take_reaches(s);
    let (r, t) = take(s);
    if let Ok(c) = r {
        if !(star && c == '/') {
            lemma_block_comment_reaches(t, c == '*');
        }
    }
}

/// Reads a line comment whose `//` was read just before, through the line
/// terminator that ends it.
pub fn skip_line_comment(cursor: &mut Cursor)
    ensures
        final(cursor)@ == line_comment(old(cursor)@),
{
    loop
        invariant
            line_comment(old(cursor)@) == line_comment(cursor@),
        decreases cursor@.chars.len(),
    {
        match cursor.peek() {
            Some(c) => {
                let _ = cursor.next();
                if is_line_terminator(c) {
                    return ;
                }
            },
            None => {
                return ;
            },
        }
    }
}

/// Reads a block comment whose `/*` was read just before and began at
/// `start`. A comment that the source ends in is a syntax error at `start`.
pub fn skip_block_comment(cursor: &mut Cursor, start: Position) -> (r: Result<(), Error>)
    ensures
        final(cursor)@ == block_comment(old(cursor)@, false).1,
        match block_comment(old(cursor)@, false).0 {
            Ok(_) => r is Ok,
            Err(fault) => r matches Err(e) && e@ == fault_error(
                fault,
                unterminated_comment(),
                start@,
                start@,
            ),
        },
{
    let mut star = false;
    loop
        invariant
            block_comment(old(cursor)@, false) == block_comment(cursor@, star),
        decreases cursor@.chars.len(),
    {
        proof {
            lemma_take_reaches(cursor@);
        }
        match read(cursor) {
            Err(fault) => {
                return Err(error_of(fault, "unterminated comment", start, start));
            },
            Ok(c) => {
                if star && c == '/' {
                    return Ok(());
                }
                star = c == '*';
            },
        }
    }
}

} // verus!
