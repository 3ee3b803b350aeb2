//! Source positions and the spans between them.

use vstd::prelude::*;

verus! {

/// A place in the source as a mathematical pair: lines and columns count from one.
pub struct PositionView {
    pub line: nat,
    pub column: nat,
}

impl PositionView {
    /// The place before the first character of a source.
    pub open spec fn origin() -> PositionView {
        PositionView { line: 1, column: 1 }
    }

    /// `self` is not after `other`: an earlier line, or the same line and no later column.
    pub open spec fn le(self, other: PositionView) -> bool {
        self.line < other.line || (self.line == other.line && self.column <= other.column)
    }

    /// The place one column to the right.
    pub open spec fn next_column(self) -> PositionView {
        PositionView { line: self.line, column: self.column + 1 }
    }

    /// The first column of the following line.
    pub open spec fn next_line(self) -> PositionView {
        PositionView { line: self.line + 1, column: 1 }
    }
}

/// A line and a column in the source. The cursor counts both from one.
#[derive(Clone, Copy, Debug, PartialEq, Eq, Structural)]
pub struct Position {
    line: u64,
    column: u64,
}

impl View for Position {
    type V = PositionView;

    closed spec fn view(&self) -> PositionView {
        PositionView { line: self.line as nat, column: self.column as nat }
    }
}

impl Position {
    /// Makes the position at `line` and `column`.
    pub fn new(line: u64, column: u64) -> (p: Position)
        ensures
            p@ == (PositionView { line: line as nat, column: column as nat }),
    {
        Position { line, column }
    }

    /// The line.
    pub fn line_number(&self) -> (n: u64)
        ensures
            n == self@.line,
    {
        self.line
    }

    /// The column.
    pub fn column_number(&self) -> (n: u64)
        ensures
            n == self@.column,
    {
        self.column
    }

    /// Whether `self` is not after `other`.
    pub fn le(&self, other: &Position) -> (b: bool)
        ensures
            b == self@.le(other@),
    {
        self.line < other.line || (self.line == other.line && self.column <= other.column)
    }
}

/// A span as a mathematical pair of places.
pub struct SpanView {
    pub start: PositionView,
    pub end: PositionView,
}

/// The half-open range of source that a token occupies; it never ends before it starts.
#[derive(Clone, Copy, Debug, PartialEq, Eq)]
pub struct Span {
    start: Position,
    end: Position,
}

impl View for Span {
    type V = SpanView;

    closed spec fn view(&self) -> SpanView {
        SpanView { start: self.start@, end: self.end@ }
    }
}

impl Span {
    #[verifier::type_invariant]
    spec fn ordered(self) -> bool {
        self.start@.le(self.end@)
    }

    /// Makes the span from `start` up to `end`.
    pub fn new(start: Position, end: Position) -> (s: Span)
        requires
            start@.le(end@),
        ensures
            s@ == (SpanView { start: start@, end: end@ }),
    {
        Span { start, end }
    }

    /// Where the span starts.
    pub fn start(&self) -> (p: Position)
        ensures
            p@ == self@.start,
            self@.start.le(self@.end),
    {
        proof {
            use_type_invariant(self);
        }
        self.start
    }

    /// Where the span ends.
    pub fn end(&self) -> (p: Position)
        ensures
            p@ == self@.end,
            self@.start.le(self@.end),
    {
        proof {
            use_type_invariant(self);
        }
        self.end
    }
}

} // verus!
