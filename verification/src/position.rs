//! Positions in a buffer, and the spans between them.

use vstd::prelude::*;

verus! {

/// A location in a buffer: a zero-based line, and an offset into that line,
/// counted in the buffer's own character unit.
#[derive(Clone, Copy, Debug, PartialEq, Eq, Structural)]
pub struct Position {
    pub line: usize,
    pub offset: usize,
}

impl Position {
    /// Lexicographic order on (line, offset): `self` lies strictly before `other`.
    pub open spec fn lt(self, other: Position) -> bool {
        self.line < other.line || (self.line == other.line && self.offset < other.offset)
    }

    /// `self` lies before `other`, or is `other`.
    pub open spec fn le(self, other: Position) -> bool {
        self.lt(other) || self == other
    }

    /// The earlier of two positions.
    pub open spec fn min(self, other: Position) -> Position {
        if other.lt(self) { other } else { self }
    }

    /// The later of two positions.
    pub open spec fn max(self, other: Position) -> Position {
        if other.lt(self) { self } else { other }
    }

    /// The same position, unless it lies on the highest line that can be
    /// numbered: then the end of the line before. No buffer has a line of that
    /// number, and a deletion that ends on it would count past the numbers.
    pub open spec fn spec_capped(&self) -> Position {
        if self.line == usize::MAX {
            Position { line: (usize::MAX - 1) as usize, offset: usize::MAX }
        } else {
            *self
        }
    }

    /// The same position, unless it lies on the highest line that can be
    /// numbered: then the end of the line before.
    #[verifier::when_used_as_spec(spec_capped)]
    pub fn capped(&self) -> (position: Position)
        ensures
            position == self.spec_capped(),
            position.line < usize::MAX,
    {
        if self.line == usize::MAX {
            Position { line: usize::MAX - 1, offset: usize::MAX }
        } else {
            *self
        }
    }

    /// The position at the start of the buffer.
    pub fn new() -> (position: Position)
        ensures
            position.line == 0,
            position.offset == 0,
    {
        Position { line: 0, offset: 0 }
    }

    /// Whether `self` lies strictly before `other`.
    pub fn is_before(&self, other: &Position) -> (before: bool)
        ensures
            before == self.lt(*other),
    {
        self.line < other.line || (self.line == other.line && self.offset < other.offset)
    }
}

/// A span of a buffer between two positions: from its start up to its end,
/// which never lies before the start.
#[derive(Clone, Copy, Debug, PartialEq, Eq, Structural)]
pub struct Range {
    start: Position,
    end: Position,
}

impl Range {
    #[verifier::type_invariant]
    spec fn ordered(self) -> bool {
        self.start.le(self.end)
    }

    /// Where the span starts.
    pub closed spec fn spec_start(&self) -> Position {
        self.start
    }

    /// Where the span ends.
    pub closed spec fn spec_end(&self) -> Position {
        self.end
    }

    /// The span between two positions, whichever of them comes first.
    pub closed spec fn spanning(a: Position, b: Position) -> Range {
        Range { start: a.min(b), end: a.max(b) }
    }

    /// The span between two positions starts at the earlier and ends at the
    /// later of them.
    pub broadcast proof fn lemma_spanning(a: Position, b: Position)
        ensures
            (#[trigger] Range::spanning(a, b)).spec_start() == a.min(b),
            Range::spanning(a, b).spec_end() == a.max(b),
            Range::spanning(a, b) == Range::spanning(b, a),
    {
    }

    /// The same span with its ends kept off the highest line that can be
    /// numbered.
    pub closed spec fn spec_capped(&self) -> Range {
        Range { start: self.start.capped(), end: self.end.capped() }
    }

    /// The ends of a capped span are the capped ends of the span. A span
    /// that ends below the highest line that can be numbered is left as it is.
    pub broadcast proof fn lemma_capped(self)
        ensures
            (#[trigger] self.spec_capped()).spec_start() == self.spec_start().capped(),
            self.spec_capped().spec_end() == self.spec_end().capped(),
            self.spec_start().line < usize::MAX && self.spec_end().line < usize::MAX
                ==> self.spec_capped() == self,
    {
    }

    /// The same span with its ends kept off the highest line that can be
    /// numbered: a span that a buffer can be asked to delete.
    #[verifier::when_used_as_spec(spec_capped)]
    pub fn capped(&self) -> (range: Range)
        ensures
            range == self.spec_capped(),
            range.start() == self.spec_start().capped(),
            range.end() == self.spec_end().capped(),
            range.end().line < usize::MAX,
    {
        proof {
            use_type_invariant(self);
        }
        Range { start: self.start.capped(), end: self.end.capped() }
    }

    /// The span between two positions, whichever of them comes first.
    pub fn new(start: Position, end: Position) -> (range: Range)
        ensures
            range == Range::spanning(start, end),
            range.start() == start.min(end),
            range.end() == start.max(end),
    {
        if end.is_before(&start) {
            Range { start: end, end: start }
        } else {
            Range { start, end }
        }
    }

    /// Where the span starts.
    #[verifier::when_used_as_spec(spec_start)]
    pub fn start(&self) -> (position: Position)
        ensures
            position == self.spec_start(),
            position.le(self.spec_end()),
    {
        proof {
            use_type_invariant(self);
        }
        self.start
    }

    /// Where the span ends.
    #[verifier::when_used_as_spec(spec_end)]
    pub fn end(&self) -> (position: Position)
        ensures
            position == self.spec_end(),
            self.spec_start().le(position),
    {
        proof {
            use_type_invariant(self);
        }
        self.end
    }
}

/// A run of whole lines, from its first line to its last, which never lies
/// before the first.
#[derive(Clone, Copy, Debug, PartialEq, Eq, Structural)]
pub struct LineRange {
    start: usize,
    end: usize,
}

impl LineRange {
    #[verifier::type_invariant]
    spec fn ordered(self) -> bool {
        self.start <= self.end
    }

    /// The first line of the run.
    pub closed spec fn spec_start(&self) -> usize {
        self.start
    }

    /// The last line of the run.
    pub closed spec fn spec_end(&self) -> usize {
        self.end
    }

    /// The run of lines between two lines, whichever of them comes first.
    pub closed spec fn spanning(a: usize, b: usize) -> LineRange {
        if a < b {
            LineRange { start: a, end: b }
        } else {
            LineRange { start: b, end: a }
        }
    }

    /// The run between two lines starts at the lower and ends at the higher
    /// of them.
    pub broadcast proof fn lemma_spanning(a: usize, b: usize)
        ensures
            (#[trigger] LineRange::spanning(a, b)).spec_start() == if a < b { a } else { b },
            LineRange::spanning(a, b).spec_end() == if a < b { b } else { a },
            LineRange::spanning(a, b) == LineRange::spanning(b, a),
    {
    }

    /// The run of lines between two lines, whichever of them comes first.
    pub fn new(start: usize, end: usize) -> (lines: LineRange)
        ensures
            lines == LineRange::spanning(start, end),
            lines.start() == if start < end { start } else { end },
            lines.end() == if start < end { end } else { start },
    {
        if start < end {
            LineRange { start, end }
        } else {
            LineRange { start: end, end: start }
        }
    }

    /// The first line of the run.
    #[verifier::when_used_as_spec(spec_start)]
    pub fn start(&self) -> (line: usize)
        ensures
            line == self.spec_start(),
            line <= self.spec_end(),
    {
        proof {
            use_type_invariant(self);
        }
        self.start
    }

    /// The last line of the run.
    #[verifier::when_used_as_spec(spec_end)]
    pub fn end(&self) -> (line: usize)
        ensures
            line == self.spec_end(),
            self.spec_start() <= line,
    {
        proof {
            use_type_invariant(self);
        }
        self.end
    }
}

pub broadcast group group_spanning {
    Range::lemma_spanning,
    Range::lemma_capped,
    LineRange::lemma_spanning,
}

} // verus!
