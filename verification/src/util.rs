//! Spans of whole lines.

use vstd::prelude::*;
use scribe::Buffer;
use crate::buffer::{
    buffer_sound, buffer_text, count_graphemes, count_lines, data, line_length,
};
use crate::position::{group_spanning, LineRange, Position, Range};
use crate::text::{from_chars, line_at, line_count, split, to_chars};

verus! {

/// Where a run of whole lines ends, in a text of `line_count` lines whose
/// line `last` is `length` long: if the text has a line after `last`, at the
/// start of that line, so that the newline that ends `last` is within the
/// span; if it has none, at the end of `last`, where there is no newline.
pub open spec fn line_span_end(last: usize, line_count: nat, length: usize) -> Position {
    if last < usize::MAX && last + 1 < line_count {
        Position { line: (last + 1) as usize, offset: 0 }
    } else {
        Position { line: last, offset: length }
    }
}

/// The span that covers a run of whole lines, in a text of `line_count`
/// lines whose line `lines.end()` is `length` long.
pub open spec fn line_span(lines: LineRange, line_count: nat, length: usize) -> Range {
    Range::spanning(
        Position { line: lines.start(), offset: 0 },
        line_span_end(lines.end(), line_count, length),
    )
}

/// Where a run of whole lines ends in a text.
pub open spec fn inclusive_end(lines: LineRange, text: Seq<char>) -> Position {
    line_span_end(lines.end(), line_count(text), line_length(line_at(text, lines.end() as int)))
}

/// The span of a text that covers a run of whole lines.
pub open spec fn inclusive_span(lines: LineRange, text: Seq<char>) -> Range {
    line_span(lines, line_count(text), line_length(line_at(text, lines.end() as int)))
}

/// The span of a run of whole lines starts at the start of its first line
/// and ends where `inclusive_end` says, which is not before its start.
pub proof fn lemma_inclusive_span(lines: LineRange, text: Seq<char>)
    requires
        lines.start() <= lines.end(),
    ensures
        inclusive_span(lines, text).start() == (Position { line: lines.start(), offset: 0 }),
        inclusive_span(lines, text).end() == inclusive_end(lines, text),
        inclusive_span(lines, text).start().le(inclusive_span(lines, text).end()),
{
    broadcast use group_spanning;

}

/// The span that covers a run of whole lines, in a text of `line_count`
/// lines whose line `line_range.end()` is `length` long. Where the text has a
/// line after the run, `length` makes no difference.
pub fn span_lines(line_range: &LineRange, line_count: usize, length: usize) -> (range: Range)
    ensures
        range == line_span(*line_range, line_count as nat, length),
        range.start() == (Position { line: line_range.start(), offset: 0 }),
        range.end() == line_span_end(line_range.end(), line_count as nat, length),
{
    broadcast use group_spanning;

    let last = line_range.end();
    let end = if last < usize::MAX && last + 1 < line_count {
        Position { line: last + 1, offset: 0 }
    } else {
        Position { line: last, offset: length }
    };
    Range::new(Position { line: line_range.start(), offset: 0 }, end)
}

/// The length of line `index` of a buffer, in the unit in which the buffer
/// counts offsets; 0 where the buffer has no such line.
pub fn length_of_line(buffer: &Buffer, index: usize) -> (length: usize)
    requires
        buffer_sound(*buffer),
    ensures
        length == line_length(line_at(buffer_text(*buffer), index as int)),
{
    let text = data(buffer);
    let chars = to_chars(text.as_str());
    let pieces = split(&chars);
    if index < pieces.len() && pieces[index].len() > 0 {
        let line = from_chars(&pieces[index]);
        count_graphemes(line.as_str())
    } else {
        0
    }
}

/// The span of a buffer that covers a run of whole lines.
pub fn inclusive_range(line_range: &LineRange, buffer: &Buffer) -> (range: Range)
    requires
        buffer_sound(*buffer),
    ensures
        range == inclusive_span(*line_range, buffer_text(*buffer)),
{
    let last = line_range.end();
    let count = count_lines(buffer);
    let length = if last < usize::MAX && last + 1 < count {
        0
    } else {
        length_of_line(buffer, last)
    };
    span_lines(line_range, count, length)
}

} // verus!
