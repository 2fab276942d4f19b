//! The text buffer that the commands work on.
//!
//! The buffer is scribe's. Verus does not look inside it: this module names
//! what a buffer holds, as far as the commands can tell, and states of each
//! of its operations that the commands use what scribe's source shows of it.
//! Nothing here is proved; everything else in the library is proved from what
//! is stated here.
//!
//! A buffer is taken for its text, the layout of the text, the place of its
//! cursor, the offset that the cursor remembers and the length of its
//! history. The layout is there because scribe keeps a text in two pieces,
//! around a gap that moves to where the text was changed last, and finds a
//! place in the text by walking the grapheme clusters of each piece by
//! itself. Two buffers with the same text can
//! therefore differ in the places that they have, where the pieces of one
//! part what would be one cluster in the other: after a letter has been put
//! in front of a combining accent, the accent still is a place of its own.
//! What an operation that goes by places makes of a buffer is named as a
//! function of the text, its layout and the places.
//!
//! All of this holds of a buffer that is sound, as `buffer_sound` says, and
//! every operation asks for one and leaves one.

use vstd::prelude::*;
use scribe::Buffer;
use unicode_segmentation::UnicodeSegmentation;
use crate::position::{Position, Range};
use crate::text::{first_line, is_cut, last_line, last_line_text, line_count};

verus! {

/// scribe's `Buffer`, as it is.
#[verifier::external_type_specification]
#[verifier::external_body]
pub struct ExBuffer(Buffer);

/// Whether a buffer is as scribe makes its buffers: its cursor is bound to
/// the buffer's own text; the text is held by the buffer and its cursor
/// alone, so that nobody else can have it borrowed or change it; and the
/// callback that the buffer calls when its text changes, if it was given
/// one, returns and leaves the buffer alone.
///
/// scribe keeps what this speaks of to itself, so it cannot be tested when
/// the program runs. It is met by how a buffer was made: `Buffer::new` makes
/// a sound buffer, scribe's own methods keep it sound, and so does whoever
/// leaves the fields `cursor` and `change_callback` as they are.
pub uninterp spec fn buffer_sound(buffer: Buffer) -> bool;

/// The text that a buffer holds: what `Buffer::data` returns.
pub uninterp spec fn buffer_text(buffer: Buffer) -> Seq<char>;

/// The line that a buffer's cursor is on: its field `cursor.line`.
pub uninterp spec fn buffer_cursor_line(buffer: Buffer) -> usize;

/// The offset of a buffer's cursor into its line: its field `cursor.offset`.
pub uninterp spec fn buffer_cursor_offset(buffer: Buffer) -> usize;

/// The offset that a buffer's cursor remembers, to come back to it on a line
/// that is long enough: its field `cursor.sticky_offset`, which is the offset
/// of the last place that the cursor was sent to and went to.
pub uninterp spec fn buffer_cursor_memory(buffer: Buffer) -> usize;

/// How a buffer has laid out its text, as one number: where in the text the
/// gap between its two pieces lies, and how much the gap takes before the
/// buffer lays the text out anew.
pub uninterp spec fn buffer_layout(buffer: Buffer) -> int;

/// The number of steps that a buffer's history holds for `Buffer::undo` to
/// take back, each of them a change or a closed group of changes.
pub uninterp spec fn buffer_history(buffer: Buffer) -> nat;

/// The group of changes that a buffer is gathering, between
/// `Buffer::start_operation_group` and `Buffer::end_operation_group`, where
/// it is gathering one: the number of changes in the group so far.
pub uninterp spec fn buffer_group(buffer: Buffer) -> Option<nat>;

/// Whether a buffer with this text, laid out in this way, has a place at this
/// line and offset: what `Cursor::move_to` returns for it.
pub uninterp spec fn text_has_position(
    text: Seq<char>,
    layout: int,
    line: usize,
    offset: usize,
) -> bool;

/// What `Buffer::read` returns for a buffer with this text, laid out in this
/// way, and the span from the first line and offset up to the second.
pub uninterp spec fn text_in_range(
    text: Seq<char>,
    layout: int,
    start_line: usize,
    start_offset: usize,
    end_line: usize,
    end_offset: usize,
) -> Option<Seq<char>>;

/// The text that `Buffer::delete_range` leaves in a buffer with this text,
/// laid out in this way, for the span from the first line and offset up to
/// the second; and the layout that it leaves the text in.
pub uninterp spec fn text_without_range(
    text: Seq<char>,
    layout: int,
    start_line: usize,
    start_offset: usize,
    end_line: usize,
    end_offset: usize,
) -> (Seq<char>, int);

/// The text that `Buffer::insert` leaves in a buffer with this text, laid
/// out in this way, and its cursor at this line and offset, for the given
/// addition.
pub uninterp spec fn text_with_insertion(
    text: Seq<char>,
    layout: int,
    line: usize,
    offset: usize,
    inserted: Seq<char>,
) -> Seq<char>;

/// The number of extended grapheme clusters of a text: the unit in which a
/// buffer counts offsets.
pub uninterp spec fn grapheme_len(text: Seq<char>) -> usize;

/// The length of a line in the unit in which a buffer counts offsets.
pub open spec fn line_length(line: Seq<char>) -> usize {
    if line.len() == 0 {
        0
    } else {
        grapheme_len(line)
    }
}

/// What a buffer holds, as far as the commands can tell.
pub struct Content {
    /// The text.
    pub text: Seq<char>,
    /// How the text is laid out.
    pub layout: int,
    /// Where the cursor is.
    pub cursor: Position,
    /// The offset that the cursor remembers.
    pub memory: usize,
    /// The number of steps that the history holds for undo to take back.
    pub history: nat,
    /// The number of changes in the group that is being gathered, if one is.
    pub group: Option<nat>,
}

/// What a buffer holds.
pub open spec fn content(buffer: Buffer) -> Content {
    Content {
        text: buffer_text(buffer),
        layout: buffer_layout(buffer),
        cursor: Position {
            line: buffer_cursor_line(buffer),
            offset: buffer_cursor_offset(buffer),
        },
        memory: buffer_cursor_memory(buffer),
        history: buffer_history(buffer),
        group: buffer_group(buffer),
    }
}

impl Content {
    /// Whether the buffer has a place at the given position.
    pub open spec fn has_position(self, position: Position) -> bool {
        text_has_position(self.text, self.layout, position.line, position.offset)
    }

    /// The text within a span, where the buffer can read it.
    pub open spec fn read(self, range: Range) -> Option<Seq<char>> {
        text_in_range(
            self.text,
            self.layout,
            range.start().line,
            range.start().offset,
            range.end().line,
            range.end().offset,
        )
    }

    /// The same buffer once it has recorded a change: the change joins the
    /// group that is being gathered, or, where none is, the history as a
    /// step of its own.
    pub open spec fn recorded(self) -> Content {
        match self.group {
            Some(changes) => Content { group: Some(changes + 1), ..self },
            None => Content { history: self.history + 1, ..self },
        }
    }

    /// The same buffer once a span has been deleted from it.
    pub open spec fn without(self, range: Range) -> Content {
        let left = text_without_range(
            self.text,
            self.layout,
            range.start().line,
            range.start().offset,
            range.end().line,
            range.end().offset,
        );
        Content { text: left.0, layout: left.1, ..self.recorded() }
    }

    /// The same buffer once a text has been inserted at its cursor, and the
    /// buffer has laid the new text out in the given way.
    pub open spec fn with_insertion(self, inserted: Seq<char>, layout: int) -> Content {
        Content {
            text: text_with_insertion(
                self.text,
                self.layout,
                self.cursor.line,
                self.cursor.offset,
                inserted,
            ),
            layout,
            ..self.recorded()
        }
    }

    /// The same buffer once its cursor has been sent to a position: the
    /// cursor moves there if the buffer has such a place, and remembers the
    /// offset; it stays otherwise.
    pub open spec fn moved_to(self, position: Position) -> Content {
        if self.has_position(position) {
            Content { cursor: position, memory: position.offset, ..self }
        } else {
            self
        }
    }

    /// The offset at which the cursor is sent to a line of the given length:
    /// the offset that it remembers, or the end of the line if that comes
    /// first.
    pub open spec fn offset_within(self, length: usize) -> usize {
        if length < self.memory {
            length
        } else {
            self.memory
        }
    }

    /// Where the cursor is sent to when it is sent to the last line.
    pub open spec fn last_line_aim(self) -> Position {
        Position {
            line: last_line(self.text) as usize,
            offset: self.offset_within(line_length(last_line_text(self.text))),
        }
    }

    /// The same buffer once its cursor has been sent to the first line. The
    /// buffer always has a place for it there.
    pub open spec fn moved_to_first_line(self) -> Content {
        let offset = self.offset_within(line_length(first_line(self.text)));
        Content { cursor: Position { line: 0, offset }, memory: offset, ..self }
    }

    /// The same buffer once its cursor has been sent to the last line: it
    /// moves if the buffer has a place where it is sent to, and stays
    /// otherwise.
    pub open spec fn moved_to_last_line(self) -> Content {
        self.moved_to(self.last_line_aim())
    }

    /// The same buffer once it has been told to gather changes in a group:
    /// it goes on with the group that it is gathering, or starts an empty one.
    pub open spec fn gathering(self) -> Content {
        match self.group {
            Some(_) => self,
            None => Content { group: Some(0), ..self },
        }
    }

    /// The same buffer once it has been told to close its group: a group
    /// that holds a change becomes one step of the history.
    pub open spec fn closed(self) -> Content {
        match self.group {
            Some(changes) if changes > 0 => Content {
                group: None,
                history: self.history + 1,
                ..self
            },
            _ => Content { group: None, ..self },
        }
    }
}

/// `Buffer::new`: a buffer as scribe makes it, without text, its cursor at
/// the start and remembering that, its history empty.
#[verifier::external_body]
pub(crate) fn make_buffer() -> (buffer: Buffer)
    ensures
        buffer_sound(buffer),
        buffer_text(buffer) == Seq::<char>::empty(),
        buffer_cursor_line(buffer) == 0,
        buffer_cursor_offset(buffer) == 0,
        buffer_cursor_memory(buffer) == 0,
        buffer_history(buffer) == 0,
        buffer_group(buffer) is None,
{
    Buffer::new()
}

/// A new buffer: sound, without text, its cursor at the start and its
/// history empty.
pub fn new_buffer() -> (buffer: Buffer)
    ensures
        buffer_sound(buffer),
        content(buffer) == (Content {
            text: Seq::<char>::empty(),
            layout: content(buffer).layout,
            cursor: Position { line: 0, offset: 0 },
            memory: 0,
            history: 0,
            group: None,
        }),
{
    make_buffer()
}

/// `Buffer::data`: the text of the buffer.
#[verifier::external_body]
pub(crate) fn data(buffer: &Buffer) -> (text: String)
    requires
        buffer_sound(*buffer),
    ensures
        text@ == buffer_text(*buffer),
{
    buffer.data()
}

/// The buffer's fields `cursor.line` and `cursor.offset`: where its cursor is.
#[verifier::external_body]
pub(crate) fn cursor(buffer: &Buffer) -> (position: Position)
    requires
        buffer_sound(*buffer),
    ensures
        position.line == buffer_cursor_line(*buffer),
        position.offset == buffer_cursor_offset(*buffer),
{
    Position { line: buffer.cursor.line, offset: buffer.cursor.offset }
}

/// `Buffer::line_count`: one more than the text has newlines.
#[verifier::external_body]
pub(crate) fn count_lines(buffer: &Buffer) -> (count: usize)
    requires
        buffer_sound(*buffer),
    ensures
        count == line_count(buffer_text(*buffer)),
{
    buffer.line_count()
}

/// `Buffer::read`: the text within a span, or nothing where the buffer has no
/// place for one of its ends. The buffer is left as it is.
#[verifier::external_body]
pub(crate) fn read(buffer: &Buffer, range: Range) -> (text: Option<String>)
    requires
        buffer_sound(*buffer),
    ensures
        match text {
            Some(text) => text_in_range(
                buffer_text(*buffer),
                buffer_layout(*buffer),
                range.start().line,
                range.start().offset,
                range.end().line,
                range.end().offset,
            ) == Some(text@),
            None => text_in_range(
                buffer_text(*buffer),
                buffer_layout(*buffer),
                range.start().line,
                range.start().offset,
                range.end().line,
                range.end().offset,
            ) is None,
        },
{
    let start = scribe::buffer::Position { line: range.start().line, offset: range.start().offset };
    let end = scribe::buffer::Position { line: range.end().line, offset: range.end().offset };
    buffer.read(&scribe::buffer::Range::new(start, end))
}

/// `Buffer::delete_range`: takes a span out of the text, which leaves the
/// gap where the span was, and records that for undo, in the group that is
/// being gathered or as a step of its own. The cursor is left where it is.
/// What goes is one stretch of the text, and nothing goes where the buffer
/// has no place for the start of the span. Where the buffer
/// has no place for the end of the span, scribe looks at the start of the
/// line after it: the span must not end on the highest line that can be
/// numbered.
#[verifier::external_body]
pub(crate) fn delete_range(buffer: &mut Buffer, range: Range)
    requires
        buffer_sound(*old(buffer)),
        range.end().line < usize::MAX,
    ensures
        buffer_sound(*final(buffer)),
        (buffer_text(*final(buffer)), buffer_layout(*final(buffer))) == text_without_range(
            buffer_text(*old(buffer)),
            buffer_layout(*old(buffer)),
            range.start().line,
            range.start().offset,
            range.end().line,
            range.end().offset,
        ),
        is_cut(buffer_text(*old(buffer)), buffer_text(*final(buffer))),
        !text_has_position(
            buffer_text(*old(buffer)),
            buffer_layout(*old(buffer)),
            range.start().line,
            range.start().offset,
        ) ==> buffer_text(*final(buffer)) == buffer_text(*old(buffer)),
        buffer_cursor_line(*final(buffer)) == buffer_cursor_line(*old(buffer)),
        buffer_cursor_offset(*final(buffer)) == buffer_cursor_offset(*old(buffer)),
        buffer_cursor_memory(*final(buffer)) == buffer_cursor_memory(*old(buffer)),
        buffer_history(*final(buffer)) == if buffer_group(*old(buffer)) is Some {
            buffer_history(*old(buffer))
        } else {
            buffer_history(*old(buffer)) + 1
        },
        buffer_group(*final(buffer)) == match buffer_group(*old(buffer)) {
            Some(changes) => Some(changes + 1),
            None => None,
        },
{
    let start = scribe::buffer::Position { line: range.start().line, offset: range.start().offset };
    let end = scribe::buffer::Position { line: range.end().line, offset: range.end().offset };
    buffer.delete_range(scribe::buffer::Range::new(start, end))
}

/// `Buffer::insert`: puts a text in at the cursor, and records that for
/// undo, in the group that is being gathered or as a step of its own. The
/// cursor is left where it is. How the new text is laid out depends on the
/// room that the buffer had, and on the room that it was given if it had too
/// little: nothing is said of it.
#[verifier::external_body]
pub(crate) fn insert(buffer: &mut Buffer, inserted: &str)
    requires
        buffer_sound(*old(buffer)),
    ensures
        buffer_sound(*final(buffer)),
        buffer_text(*final(buffer)) == text_with_insertion(
            buffer_text(*old(buffer)),
            buffer_layout(*old(buffer)),
            buffer_cursor_line(*old(buffer)),
            buffer_cursor_offset(*old(buffer)),
            inserted@,
        ),
        buffer_cursor_line(*final(buffer)) == buffer_cursor_line(*old(buffer)),
        buffer_cursor_offset(*final(buffer)) == buffer_cursor_offset(*old(buffer)),
        buffer_cursor_memory(*final(buffer)) == buffer_cursor_memory(*old(buffer)),
        buffer_history(*final(buffer)) == if buffer_group(*old(buffer)) is Some {
            buffer_history(*old(buffer))
        } else {
            buffer_history(*old(buffer)) + 1
        },
        buffer_group(*final(buffer)) == match buffer_group(*old(buffer)) {
            Some(changes) => Some(changes + 1),
            None => None,
        },
{
    buffer.insert(inserted)
}

/// `Cursor::move_to`: moves the cursor to a position if the buffer has such
/// a place, and says whether it has. A cursor that moves remembers the offset
/// that it went to. Text, layout and history are left as they are.
#[verifier::external_body]
pub(crate) fn move_cursor_to(buffer: &mut Buffer, position: Position) -> (moved: bool)
    requires
        buffer_sound(*old(buffer)),
    ensures
        buffer_sound(*final(buffer)),
        moved == text_has_position(
            buffer_text(*old(buffer)),
            buffer_layout(*old(buffer)),
            position.line,
            position.offset,
        ),
        buffer_text(*final(buffer)) == buffer_text(*old(buffer)),
        buffer_layout(*final(buffer)) == buffer_layout(*old(buffer)),
        buffer_history(*final(buffer)) == buffer_history(*old(buffer)),
        buffer_group(*final(buffer)) == buffer_group(*old(buffer)),
        buffer_cursor_line(*final(buffer)) == if moved {
            position.line
        } else {
            buffer_cursor_line(*old(buffer))
        },
        buffer_cursor_offset(*final(buffer)) == if moved {
            position.offset
        } else {
            buffer_cursor_offset(*old(buffer))
        },
        buffer_cursor_memory(*final(buffer)) == if moved {
            position.offset
        } else {
            buffer_cursor_memory(*old(buffer))
        },
{
    buffer.cursor.move_to(scribe::buffer::Position { line: position.line, offset: position.offset })
}

/// `Cursor::move_to_first_line`: moves the cursor to the first line, to the
/// offset that the cursor remembers or to the end of the line, whichever
/// comes first, and the cursor remembers that offset. The line is measured
/// as `str::lines` gives it, without the carriage return before its newline. The move is made by
/// `Cursor::move_to`, which always finds the place: a line has a place at
/// each offset up to its end. Text, layout and history are left as they are.
#[verifier::external_body]
pub(crate) fn move_cursor_to_first_line(buffer: &mut Buffer)
    requires
        buffer_sound(*old(buffer)),
    ensures
        buffer_sound(*final(buffer)),
        buffer_text(*final(buffer)) == buffer_text(*old(buffer)),
        buffer_layout(*final(buffer)) == buffer_layout(*old(buffer)),
        buffer_history(*final(buffer)) == buffer_history(*old(buffer)),
        buffer_group(*final(buffer)) == buffer_group(*old(buffer)),
        buffer_cursor_line(*final(buffer)) == 0,
        buffer_cursor_offset(*final(buffer)) == if line_length(
            first_line(buffer_text(*old(buffer))),
        ) < buffer_cursor_memory(*old(buffer)) {
            line_length(first_line(buffer_text(*old(buffer))))
        } else {
            buffer_cursor_memory(*old(buffer))
        },
        buffer_cursor_memory(*final(buffer)) == buffer_cursor_offset(*final(buffer)),
{
    buffer.cursor.move_to_first_line()
}

/// `Cursor::move_to_last_line`: aims at the last line of the text, whose
/// number is the number of newlines that are grapheme clusters of their own
/// and which is what follows the last of these, at the offset that the
/// cursor remembers or at the end of the line, whichever comes first. The move is made by `Cursor::move_to`: the cursor
/// goes there, and remembers the offset, if the buffer has such a place, and
/// stays otherwise. Text, layout and history are left as they are.
#[verifier::external_body]
pub(crate) fn move_cursor_to_last_line(buffer: &mut Buffer)
    requires
        buffer_sound(*old(buffer)),
    ensures
        buffer_sound(*final(buffer)),
        buffer_text(*final(buffer)) == buffer_text(*old(buffer)),
        buffer_layout(*final(buffer)) == buffer_layout(*old(buffer)),
        buffer_history(*final(buffer)) == buffer_history(*old(buffer)),
        buffer_group(*final(buffer)) == buffer_group(*old(buffer)),
        ({
            let line = last_line(buffer_text(*old(buffer))) as usize;
            let offset = if line_length(last_line_text(buffer_text(*old(buffer))))
                < buffer_cursor_memory(*old(buffer)) {
                line_length(last_line_text(buffer_text(*old(buffer))))
            } else {
                buffer_cursor_memory(*old(buffer))
            };
            if text_has_position(
                buffer_text(*old(buffer)),
                buffer_layout(*old(buffer)),
                line,
                offset,
            ) {
                &&& buffer_cursor_line(*final(buffer)) == line
                &&& buffer_cursor_offset(*final(buffer)) == offset
                &&& buffer_cursor_memory(*final(buffer)) == offset
            } else {
                &&& buffer_cursor_line(*final(buffer)) == buffer_cursor_line(*old(buffer))
                &&& buffer_cursor_offset(*final(buffer)) == buffer_cursor_offset(*old(buffer))
                &&& buffer_cursor_memory(*final(buffer)) == buffer_cursor_memory(*old(buffer))
            }
        }),
{
    buffer.cursor.move_to_last_line()
}

/// `Buffer::start_operation_group`: from here on the buffer gathers its
/// changes in a group, to be undone together. It starts an empty group unless
/// it is gathering one. Text, layout, cursor and history are left as they
/// are.
#[verifier::external_body]
pub(crate) fn start_operation_group(buffer: &mut Buffer)
    requires
        buffer_sound(*old(buffer)),
    ensures
        buffer_sound(*final(buffer)),
        buffer_text(*final(buffer)) == buffer_text(*old(buffer)),
        buffer_layout(*final(buffer)) == buffer_layout(*old(buffer)),
        buffer_cursor_line(*final(buffer)) == buffer_cursor_line(*old(buffer)),
        buffer_cursor_offset(*final(buffer)) == buffer_cursor_offset(*old(buffer)),
        buffer_cursor_memory(*final(buffer)) == buffer_cursor_memory(*old(buffer)),
        buffer_history(*final(buffer)) == buffer_history(*old(buffer)),
        buffer_group(*final(buffer)) == match buffer_group(*old(buffer)) {
            Some(changes) => Some(changes),
            None => Some(0nat),
        },
{
    buffer.start_operation_group()
}

/// `Buffer::end_operation_group`: the buffer stops gathering changes. A
/// group that holds a change becomes one step of the history; an empty one
/// is dropped. Text, layout and cursor are left as they are.
#[verifier::external_body]
pub(crate) fn end_operation_group(buffer: &mut Buffer)
    requires
        buffer_sound(*old(buffer)),
    ensures
        buffer_sound(*final(buffer)),
        buffer_text(*final(buffer)) == buffer_text(*old(buffer)),
        buffer_layout(*final(buffer)) == buffer_layout(*old(buffer)),
        buffer_cursor_line(*final(buffer)) == buffer_cursor_line(*old(buffer)),
        buffer_cursor_offset(*final(buffer)) == buffer_cursor_offset(*old(buffer)),
        buffer_cursor_memory(*final(buffer)) == buffer_cursor_memory(*old(buffer)),
        buffer_history(*final(buffer)) == match buffer_group(*old(buffer)) {
            Some(changes) if changes > 0 => buffer_history(*old(buffer)) + 1,
            _ => buffer_history(*old(buffer)),
        },
        buffer_group(*final(buffer)) is None,
{
    buffer.end_operation_group()
}

/// `UnicodeSegmentation::graphemes`, extended and counted: the length of a
/// text in the unit in which a buffer counts offsets.
#[verifier::external_body]
pub(crate) fn count_graphemes(text: &str) -> (count: usize)
    ensures
        count == grapheme_len(text@),
{
    text.graphemes(true).count()
}

} // verus!
