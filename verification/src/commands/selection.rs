//! The commands that work on the selection: deleting it, copying it, sorting
//! its lines, and selecting the whole buffer.

use vstd::prelude::*;
use scribe::Buffer;
use crate::buffer::{
    buffer_sound, content, cursor, delete_range, end_operation_group, insert, move_cursor_to,
    move_cursor_to_first_line, move_cursor_to_last_line, read, start_operation_group,
    text_without_range, Content,
};
use crate::commands::application::{
    switch_to_insert_mode, switch_to_normal_mode, switch_to_select_line_mode,
};
use crate::errors::{Error, ErrorKind};
use crate::models::application::{
    Application, ClipboardContent, ClipboardSync, Copied, Mode, SelectLineMode, SelectMode,
};
use crate::position::{group_spanning, LineRange, Position, Range};
use crate::text::{
    is_cut, last_line, lemma_last_line_bound, lemma_last_line_without_carriage_returns, line_count,
    sort_text, sorted_text,
};
use crate::util::{inclusive_end, inclusive_range, inclusive_span, lemma_inclusive_span};

verus! {

/// The span that a mode selects in a buffer: in select mode, what lies
/// between the anchor and the cursor; in select-line mode, the whole lines
/// from the anchor's to the cursor's. The other modes select nothing.
pub open spec fn selected_range(mode: Mode, content: Content) -> Option<Range> {
    match mode {
        Mode::Select(select_mode) => Some(Range::spanning(content.cursor, select_mode.anchor)),
        Mode::SelectLine(select_line_mode) => Some(
            inclusive_span(
                LineRange::spanning(select_line_mode.anchor, content.cursor.line),
                content.text,
            ),
        ),
        _ => None,
    }
}

/// The span that a mode selects in a buffer, if it selects one.
pub fn selection_range(mode: &Mode, buffer: &Buffer) -> (range: Option<Range>)
    requires
        buffer_sound(*buffer),
    ensures
        range == selected_range(*mode, content(*buffer)),
{
    match mode {
        Mode::Select(select_mode) => Some(Range::new(cursor(buffer), select_mode.anchor)),
        Mode::SelectLine(select_line_mode) => {
            let lines = LineRange::new(select_line_mode.anchor, cursor(buffer).line);
            Some(inclusive_range(&lines, buffer))
        },
        _ => None,
    }
}

/// The span that `delete` takes out of a buffer, or why it takes none: the
/// selection of the select modes, or in search mode the selected match.
pub open spec fn delete_target(mode: Mode, content: Content) -> Result<Range, Error> {
    match mode {
        Mode::Search(search_mode) => match search_mode.selection() {
            Some(range) => Ok(range),
            None => Err(Error::SelectionMissing),
        },
        _ => match selected_range(mode, content) {
            Some(range) => Ok(range),
            None => Err(Error::DeleteOutsideSelectModes),
        },
    }
}

/// What a buffer holds once `delete` has taken the given span out of it. In
/// the select modes the cursor is sent to where the span started; in search
/// mode it is left alone. A span that reaches the highest line that can be
/// numbered is deleted as one that ends at the end of the line before: no
/// buffer has a line of that number, so the two take in the same text.
pub open spec fn after_delete(mode: Mode, content: Content, range: Range) -> Content {
    if mode is Search {
        content.without(range.capped())
    } else {
        content.without(range.capped()).moved_to(range.capped().start())
    }
}

/// What the buffer's deletion of a span is known to do to the text: it takes
/// one stretch out of it, and none where the buffer has no place for the
/// start of the span.
pub open spec fn deletes_a_stretch(before: Content, range: Range, after: Content) -> bool {
    &&& is_cut(before.text, after.text)
    &&& !before.has_position(range.capped().start()) ==> after.text == before.text
}

/// What `delete` does to an application.
pub open spec fn delete_spec(before: Application, after: Application, result: Result<(), Error>) -> bool {
    &&& after.mode == before.mode
    &&& after.clipboard == before.clipboard
    &&& if !before.has_buffer() {
        &&& result == Err::<(), Error>(Error::BufferMissing)
        &&& after == before
    } else {
        match delete_target(before.mode, before.content()) {
            Ok(range) => {
                &&& result is Ok
                &&& after.has_buffer()
                &&& after.content() == after_delete(before.mode, before.content(), range)
                &&& deletes_a_stretch(before.content(), range, after.content())
            },
            Err(error) => {
                &&& result == Err::<(), Error>(error)
                &&& after == before
            },
        }
    }
}

/// Deletes the selection from the current buffer.
///
/// In select and select-line mode the selection goes, and the cursor is sent
/// to where it started. In search mode the selected match goes, and the
/// cursor is left alone. What reaches the highest line that can be numbered
/// is deleted up to the end of the line before, which is as far as any
/// buffer goes. Without a buffer, in search mode without a selected match,
/// and in any other mode, nothing is changed and the reason is returned.
pub fn delete(app: &mut Application) -> (result: Result<(), Error>)
    requires
        old(app).sound(),
    ensures
        delete_spec(*old(app), *final(app), result),
        final(app).sound(),
{
    match &mut app.workspace.buffer {
        Some(buffer) => {
            match &app.mode {
                Mode::Search(search_mode) => {
                    match search_mode.selection() {
                        Some(range) => {
                            delete_range(buffer, range.capped());
                            Ok(())
                        },
                        None => Err(Error::SelectionMissing),
                    }
                },
                mode => {
                    match selection_range(mode, buffer) {
                        Some(range) => {
                            let span = range.capped();
                            delete_range(buffer, span);
                            move_cursor_to(buffer, span.start());
                            Ok(())
                        },
                        None => Err(Error::DeleteOutsideSelectModes),
                    }
                },
            }
        },
        None => Err(Error::BufferMissing),
    }
}

/// What `copy` puts on the clipboard, or why it copies nothing: in select
/// mode the text of the selection, to be pasted at the cursor; in select-line
/// mode the selected lines, to be pasted as lines.
pub open spec fn copy_source(app: Application) -> Result<Copied, Error> {
    if !app.has_buffer() {
        Err(Error::BufferMissing)
    } else {
        match selected_range(app.mode, app.content()) {
            Some(range) => match app.content().read(range) {
                Some(text) => if app.mode is Select {
                    Ok(Copied::Inline(text))
                } else {
                    Ok(Copied::Block(text))
                },
                None => Err(Error::UnreadableSelection),
            },
            None => Err(Error::CopyOutsideSelectModes),
        }
    }
}

/// The selection as content for the clipboard. Nothing is changed.
pub fn selection_content(app: &Application) -> (result: Result<ClipboardContent, Error>)
    requires
        app.sound(),
    ensures
        match result {
            Ok(content) => copy_source(*app) == Ok::<Copied, Error>(content@),
            Err(error) => copy_source(*app) == Err::<Copied, Error>(error),
        },
{
    match &app.workspace.buffer {
        Some(buffer) => {
            match selection_range(&app.mode, buffer) {
                Some(range) => {
                    match read(buffer, range) {
                        Some(text) => match &app.mode {
                            Mode::Select(_) => Ok(ClipboardContent::Inline(text)),
                            _ => Ok(ClipboardContent::Block(text)),
                        },
                        None => Err(Error::UnreadableSelection),
                    }
                },
                None => Err(Error::CopyOutsideSelectModes),
            }
        },
        None => Err(Error::BufferMissing),
    }
}

/// What `copy_to_clipboard` does to an application, given what became of
/// handing the selection on to the system clipboard.
pub open spec fn copy_to_clipboard_spec(
    before: Application,
    sync: ClipboardSync,
    after: Application,
    result: Result<(), Error>,
) -> bool {
    &&& after.mode == before.mode
    &&& after.workspace == before.workspace
    &&& match copy_source(before) {
        Ok(copied) => {
            &&& after.clipboard@ == copied
            &&& result == if sync == ClipboardSync::Failed {
                Err::<(), Error>(Error::ClipboardSync)
            } else {
                Ok::<(), Error>(())
            }
        },
        Err(error) => {
            &&& after.clipboard == before.clipboard
            &&& result == Err::<(), Error>(error)
        },
    }
}

/// Puts the selection on the clipboard, in place of what was there.
///
/// The caller hands the selection (see `selection_content`) on to the system
/// clipboard, and says in `sync` what became of that. If that failed, the
/// clipboard of the application holds the selection all the same, and the
/// failure is returned. Where there is nothing to copy, nothing is changed.
pub fn copy_to_clipboard(app: &mut Application, sync: ClipboardSync) -> (result: Result<(), Error>)
    requires
        old(app).sound(),
    ensures
        copy_to_clipboard_spec(*old(app), sync, *final(app), result),
        final(app).sound(),
{
    match selection_content(app) {
        Ok(content) => app.clipboard.set_content(content, sync),
        Err(error) => Err(error),
    }
}

/// What `copy_and_delete` does to an application: what `delete` does, with
/// the selection on the clipboard where there was one to copy.
pub open spec fn copy_and_delete_spec(
    before: Application,
    after: Application,
    result: Result<(), Error>,
) -> bool {
    &&& after.mode == before.mode
    &&& match copy_source(before) {
        Ok(copied) => after.clipboard@ == copied,
        Err(_) => after.clipboard == before.clipboard,
    }
    &&& if !before.has_buffer() {
        &&& result == Err::<(), Error>(Error::BufferMissing)
        &&& after.workspace == before.workspace
    } else {
        match delete_target(before.mode, before.content()) {
            Ok(range) => {
                &&& result is Ok
                &&& after.has_buffer()
                &&& after.content() == after_delete(before.mode, before.content(), range)
                &&& deletes_a_stretch(before.content(), range, after.content())
            },
            Err(error) => {
                &&& result == Err::<(), Error>(error)
                &&& after.workspace == before.workspace
            },
        }
    }
}

/// Copies the selection to the clipboard, then deletes it.
///
/// A copy that fails does not stop the deletion: neither where there is
/// nothing to copy, as in search mode, nor where the system clipboard did not
/// take the selection. What `delete` returns is returned.
pub fn copy_and_delete(app: &mut Application, sync: ClipboardSync) -> (result: Result<(), Error>)
    requires
        old(app).sound(),
    ensures
        copy_and_delete_spec(*old(app), *final(app), result),
        final(app).sound(),
{
    let _ = copy_to_clipboard(app, sync);
    delete(app)
}

/// What `change` does to an application: what `copy_and_delete` does, and
/// then, if that went well, the change to insert mode.
pub open spec fn change_spec(
    before: Application,
    after: Application,
    result: Result<Position, Error>,
) -> bool {
    match result {
        Ok(position) => {
            &&& copy_and_delete_spec(
                before,
                Application { mode: before.mode, ..after },
                Ok::<(), Error>(()),
            )
            &&& after.mode == Mode::Insert
            &&& position == after.content().cursor
        },
        Err(error) => copy_and_delete_spec(before, after, Err::<(), Error>(error)),
    }
}

/// Copies the selection to the clipboard, deletes it, and goes to insert
/// mode, for text to be typed in its place.
///
/// As in `copy_and_delete`, a copy that fails does not stop the deletion. If
/// the deletion fails, the mode is left as it is and the failure is returned.
/// Otherwise the application is in insert mode, and the cursor's position is
/// returned: the caller scrolls its view so that the cursor can be seen.
pub fn change(app: &mut Application, sync: ClipboardSync) -> (result: Result<Position, Error>)
    requires
        old(app).sound(),
    ensures
        change_spec(*old(app), *final(app), result),
        final(app).sound(),
{
    match copy_and_delete(app, sync) {
        Ok(()) => {},
        Err(error) => {
            return Err(error);
        },
    }
    match switch_to_insert_mode(app) {
        Ok(()) => {},
        Err(error) => {
            return Err(error);
        },
    }
    match &app.workspace.buffer {
        Some(buffer) => Ok(cursor(buffer)),
        None => Err(Error::BufferMissing),
    }
}

/// What `copy` does to an application, given what became of handing the
/// selection on to the system clipboard: what `copy_to_clipboard` does, and
/// then, if that went well, the change to normal mode.
pub open spec fn copy_spec(
    before: Application,
    sync: ClipboardSync,
    after: Application,
    result: Result<(), Error>,
) -> bool {
    &&& after.workspace == before.workspace
    &&& match copy_source(before) {
        Ok(copied) => {
            &&& after.clipboard@ == copied
            &&& if sync == ClipboardSync::Failed {
                &&& result == Err::<(), Error>(Error::ClipboardSync)
                &&& after.mode == before.mode
            } else {
                &&& result is Ok
                &&& after.mode == Mode::Normal
            }
        },
        Err(error) => {
            &&& result == Err::<(), Error>(error)
            &&& after.clipboard == before.clipboard
            &&& after.mode == before.mode
        },
    }
}

/// Copies the selection to the clipboard, and goes to normal mode.
///
/// A copy that fails is returned, and the mode is then left as it is.
pub fn copy(app: &mut Application, sync: ClipboardSync) -> (result: Result<(), Error>)
    requires
        old(app).sound(),
    ensures
        copy_spec(*old(app), sync, *final(app), result),
        final(app).sound(),
{
    match copy_to_clipboard(app, sync) {
        Ok(()) => {},
        Err(error) => {
            return Err(error);
        },
    }
    switch_to_normal_mode(app)
}

/// What `select_all` does to an application.
pub open spec fn select_all_spec(
    before: Application,
    after: Application,
    result: Result<(), Error>,
) -> bool {
    &&& after.clipboard == before.clipboard
    &&& if before.has_buffer() {
        &&& result is Ok
        &&& after.mode == Mode::SelectLine(SelectLineMode { anchor: 0 })
        &&& after.has_buffer()
        &&& after.content() == before.content().moved_to_first_line().moved_to_last_line()
    } else {
        &&& result == Err::<(), Error>(Error::BufferMissing)
        &&& after == before
    }
}

/// Selects the whole buffer: the cursor is sent to the first line, the
/// application goes to select-line mode with its anchor there, and the cursor
/// is sent on to the last line. It goes there if the buffer has a place
/// where it is sent to, and stays on the first line only if it has none. The
/// text is left as it is. Without a buffer nothing is changed.
pub fn select_all(app: &mut Application) -> (result: Result<(), Error>)
    requires
        old(app).sound(),
    ensures
        select_all_spec(*old(app), *final(app), result),
        final(app).sound(),
{
    match &mut app.workspace.buffer {
        Some(buffer) => move_cursor_to_first_line(buffer),
        None => {
            return Err(Error::BufferMissing);
        },
    }
    match switch_to_select_line_mode(app) {
        Ok(()) => {},
        Err(error) => {
            return Err(error);
        },
    }
    match &mut app.workspace.buffer {
        Some(buffer) => move_cursor_to_last_line(buffer),
        None => {
            return Err(Error::BufferMissing);
        },
    }
    Ok(())
}

/// The lines that `sort_lines` sorts, with the span that holds them, or why
/// it sorts none.
pub open spec fn sort_source(app: Application) -> Result<(Range, Seq<char>), Error> {
    if !app.has_buffer() {
        Err(Error::BufferMissing)
    } else {
        match app.mode {
            Mode::SelectLine(select_line_mode) => {
                let range = inclusive_span(
                    LineRange::spanning(select_line_mode.anchor, app.content().cursor.line),
                    app.content().text,
                );
                match app.content().read(range) {
                    Some(lines) => Ok((range, lines)),
                    None => Err(Error::UnreadableLines),
                }
            },
            _ => Err(Error::SortOutsideSelectLineMode),
        }
    }
}

/// What a buffer holds once `sort_lines` has sorted the lines that it read
/// in the given span: within one group of changes the span is deleted, the
/// cursor is sent to where it started, and the sorted lines are inserted,
/// which leaves the text laid out in the given way. As in `delete`, a span
/// that reaches the highest line that can be numbered is deleted as one that
/// ends at the end of the line before.
pub open spec fn after_sort(
    content: Content,
    range: Range,
    lines: Seq<char>,
    layout: int,
) -> Content {
    content.gathering().without(range.capped()).moved_to(
        range.capped().start(),
    ).with_insertion(sorted_text(lines), layout).closed()
}

/// What `sort_lines` does to an application.
pub open spec fn sort_lines_spec(before: Application, after: Application, result: Result<(), Error>) -> bool {
    &&& after.clipboard == before.clipboard
    &&& match sort_source(before) {
        Ok((range, lines)) => {
            &&& result is Ok
            &&& after.mode == Mode::Normal
            &&& after.has_buffer()
            &&& after.content() == after_sort(
                before.content(),
                range,
                lines,
                after.content().layout,
            )
        },
        Err(error) => {
            &&& result == Err::<(), Error>(error)
            &&& after == before
        },
    }
}

/// Sorts the selected lines, in select-line mode.
///
/// The lines are put in ascending order, each followed by a newline, whether
/// or not the last of them was. They are taken out of the buffer and put back
/// sorted where they started, as one change for the buffer to undo, and the
/// application goes to normal mode. Without a buffer, in another mode, or
/// where the buffer cannot read the lines, nothing is changed and the reason
/// is returned.
pub fn sort_lines(app: &mut Application) -> (result: Result<(), Error>)
    requires
        old(app).sound(),
    ensures
        sort_lines_spec(*old(app), *final(app), result),
        final(app).sound(),
{
    match &mut app.workspace.buffer {
        Some(buffer) => {
            let range = match &app.mode {
                Mode::SelectLine(select_line_mode) => {
                    let lines = LineRange::new(select_line_mode.anchor, cursor(buffer).line);
                    inclusive_range(&lines, buffer)
                },
                _ => {
                    return Err(Error::SortOutsideSelectLineMode);
                },
            };
            let lines = match read(buffer, range) {
                Some(lines) => lines,
                None => {
                    return Err(Error::UnreadableLines);
                },
            };
            let sorted = sort_text(lines.as_str());
            let span = range.capped();
            start_operation_group(buffer);
            delete_range(buffer, span);
            move_cursor_to(buffer, span.start());
            insert(buffer, sorted.as_str());
            end_operation_group(buffer);
        },
        None => {
            return Err(Error::BufferMissing);
        },
    }
    switch_to_normal_mode(app)
}

/// In select mode `delete` takes out of the buffer what lies between the
/// anchor and the cursor, from the earlier of the two up to the later: one
/// stretch of the text, with what came before it and what came after it
/// kept in their order, and nothing where the buffer has no place for the
/// earlier of the two. It sends the cursor to the earlier: it is there afterwards if it was there
/// before, or if the buffer has a place there once the text is gone. (An end
/// on the highest line that can be numbered counts as the end of the line
/// before.)
pub proof fn lemma_delete_in_select_mode(
    before: Application,
    after: Application,
    result: Result<(), Error>,
    anchor: Position,
)
    requires
        delete_spec(before, after, result),
        before.has_buffer(),
        before.mode == Mode::Select(SelectMode { anchor }),
    ensures
        result is Ok,
        after.content().text == ({
            let lower = before.content().cursor.min(anchor).capped();
            let upper = before.content().cursor.max(anchor).capped();
            text_without_range(
                before.content().text,
                before.content().layout,
                lower.line,
                lower.offset,
                upper.line,
                upper.offset,
            ).0
        }),
        anchor != before.content().cursor ==> before.content().cursor.min(anchor).lt(
            before.content().cursor.max(anchor),
        ),
        is_cut(before.content().text, after.content().text),
        !before.content().has_position(before.content().cursor.min(anchor).capped())
            ==> after.content().text == before.content().text,
        ({
            let lower = before.content().cursor.min(anchor).capped();
            after.content().cursor == if lower == before.content().cursor
                || after.content().has_position(lower) {
                lower
            } else {
                before.content().cursor
            }
        }),
{
    broadcast use group_spanning;

}

/// In select-line mode `delete` takes whole lines out of the buffer, from
/// the anchor's line to the cursor's, whichever of them comes first: from the
/// start of the first of these lines up to the start of the line after the
/// last of them, or, where the text has no line after it, up to the end of
/// the last. The cursor is sent to the start of the first of these lines,
/// and is there afterwards if the buffer has a place there once the lines
/// are gone. (An end on the highest line that can be numbered counts as the
/// end of the line before.)
pub proof fn lemma_delete_in_select_line_mode(
    before: Application,
    after: Application,
    result: Result<(), Error>,
    anchor: usize,
)
    requires
        delete_spec(before, after, result),
        before.has_buffer(),
        before.mode == Mode::SelectLine(SelectLineMode { anchor }),
    ensures
        result is Ok,
        after.content().text == ({
            let lines = LineRange::spanning(anchor, before.content().cursor.line);
            let start = (Position { line: lines.start(), offset: 0 }).capped();
            let end = inclusive_end(lines, before.content().text).capped();
            text_without_range(
                before.content().text,
                before.content().layout,
                start.line,
                start.offset,
                end.line,
                end.offset,
            ).0
        }),
        LineRange::spanning(anchor, before.content().cursor.line).start() == if anchor
            < before.content().cursor.line {
            anchor
        } else {
            before.content().cursor.line
        },
        LineRange::spanning(anchor, before.content().cursor.line).end() == if anchor
            < before.content().cursor.line {
            before.content().cursor.line
        } else {
            anchor
        },
        ({
            let lines = LineRange::spanning(anchor, before.content().cursor.line);
            let start = (Position { line: lines.start(), offset: 0 }).capped();
            after.content().cursor == if after.content().has_position(start) {
                start
            } else {
                before.content().cursor
            }
        }),
{
    broadcast use group_spanning;

    let lines = LineRange::spanning(anchor, before.content().cursor.line);
    lemma_inclusive_span(lines, before.content().text);
}

/// Once `copy` has gone well, the clipboard holds just the text that the
/// buffer read for the selection when the copy was made: as text from within
/// lines if that was in select mode, as whole lines if in select-line mode.
/// The buffer itself is as it was.
pub proof fn lemma_copy_takes_selection(
    before: Application,
    sync: ClipboardSync,
    after: Application,
    result: Result<(), Error>,
)
    requires
        copy_spec(before, sync, after, result),
        result is Ok,
    ensures
        before.has_buffer(),
        after.workspace == before.workspace,
        selected_range(before.mode, before.content()) is Some,
        before.content().read(selected_range(before.mode, before.content())->0) is Some,
        after.clipboard@ == ({
            let text = before.content().read(selected_range(before.mode, before.content())->0)->0;
            if before.mode is Select {
                Copied::Inline(text)
            } else {
                Copied::Block(text)
            }
        }),
{
}

/// `copy_and_delete` leaves the buffer as `delete` leaves it, and returns
/// what `delete` returns, whatever became of the copy: nothing in what it
/// does to the buffer depends on the system clipboard.
pub proof fn lemma_copy_and_delete_deletes(
    before: Application,
    copied_and_deleted: Application,
    result: Result<(), Error>,
    deleted: Application,
    delete_result: Result<(), Error>,
)
    requires
        copy_and_delete_spec(before, copied_and_deleted, result),
        delete_spec(before, deleted, delete_result),
    ensures
        result == delete_result,
        copied_and_deleted.mode == deleted.mode,
        copied_and_deleted.has_buffer() == deleted.has_buffer(),
        deleted.has_buffer() ==> copied_and_deleted.content() == deleted.content(),
        result is Err ==> copied_and_deleted.workspace == deleted.workspace,
{
    if result is Ok {
        assert(result->Ok_0 == delete_result->Ok_0);
    }
}

/// In normal and in insert mode, with a buffer at hand, `delete` fails for
/// want of a fitting mode and changes nothing.
pub proof fn lemma_delete_needs_selection(
    before: Application,
    after: Application,
    result: Result<(), Error>,
)
    requires
        delete_spec(before, after, result),
        before.has_buffer(),
        before.mode is Normal || before.mode is Insert,
    ensures
        result is Err,
        result->Err_0.kind() == ErrorKind::ModeMismatch,
        after == before,
{
}

/// In normal and in insert mode, with a buffer at hand, `copy` fails for want
/// of a fitting mode and changes nothing.
pub proof fn lemma_copy_needs_selection(
    before: Application,
    sync: ClipboardSync,
    after: Application,
    result: Result<(), Error>,
)
    requires
        copy_spec(before, sync, after, result),
        before.has_buffer(),
        before.mode is Normal || before.mode is Insert,
    ensures
        result is Err,
        result->Err_0.kind() == ErrorKind::ModeMismatch,
        after == before,
{
}

/// In normal and in insert mode, with a buffer at hand, `sort_lines` fails
/// for want of a fitting mode and changes nothing.
pub proof fn lemma_sort_lines_needs_selection(
    before: Application,
    after: Application,
    result: Result<(), Error>,
)
    requires
        sort_lines_spec(before, after, result),
        before.has_buffer(),
        before.mode is Normal || before.mode is Insert,
    ensures
        result is Err,
        result->Err_0.kind() == ErrorKind::ModeMismatch,
        after == before,
{
}

/// `sort_lines` is one step for undo: whatever it changes in the buffer goes
/// into one group of changes, which is closed when the command returns. The
/// history is one step longer than before, and no group is left open.
pub proof fn lemma_sort_lines_is_one_step(
    before: Application,
    after: Application,
    result: Result<(), Error>,
)
    requires
        sort_lines_spec(before, after, result),
        result is Ok,
    ensures
        after.content().history == before.content().history + 1,
        after.content().group is None,
{
}

/// Once `select_all` has run on a buffer, the application is in select-line
/// mode with its anchor on the first line, and the text is as it was. The
/// cursor is on the last line of the text if the buffer has a place where
/// the cursor was sent to, and on the first line only if it has none. In a
/// text without carriage returns the last line is the last of the lines that
/// the newlines make: its number is one less than the number of lines.
pub proof fn lemma_select_all_selects_lines(
    before: Application,
    after: Application,
    result: Result<(), Error>,
)
    requires
        select_all_spec(before, after, result),
        before.has_buffer(),
    ensures
        result is Ok,
        after.mode == Mode::SelectLine(SelectLineMode { anchor: 0 }),
        after.content().text == before.content().text,
        ({
            let aim = before.content().moved_to_first_line().last_line_aim();
            if after.content().has_position(aim) {
                &&& after.content().cursor == aim
                &&& after.content().cursor.line == last_line(before.content().text) as usize
                &&& (before.content().text.len() <= usize::MAX && forall|i: int|
                    0 <= i < before.content().text.len() ==> before.content().text[i] != '\r')
                    ==> after.content().cursor.line + 1 == line_count(before.content().text)
            } else {
                after.content().cursor.line == 0
            }
        }),
        selected_range(after.mode, after.content()) is Some,
        selected_range(after.mode, after.content())->0.start() == (Position { line: 0, offset: 0 }),
        selected_range(after.mode, after.content())->0.end() == inclusive_end(
            LineRange::spanning(0, after.content().cursor.line),
            before.content().text,
        ),
        LineRange::spanning(0, after.content().cursor.line).end() == after.content().cursor.line,
{
    broadcast use group_spanning;

    lemma_inclusive_span(
        LineRange::spanning(0, after.content().cursor.line),
        before.content().text,
    );
    lemma_last_line_bound(before.content().text);
    if forall|i: int| 0 <= i < before.content().text.len() ==> before.content().text[i] != '\r' {
        lemma_last_line_without_carriage_returns(before.content().text);
    }
}

/// A second `select_all` leaves what the first has made: the same mode, the
/// same anchor, and the cursor where it was.
pub proof fn lemma_select_all_twice(
    before: Application,
    once: Application,
    first: Result<(), Error>,
    twice: Application,
    second: Result<(), Error>,
)
    requires
        select_all_spec(before, once, first),
        select_all_spec(once, twice, second),
        before.has_buffer(),
    ensures
        second is Ok,
        twice.mode == once.mode,
        twice.content() == once.content(),
{
}

} // verus!
