use amp::errors::{Error, ErrorKind};
use amp::models::application::{
    Application, Clipboard, ClipboardContent, ClipboardSync, Mode, ResultSet, SearchMode,
    Workspace,
};
use amp::position::{LineRange, Position, Range};
use amp::util::{inclusive_range, length_of_line, span_lines};
use amp::buffer::new_buffer;
use scribe::Buffer;

fn buffer_with(text: &str) -> Buffer {
    let mut buffer = Buffer::new();
    buffer.insert(text);
    buffer
}

#[test]
fn position_new_is_the_start_of_the_buffer() {
    assert_eq!(Position::new(), Position { line: 0, offset: 0 });
}

#[test]
fn positions_are_ordered_by_line_then_offset() {
    let early = Position { line: 1, offset: 7 };
    let late = Position { line: 2, offset: 0 };
    assert!(early.is_before(&late));
    assert!(!late.is_before(&early));
    assert!(!early.is_before(&early));
    assert!(Position { line: 1, offset: 6 }.is_before(&early));
    assert!(!Position { line: 1, offset: 8 }.is_before(&early));
}

#[test]
fn range_new_puts_the_earlier_position_first() {
    let early = Position { line: 1, offset: 7 };
    let late = Position { line: 2, offset: 0 };
    let range = Range::new(late, early);
    assert_eq!(range.start(), early);
    assert_eq!(range.end(), late);
    let range = Range::new(early, late);
    assert_eq!(range.start(), early);
    assert_eq!(range.end(), late);
    assert_eq!(Range::new(early, late), Range::new(late, early));
    let empty = Range::new(early, early);
    assert_eq!(empty.start(), early);
    assert_eq!(empty.end(), early);
}

#[test]
fn line_range_new_puts_the_lower_line_first() {
    let lines = LineRange::new(5, 2);
    assert_eq!(lines.start(), 2);
    assert_eq!(lines.end(), 5);
    let lines = LineRange::new(2, 5);
    assert_eq!(lines.start(), 2);
    assert_eq!(lines.end(), 5);
    let lines = LineRange::new(3, 3);
    assert_eq!(lines.start(), 3);
    assert_eq!(lines.end(), 3);
}

#[test]
fn inclusive_range_ends_at_the_start_of_the_next_line() {
    let buffer = buffer_with("amp\neditor\nbuffer");
    let range = inclusive_range(&LineRange::new(1, 0), &buffer);
    assert_eq!(range.start(), Position { line: 0, offset: 0 });
    assert_eq!(range.end(), Position { line: 2, offset: 0 });
    let range = inclusive_range(&LineRange::new(1, 1), &buffer);
    assert_eq!(range.start(), Position { line: 1, offset: 0 });
    assert_eq!(range.end(), Position { line: 2, offset: 0 });
}

#[test]
fn inclusive_range_ends_at_the_end_of_the_last_line() {
    let buffer = buffer_with("amp\neditor\nbuffer");
    let range = inclusive_range(&LineRange::new(1, 2), &buffer);
    assert_eq!(range.start(), Position { line: 1, offset: 0 });
    assert_eq!(range.end(), Position { line: 2, offset: 6 });

    // A text that ends in a newline has an empty last line.
    let buffer = buffer_with("amp\neditor\n");
    let range = inclusive_range(&LineRange::new(1, 1), &buffer);
    assert_eq!(range.end(), Position { line: 2, offset: 0 });
    let range = inclusive_range(&LineRange::new(2, 2), &buffer);
    assert_eq!(range.start(), Position { line: 2, offset: 0 });
    assert_eq!(range.end(), Position { line: 2, offset: 0 });
}

#[test]
fn inclusive_range_measures_the_last_line_in_graphemes() {
    let buffer = buffer_with("amp\ne\u{301}d");
    let range = inclusive_range(&LineRange::new(1, 1), &buffer);
    assert_eq!(range.end(), Position { line: 1, offset: 2 });
}

#[test]
fn inclusive_range_of_lines_beyond_the_text_ends_at_offset_zero() {
    let buffer = buffer_with("amp\neditor");
    let range = inclusive_range(&LineRange::new(1, 9), &buffer);
    assert_eq!(range.start(), Position { line: 1, offset: 0 });
    assert_eq!(range.end(), Position { line: 9, offset: 0 });
    let range = inclusive_range(&LineRange::new(0, usize::MAX), &buffer);
    assert_eq!(range.end(), Position { line: usize::MAX, offset: 0 });
}

#[test]
fn inclusive_range_of_an_empty_buffer_is_empty() {
    let buffer = Buffer::new();
    let range = inclusive_range(&LineRange::new(0, 0), &buffer);
    assert_eq!(range.start(), Position { line: 0, offset: 0 });
    assert_eq!(range.end(), Position { line: 0, offset: 0 });
}

#[test]
fn clipboard_starts_empty_and_holds_what_was_set_last() {
    let mut clipboard = Clipboard::new();
    assert_eq!(clipboard.get_content(), &ClipboardContent::Empty);
    let set = clipboard.set_content(
        ClipboardContent::Inline(String::from("amp")),
        ClipboardSync::Synced,
    );
    assert_eq!(set, Ok(()));
    assert_eq!(clipboard.get_content(), &ClipboardContent::Inline(String::from("amp")));
    let set = clipboard.set_content(
        ClipboardContent::Block(String::from("editor\n")),
        ClipboardSync::Synced,
    );
    assert_eq!(set, Ok(()));
    assert_eq!(clipboard.get_content(), &ClipboardContent::Block(String::from("editor\n")));
}

#[test]
fn clipboard_keeps_the_content_when_the_sync_failed() {
    let mut clipboard = Clipboard::new();
    let set = clipboard.set_content(
        ClipboardContent::Inline(String::from("amp")),
        ClipboardSync::Failed,
    );
    assert_eq!(set, Err(Error::ClipboardSync));
    assert_eq!(clipboard.get_content(), &ClipboardContent::Inline(String::from("amp")));
}

#[test]
fn clipboard_tells_inline_from_block() {
    let inline = ClipboardContent::Inline(String::from("amp"));
    let block = ClipboardContent::Block(String::from("amp"));
    assert_ne!(inline, block);
    assert!(matches!(inline, ClipboardContent::Inline(_)));
    assert!(matches!(block, ClipboardContent::Block(_)));
}

#[test]
fn result_set_selects_the_match_at_its_index() {
    let first = Range::new(Position { line: 0, offset: 0 }, Position { line: 0, offset: 2 });
    let second = Range::new(Position { line: 3, offset: 1 }, Position { line: 3, offset: 3 });
    assert_eq!(ResultSet::new(vec![first, second], 0).selection(), Some(first));
    assert_eq!(ResultSet::new(vec![first, second], 1).selection(), Some(second));
    assert_eq!(ResultSet::new(vec![first, second], 2).selection(), None);
    assert_eq!(ResultSet::new(Vec::new(), 0).selection(), None);
}

#[test]
fn search_mode_has_a_selection_once_there_are_results() {
    let only = Range::new(Position { line: 0, offset: 0 }, Position { line: 0, offset: 2 });
    assert_eq!(SearchMode { results: None }.selection(), None);
    assert_eq!(
        SearchMode { results: Some(ResultSet::new(vec![only], 0)) }.selection(),
        Some(only)
    );
    assert_eq!(SearchMode { results: Some(ResultSet::new(vec![only], 5)) }.selection(), None);
}

#[test]
fn workspace_hands_back_the_buffer_that_was_current() {
    let mut workspace = Workspace::new();
    assert!(workspace.current_buffer().is_none());
    assert!(workspace.add_buffer(buffer_with("amp")).is_none());
    assert_eq!(workspace.current_buffer().unwrap().data(), "amp");
    let previous = workspace.add_buffer(buffer_with("editor"));
    assert_eq!(previous.unwrap().data(), "amp");
    assert_eq!(workspace.current_buffer().unwrap().data(), "editor");
}

#[test]
fn application_starts_in_normal_mode_without_a_buffer() {
    let mut app = Application::new();
    assert_eq!(app.mode, Mode::Normal);
    assert!(app.workspace.current_buffer().is_none());
    assert_eq!(app.clipboard.get_content(), &ClipboardContent::Empty);
}

#[test]
fn errors_fall_into_their_kinds() {
    assert_eq!(Error::BufferMissing.kind(), ErrorKind::Precondition);
    assert_eq!(Error::SelectionMissing.kind(), ErrorKind::Precondition);
    assert_eq!(Error::DeleteOutsideSelectModes.kind(), ErrorKind::ModeMismatch);
    assert_eq!(Error::CopyOutsideSelectModes.kind(), ErrorKind::ModeMismatch);
    assert_eq!(Error::SortOutsideSelectLineMode.kind(), ErrorKind::ModeMismatch);
    assert_eq!(Error::UnreadableSelection.kind(), ErrorKind::Read);
    assert_eq!(Error::UnreadableLines.kind(), ErrorKind::Read);
    assert_eq!(Error::ClipboardSync.kind(), ErrorKind::ClipboardSync);
}

#[test]
fn errors_have_messages() {
    assert_eq!(Error::BufferMissing.message(), "No buffer available");
    assert_eq!(
        Error::SelectionMissing.message(),
        "Can't delete in search mode without a selected result"
    );
    assert_eq!(
        Error::DeleteOutsideSelectModes.message(),
        "Can't delete selections outside of select mode"
    );
    assert_eq!(
        Error::CopyOutsideSelectModes.message(),
        "Can't copy data to clipboard outside of select modes"
    );
    assert_eq!(
        Error::SortOutsideSelectLineMode.message(),
        "Can't sort lines outside of select line mode"
    );
    assert_eq!(Error::UnreadableSelection.message(), "Couldn't read selected data from buffer");
    assert_eq!(Error::UnreadableLines.message(), "Couldn't read lines to sort from buffer");
    assert_eq!(Error::ClipboardSync.message(), "Failed to update system clipboard");
}

#[test]
fn span_lines_goes_by_the_number_of_lines() {
    // A text of three lines, the last of them six long.
    let range = span_lines(&LineRange::new(1, 0), 3, 6);
    assert_eq!(range.start(), Position { line: 0, offset: 0 });
    assert_eq!(range.end(), Position { line: 2, offset: 0 });
    let range = span_lines(&LineRange::new(2, 1), 3, 6);
    assert_eq!(range.start(), Position { line: 1, offset: 0 });
    assert_eq!(range.end(), Position { line: 2, offset: 6 });
    let range = span_lines(&LineRange::new(4, 4), 3, 0);
    assert_eq!(range.start(), Position { line: 4, offset: 0 });
    assert_eq!(range.end(), Position { line: 4, offset: 0 });
    let range = span_lines(&LineRange::new(usize::MAX, 0), usize::MAX, 2);
    assert_eq!(range.end(), Position { line: usize::MAX, offset: 2 });
}

#[test]
fn length_of_line_counts_graphemes() {
    let buffer = buffer_with("amp\ne\u{301}d\n\nbuffer");
    assert_eq!(length_of_line(&buffer, 0), 3);
    assert_eq!(length_of_line(&buffer, 1), 2);
    assert_eq!(length_of_line(&buffer, 2), 0);
    assert_eq!(length_of_line(&buffer, 3), 6);
    assert_eq!(length_of_line(&buffer, 4), 0);
    assert_eq!(length_of_line(&Buffer::new(), 0), 0);
}

#[test]
fn capped_positions_lie_below_the_highest_line() {
    let ordinary = Position { line: 7, offset: 3 };
    assert_eq!(ordinary.capped(), ordinary);
    let below = Position { line: usize::MAX - 1, offset: 3 };
    assert_eq!(below.capped(), below);
    let highest = Position { line: usize::MAX, offset: 3 };
    assert_eq!(highest.capped(), Position { line: usize::MAX - 1, offset: usize::MAX });
}

#[test]
fn capped_ranges_end_below_the_highest_line() {
    let start = Position { line: 1, offset: 2 };
    let range = Range::new(start, Position { line: 4, offset: 0 });
    assert_eq!(range.capped(), range);
    let range = Range::new(start, Position { line: usize::MAX, offset: 0 });
    assert_eq!(range.capped().start(), start);
    assert_eq!(range.capped().end(), Position { line: usize::MAX - 1, offset: usize::MAX });
    let highest = Position { line: usize::MAX, offset: 9 };
    let range = Range::new(highest, Position { line: usize::MAX, offset: 1 });
    assert_eq!(range.capped().start(), range.capped().end());
    assert_eq!(range.capped().end().line, usize::MAX - 1);
}

#[test]
fn new_buffer_is_empty_with_its_cursor_at_the_start() {
    let mut buffer = new_buffer();
    assert_eq!(buffer.data(), "");
    assert_eq!((buffer.cursor.line, buffer.cursor.offset), (0, 0));
    assert_eq!(buffer.line_count(), 1);
    // Nothing is there to undo.
    buffer.undo();
    assert_eq!(buffer.data(), "");
    // The cursor remembers the start: it goes there on the first line.
    buffer.insert("amp\neditor");
    buffer.cursor.move_to_last_line();
    assert_eq!((buffer.cursor.line, buffer.cursor.offset), (1, 0));
}
