//! The application: its mode, its current buffer and its clipboard.

use vstd::prelude::*;
use scribe::Buffer;
use crate::buffer::{buffer_sound, content, Content};
use crate::errors::Error;
use crate::position::{Position, Range};

verus! {

/// What was copied last: text from within lines, to be pasted at the cursor,
/// or whole lines, to be pasted as lines; or nothing yet.
#[derive(Debug, PartialEq, Eq)]
pub enum ClipboardContent {
    Inline(String),
    Block(String),
    Empty,
}

/// What a clipboard holds, as text.
pub enum Copied {
    Inline(Seq<char>),
    Block(Seq<char>),
    Empty,
}

impl View for ClipboardContent {
    type V = Copied;

    open spec fn view(&self) -> Copied {
        match *self {
            ClipboardContent::Inline(text) => Copied::Inline(text@),
            ClipboardContent::Block(text) => Copied::Block(text@),
            ClipboardContent::Empty => Copied::Empty,
        }
    }
}

/// What became of handing copied text on to the system clipboard. The caller
/// does that, and tells the command how it went.
#[derive(Clone, Copy, Debug, PartialEq, Eq, Structural)]
pub enum ClipboardSync {
    /// The system clipboard took the text, or there is none to take it.
    Synced,
    /// The system clipboard did not take the text.
    Failed,
}

/// The clipboard of the application. It holds what was copied last, and
/// nothing of what was copied before.
pub struct Clipboard {
    content: ClipboardContent,
}

impl View for Clipboard {
    type V = Copied;

    closed spec fn view(&self) -> Copied {
        self.content@
    }
}

impl Clipboard {
    /// An empty clipboard.
    pub fn new() -> (clipboard: Clipboard)
        ensures
            clipboard@ == Copied::Empty,
    {
        Clipboard { content: ClipboardContent::Empty }
    }

    /// What the clipboard holds.
    pub fn get_content(&self) -> (content: &ClipboardContent)
        ensures
            content@ == self@,
    {
        &self.content
    }

    /// Replaces what the clipboard holds, whatever became of handing the
    /// content on to the system clipboard; fails if that failed.
    pub fn set_content(&mut self, content: ClipboardContent, sync: ClipboardSync) -> (result:
        Result<(), Error>)
        ensures
            final(self)@ == content@,
            result == if sync == ClipboardSync::Failed {
                Err::<(), Error>(Error::ClipboardSync)
            } else {
                Ok::<(), Error>(())
            },
    {
        self.content = content;
        match sync {
            ClipboardSync::Synced => Ok(()),
            ClipboardSync::Failed => Err(Error::ClipboardSync),
        }
    }
}

/// Select mode: a selection by characters, between the anchor and the cursor.
#[derive(Clone, Copy, Debug, PartialEq, Eq, Structural)]
pub struct SelectMode {
    pub anchor: Position,
}

/// Select-line mode: a selection by whole lines, between the anchor's line
/// and the cursor's.
#[derive(Clone, Copy, Debug, PartialEq, Eq, Structural)]
pub struct SelectLineMode {
    pub anchor: usize,
}

/// The matches of a search, one of which may be selected.
#[derive(Debug, PartialEq, Eq)]
pub struct ResultSet {
    pub matches: Vec<Range>,
    pub selected_index: usize,
}

impl ResultSet {
    /// The selected match, if there is one.
    pub open spec fn spec_selection(&self) -> Option<Range> {
        if self.selected_index < self.matches@.len() {
            Some(self.matches@[self.selected_index as int])
        } else {
            None
        }
    }

    /// The given matches, with the one at `selected_index` selected.
    pub fn new(matches: Vec<Range>, selected_index: usize) -> (results: ResultSet)
        ensures
            results.matches == matches,
            results.selected_index == selected_index,
    {
        ResultSet { matches, selected_index }
    }

    /// The selected match, if there is one.
    #[verifier::when_used_as_spec(spec_selection)]
    pub fn selection(&self) -> (selected: Option<Range>)
        ensures
            selected == self.spec_selection(),
    {
        if self.selected_index < self.matches.len() {
            Some(self.matches[self.selected_index])
        } else {
            None
        }
    }
}

/// Search mode: the results of the search, once a query has been accepted.
#[derive(Debug, PartialEq, Eq)]
pub struct SearchMode {
    pub results: Option<ResultSet>,
}

impl SearchMode {
    /// The selected match of the search, if a query has been accepted and a
    /// match is selected.
    pub open spec fn spec_selection(&self) -> Option<Range> {
        match self.results {
            Some(results) => results.selection(),
            None => None,
        }
    }

    /// The selected match of the search, if a query has been accepted and a
    /// match is selected.
    #[verifier::when_used_as_spec(spec_selection)]
    pub fn selection(&self) -> (selected: Option<Range>)
        ensures
            selected == self.spec_selection(),
    {
        match &self.results {
            Some(results) => results.selection(),
            None => None,
        }
    }
}

/// The mode that the application is in. One mode is current at any time.
#[derive(Debug, PartialEq, Eq)]
pub enum Mode {
    Normal,
    Insert,
    Select(SelectMode),
    SelectLine(SelectLineMode),
    Search(SearchMode),
}

/// The part of the editor's workspace that the commands work on: the current
/// buffer, if there is one. The workspace itself, with its other buffers and
/// its directory on disk, stays with the editor.
pub struct Workspace {
    pub buffer: Option<Buffer>,
}

impl Workspace {
    /// Whether the current buffer, if there is one, is sound.
    pub open spec fn sound(&self) -> bool {
        self.buffer matches Some(buffer) ==> buffer_sound(buffer)
    }

    /// A workspace without a buffer.
    pub fn new() -> (workspace: Workspace)
        ensures
            workspace.buffer is None,
    {
        Workspace { buffer: None }
    }

    /// Makes a buffer the current one, and hands back the one that was.
    pub fn add_buffer(&mut self, buffer: Buffer) -> (previous: Option<Buffer>)
        ensures
            final(self).buffer == Some(buffer),
            previous == old(self).buffer,
    {
        let previous = self.buffer.take();
        self.buffer = Some(buffer);
        previous
    }

    /// The current buffer, if there is one.
    pub fn current_buffer(&mut self) -> (buffer: Option<&mut Buffer>)
        ensures
            match old(self).buffer {
                Some(current) => buffer is Some && *buffer->0 == current && final(self).buffer
                    == Some(*final(buffer->0)),
                None => buffer is None && final(self).buffer is None,
            },
    {
        self.buffer.as_mut()
    }
}

/// The state of the application that the commands work on.
pub struct Application {
    pub mode: Mode,
    pub workspace: Workspace,
    pub clipboard: Clipboard,
}

impl Application {
    /// Whether there is a current buffer.
    pub open spec fn has_buffer(&self) -> bool {
        self.workspace.buffer is Some
    }

    /// Whether the current buffer, if there is one, is sound: the commands
    /// ask for that, and leave it so.
    pub open spec fn sound(&self) -> bool {
        self.workspace.sound()
    }

    /// What the current buffer holds.
    pub open spec fn content(&self) -> Content
        recommends
            self.has_buffer(),
    {
        content(self.workspace.buffer->0)
    }

    /// An application in normal mode, without a buffer, its clipboard empty.
    pub fn new() -> (app: Application)
        ensures
            app.mode == Mode::Normal,
            !app.has_buffer(),
            app.sound(),
            app.clipboard@ == Copied::Empty,
    {
        Application { mode: Mode::Normal, workspace: Workspace::new(), clipboard: Clipboard::new() }
    }
}

} // verus!
