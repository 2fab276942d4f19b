//! Why a command did not run.

use vstd::prelude::*;
use vstd::string::StringExecFns;

verus! {

/// The families that the reasons for a failed command fall into.
#[derive(Clone, Copy, Debug, PartialEq, Eq, Structural)]
pub enum ErrorKind {
    /// Something that the command works on is missing.
    Precondition,
    /// The command does not run in the current mode.
    ModeMismatch,
    /// The system clipboard did not take the copied text.
    ClipboardSync,
    /// The buffer could not read a span that the command worked out.
    Read,
}

/// Why a command did not run. None of these ends the program: each is handed
/// back to the caller, to be shown to the user.
#[derive(Clone, Copy, Debug, PartialEq, Eq, Structural)]
pub enum Error {
    /// There is no current buffer.
    BufferMissing,
    /// Search mode has no selected result to work on.
    SelectionMissing,
    /// A deletion was asked for in a mode that selects nothing.
    DeleteOutsideSelectModes,
    /// A copy was asked for outside select and select-line mode.
    CopyOutsideSelectModes,
    /// Sorting was asked for outside select-line mode.
    SortOutsideSelectLineMode,
    /// The buffer could not read the selection.
    UnreadableSelection,
    /// The buffer could not read the lines to sort.
    UnreadableLines,
    /// The system clipboard did not take the copied text.
    ClipboardSync,
}

impl Error {
    /// The family that the error belongs to.
    pub open spec fn spec_kind(&self) -> ErrorKind {
        match *self {
            Error::BufferMissing | Error::SelectionMissing => ErrorKind::Precondition,
            Error::DeleteOutsideSelectModes
            | Error::CopyOutsideSelectModes
            | Error::SortOutsideSelectLineMode => ErrorKind::ModeMismatch,
            Error::UnreadableSelection | Error::UnreadableLines => ErrorKind::Read,
            Error::ClipboardSync => ErrorKind::ClipboardSync,
        }
    }

    /// The family that the error belongs to.
    #[verifier::when_used_as_spec(spec_kind)]
    pub fn kind(&self) -> (kind: ErrorKind)
        ensures
            kind == self.spec_kind(),
    {
        match self {
            Error::BufferMissing | Error::SelectionMissing => ErrorKind::Precondition,
            Error::DeleteOutsideSelectModes
            | Error::CopyOutsideSelectModes
            | Error::SortOutsideSelectLineMode => ErrorKind::ModeMismatch,
            Error::UnreadableSelection | Error::UnreadableLines => ErrorKind::Read,
            Error::ClipboardSync => ErrorKind::ClipboardSync,
        }
    }

    /// The words in which the error is shown to the user.
    pub open spec fn message_text(&self) -> Seq<char> {
        match *self {
            Error::BufferMissing => "No buffer available"@,
            Error::SelectionMissing => "Can't delete in search mode without a selected result"@,
            Error::DeleteOutsideSelectModes => "Can't delete selections outside of select mode"@,
            Error::CopyOutsideSelectModes => "Can't copy data to clipboard outside of select modes"@,
            Error::SortOutsideSelectLineMode => "Can't sort lines outside of select line mode"@,
            Error::UnreadableSelection => "Couldn't read selected data from buffer"@,
            Error::UnreadableLines => "Couldn't read lines to sort from buffer"@,
            Error::ClipboardSync => "Failed to update system clipboard"@,
        }
    }

    /// The words in which the error is shown to the user.
    pub fn message(&self) -> (text: String)
        ensures
            text@ == self.message_text(),
    {
        match self {
            Error::BufferMissing => String::from_str("No buffer available"),
            Error::SelectionMissing => String::from_str(
                "Can't delete in search mode without a selected result",
            ),
            Error::DeleteOutsideSelectModes => String::from_str(
                "Can't delete selections outside of select mode",
            ),
            Error::CopyOutsideSelectModes => String::from_str(
                "Can't copy data to clipboard outside of select modes",
            ),
            Error::SortOutsideSelectLineMode => String::from_str(
                "Can't sort lines outside of select line mode",
            ),
            Error::UnreadableSelection => String::from_str(
                "Couldn't read selected data from buffer",
            ),
            Error::UnreadableLines => String::from_str("Couldn't read lines to sort from buffer"),
            Error::ClipboardSync => String::from_str("Failed to update system clipboard"),
        }
    }
}

} // verus!
