//! Changes of mode.

use vstd::prelude::*;
use crate::buffer::cursor;
use crate::errors::Error;
use crate::models::application::{Application, Mode, SelectLineMode, SelectMode};

verus! {

/// Puts the application in normal mode.
pub fn switch_to_normal_mode(app: &mut Application) -> (result: Result<(), Error>)
    ensures
        result is Ok,
        final(app).mode == Mode::Normal,
        final(app).workspace == old(app).workspace,
        final(app).clipboard == old(app).clipboard,
{
    app.mode = Mode::Normal;
    Ok(())
}

/// Puts the application in insert mode. Fails, and changes nothing, if there
/// is no current buffer.
pub fn switch_to_insert_mode(app: &mut Application) -> (result: Result<(), Error>)
    ensures
        final(app).workspace == old(app).workspace,
        final(app).clipboard == old(app).clipboard,
        old(app).has_buffer() ==> result is Ok && final(app).mode == Mode::Insert,
        !old(app).has_buffer() ==> result == Err::<(), Error>(Error::BufferMissing)
            && final(app).mode == old(app).mode,
{
    if app.workspace.buffer.is_some() {
        app.mode = Mode::Insert;
        Ok(())
    } else {
        Err(Error::BufferMissing)
    }
}

/// Puts the application in select mode, with the anchor where the cursor is.
/// Fails, and changes nothing, if there is no current buffer.
pub fn switch_to_select_mode(app: &mut Application) -> (result: Result<(), Error>)
    requires
        old(app).sound(),
    ensures
        final(app).workspace == old(app).workspace,
        final(app).clipboard == old(app).clipboard,
        old(app).has_buffer() ==> result is Ok && final(app).mode == Mode::Select(
            SelectMode { anchor: old(app).content().cursor },
        ),
        !old(app).has_buffer() ==> result == Err::<(), Error>(Error::BufferMissing)
            && final(app).mode == old(app).mode,
{
    match &app.workspace.buffer {
        Some(buffer) => {
            app.mode = Mode::Select(SelectMode { anchor: cursor(buffer) });
            Ok(())
        },
        None => Err(Error::BufferMissing),
    }
}

/// Puts the application in select-line mode, with the anchor on the cursor's
/// line. Fails, and changes nothing, if there is no current buffer.
pub fn switch_to_select_line_mode(app: &mut Application) -> (result: Result<(), Error>)
    requires
        old(app).sound(),
    ensures
        final(app).workspace == old(app).workspace,
        final(app).clipboard == old(app).clipboard,
        old(app).has_buffer() ==> result is Ok && final(app).mode == Mode::SelectLine(
            SelectLineMode { anchor: old(app).content().cursor.line },
        ),
        !old(app).has_buffer() ==> result == Err::<(), Error>(Error::BufferMissing)
            && final(app).mode == old(app).mode,
{
    match &app.workspace.buffer {
        Some(buffer) => {
            app.mode = Mode::SelectLine(SelectLineMode { anchor: cursor(buffer).line });
            Ok(())
        },
        None => Err(Error::BufferMissing),
    }
}

} // verus!
