//! Selection and clipboard commands of a modal text editor, verified with Verus.
//!
//! A command is given the state of the application: the mode it is in, its
//! current buffer and its clipboard. From the mode and the buffer's cursor it
//! works out a span of the buffer, and deletes, copies or sorts what the span
//! holds.

pub mod errors;
pub mod position;
pub mod text;
pub mod buffer;
pub mod util;
pub mod models;
pub mod commands;
