//! The state that the commands work on.

pub mod application;
