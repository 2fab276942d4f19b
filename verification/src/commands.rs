//! The commands.

pub mod application;
pub mod selection;
