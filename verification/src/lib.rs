//! Core of an ear-training tool: the note-name codec and the settings dialogue.
//!
//! Everything here is pure: functions take text that was typed and return
//! values or errors. Reading lines and driving a sound device is left to the
//! program that uses this library.

pub mod device;
pub mod error;
pub mod modes;
pub mod note_parse;
pub mod options;
pub mod text;
