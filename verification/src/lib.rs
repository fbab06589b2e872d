//! Editing logic of the Testruct desktop canvas: text editing, selection,
//! keyboard command decoding, clipboard bookkeeping and user-facing messages.

pub mod error;
pub mod text_bytes;
pub mod canvas;
pub mod clipboard;
pub mod export;
pub mod io;
pub mod dialogs;
