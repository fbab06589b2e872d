//! Dialog contents and decisions.

pub mod about_dialog;
pub mod unsaved_dialog;
