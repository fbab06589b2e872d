//! File dialogs: default names of exported documents.

pub mod file_dialog;
