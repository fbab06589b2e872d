//! Pasteboard-based input workaround for macOS
//!
//! GTK4 on macOS does not route input-method signals through a custom drawing area,
//! so text is taken from the system pasteboard instead: the text read from it is
//! checked here for changes.
use vstd::prelude::*;
use crate::text_bytes::{trimmed, trim_str};

verus! {

/// The text a check reports for the pasteboard text `text` when `last` was taken in
/// last: the trimmed text, unless it is empty or the same as `last`.
pub open spec fn clipboard_change(last: Seq<char>, text: Seq<char>) -> Option<Seq<char>> {
    let current = trimmed(text);
    if current.len() > 0 && current != last {
        Some(current)
    } else {
        None
    }
}

/// The text taken in last after a check of `text`.
pub open spec fn last_after_check(last: Seq<char>, text: Seq<char>) -> Seq<char> {
    match clipboard_change(last, text) {
        Some(c) => c,
        None => last,
    }
}

/// A pasteboard text is reported once: a second check of the same text, right after a
/// check of it, reports nothing.
pub proof fn lemma_change_reported_once(last: Seq<char>, text: Seq<char>)
    ensures
        clipboard_change(last_after_check(last, text), text) is None,
{
}

/// macOS IME workaround handler: remembers the last pasteboard text that was taken in.
pub struct MacOSImeWorkaround {
    last_clipboard_content: String,
}

impl MacOSImeWorkaround {
    /// The pasteboard text taken in last (empty before any).
    pub closed spec fn last_seen(&self) -> Seq<char> {
        self.last_clipboard_content@
    }

    /// Create a new macOS IME workaround handler
    pub fn new() -> (res: Self)
        ensures
            res.last_seen() == Seq::<char>::empty(),
    {
        MacOSImeWorkaround { last_clipboard_content: String::new() }
    }

    /// The pasteboard text taken in last.
    pub fn last_clipboard_content(&self) -> (res: &str)
        ensures
            res@ == self.last_seen(),
    {
        self.last_clipboard_content.as_str()
    }

    /// Check whether the pasteboard text changed: given the text just read from it,
    /// returns it trimmed when it is not empty and differs from the text taken in last,
    /// and remembers it.
    pub fn check_clipboard_change(&mut self, clipboard_text: &str) -> (res: Option<String>)
        ensures
            match clipboard_change(old(self).last_seen(), clipboard_text@) {
                Some(c) => res matches Some(s) && s@ == c,
                None => res is None,
            },
            final(self).last_seen() == last_after_check(old(self).last_seen(), clipboard_text@),
    {
        let current = String::from_str(trim_str(clipboard_text));
        if !current.as_str().is_empty() && !current.eq(&self.last_clipboard_content) {
            self.last_clipboard_content = current.clone();
            return Some(current);
        }
        None
    }

    /// Get the current clipboard content: the text read from the pasteboard, trimmed,
    /// when it is not empty.
    pub fn get_clipboard_content(&self, clipboard_text: &str) -> (res: Option<String>)
        ensures
            match res {
                Some(s) => s@ == trimmed(clipboard_text@) && s@.len() > 0,
                None => trimmed(clipboard_text@).len() == 0,
            },
    {
        let trimmed_text = trim_str(clipboard_text);
        if !trimmed_text.is_empty() {
            return Some(String::from_str(trimmed_text));
        }
        None
    }
}

impl Default for MacOSImeWorkaround {
    fn default() -> (res: Self)
        ensures
            res.last_seen() == Seq::<char>::empty(),
    {
        Self::new()
    }
}

} // verus!
