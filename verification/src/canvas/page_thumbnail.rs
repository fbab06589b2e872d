//! Change detection for page thumbnails.
use vstd::prelude::*;

verus! {

/// Check if page content has changed (simple version): the page's hash is its number
/// of elements, and the page changed when no hash was recorded or the recorded one
/// differs.
pub fn has_page_changed(element_count: usize, last_hash: Option<u64>) -> (res: bool)
    ensures
        res == match last_hash {
            Some(h) => h != element_count,
            None => true,
        },
{
    let current_hash = element_count as u64;
    match last_hash {
        Some(h) => h != current_hash,
        None => true,
    }
}

} // verus!
