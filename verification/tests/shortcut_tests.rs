use testruct_ui::canvas::input::keyboard::paste_text_in_editing;
use testruct_ui::canvas::input::keyboard_shortcuts::{
    clone_selected, copy_selection, cut_selection, duplicate_selected,
};
use testruct_ui::canvas::selection::{SelectionMode, SelectionState};
use testruct_ui::clipboard::{clipboard_content_count, get_paste_offset, ClipboardStore};

fn selection_of(ids: &[u128]) -> SelectionState {
    let mut s = SelectionState::default();
    s.set_mode(SelectionMode::Multiple);
    for id in ids {
        s.add(*id);
    }
    s
}

#[test]
fn copy_takes_selected_in_page_order() {
    let page = vec!["a", "b", "c", "d"];
    let ids = vec![10, 20, 30, 40];
    let sel = selection_of(&[40, 20]);
    let mut store = ClipboardStore::new();
    get_paste_offset(&mut store);
    assert!(copy_selection(&page, &ids, &sel, &mut store));
    assert_eq!(store.data.as_ref().unwrap().elements, vec!["b", "d"]);
    assert_eq!(store.paste_count, 0);
    assert_eq!(page.len(), 4);
}

#[test]
fn copy_without_selection_does_nothing() {
    let page = vec!["a"];
    let ids = vec![10];
    let sel = selection_of(&[]);
    let mut store: ClipboardStore<&str> = ClipboardStore::new();
    assert!(!copy_selection(&page, &ids, &sel, &mut store));
    assert!(store.data.is_none());
}

#[test]
fn cut_moves_selected_and_clears_selection() {
    let mut page = vec!["a", "b", "c", "d"];
    let ids = vec![10, 20, 30, 40];
    let mut sel = selection_of(&[30, 10]);
    let mut store = ClipboardStore::new();
    assert!(cut_selection(&mut page, &ids, &mut sel, &mut store));
    assert_eq!(page, vec!["b", "d"]);
    assert_eq!(store.data.as_ref().unwrap().elements, vec!["a", "c"]);
    assert_eq!(clipboard_content_count(&store), 2);
    assert!(!sel.has_selection());
    assert_eq!(sel.mode(), SelectionMode::Multiple);
}

#[test]
fn cut_without_selection_does_nothing() {
    let mut page = vec!["a", "b"];
    let ids = vec![10, 20];
    let mut sel = selection_of(&[]);
    let mut store: ClipboardStore<&str> = ClipboardStore::new();
    assert!(!cut_selection(&mut page, &ids, &mut sel, &mut store));
    assert_eq!(page, vec!["a", "b"]);
    assert!(store.data.is_none());
}

#[test]
fn selection_of_unknown_ids_copies_nothing() {
    let page = vec![1u8, 2];
    let ids = vec![10, 20];
    let sel = selection_of(&[99]);
    assert!(clone_selected(&page, &ids, &sel).is_empty());
}

#[test]
fn paste_in_editing_inserts_trimmed_text() {
    let mut content = Some("ac".chars().collect::<Vec<char>>());
    let mut cursor = 1;
    assert!(paste_text_in_editing(&mut content, &mut cursor, "  日本\n"));
    assert_eq!(content.unwrap().into_iter().collect::<String>(), "a日本c");
    assert_eq!(cursor, 3);
}

#[test]
fn paste_in_editing_of_blank_text_does_nothing() {
    let mut content = Some(vec!['x']);
    let mut cursor = 1;
    assert!(!paste_text_in_editing(&mut content, &mut cursor, " \t\n"));
    assert_eq!(content, Some(vec!['x']));
    assert_eq!(cursor, 1);
}

#[test]
fn paste_in_editing_past_the_end_moves_only_the_cursor() {
    let mut content = Some(vec!['x']);
    let mut cursor = 5;
    assert!(paste_text_in_editing(&mut content, &mut cursor, "ab"));
    assert_eq!(content, Some(vec!['x']));
    assert_eq!(cursor, 7);
}

#[test]
fn selection_default_is_empty_single() {
    let s = SelectionState::default();
    assert!(!s.has_selection());
    assert_eq!(s.mode(), SelectionMode::Single);
}

#[test]
fn duplicate_gives_fresh_ids_in_page_order() {
    let page = vec!["a", "b", "c"];
    let ids = vec![10, 20, 30];
    let sel = selection_of(&[30, 10]);
    let dups = duplicate_selected(&page, &ids, &sel);
    assert_eq!(dups.iter().map(|(_, e)| *e).collect::<Vec<_>>(), vec!["a", "c"]);
    assert!(dups.iter().all(|(id, _)| !ids.contains(id)));
    assert_ne!(dups[0].0, dups[1].0);
}
