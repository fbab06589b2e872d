use testruct_ui::clipboard::{
    clear_clipboard, clipboard_content_count, copy_to_clipboard, estimate_text_bounds,
    get_paste_offset, has_clipboard_content, parse_png_dimensions, paste_from_clipboard,
    reset_paste_offset, ClipboardData, ClipboardStore,
};

#[derive(Clone, Debug, PartialEq)]
struct TestText {
    id: u128,
    x: f32,
    y: f32,
    content: String,
}

fn create_test_text(x: f32, y: f32, content: &str) -> TestText {
    TestText { id: uuid::Uuid::new_v4().as_u128(), x, y, content: content.to_string() }
}

/// What a paste hands to the document: the copied elements with their new ids, moved by
/// the offset.
fn pasted(store: &mut ClipboardStore<TestText>) -> Option<Vec<TestText>> {
    let (copies, offset) = paste_from_clipboard(store)?;
    Some(
        copies
            .into_iter()
            .map(|(id, e)| TestText {
                id,
                x: e.x + offset.0 as f32,
                y: e.y + offset.1 as f32,
                content: e.content,
            })
            .collect(),
    )
}

#[test]
fn test_copy_to_clipboard() {
    let mut store = ClipboardStore::new();
    clear_clipboard(&mut store);

    let text = create_test_text(0.0, 0.0, "Test");
    copy_to_clipboard(&mut store, vec![text]);

    assert!(has_clipboard_content(&store));
    assert_eq!(clipboard_content_count(&store), 1);
    clear_clipboard(&mut store);
}

#[test]
fn test_paste_from_clipboard() {
    let mut store = ClipboardStore::new();
    clear_clipboard(&mut store);

    let text = create_test_text(0.0, 0.0, "Test");
    let original_id = text.id;
    copy_to_clipboard(&mut store, vec![text]);

    let pasted_elems = pasted(&mut store);
    assert!(pasted_elems.is_some());

    let pasted_elems = pasted_elems.unwrap();
    assert_eq!(pasted_elems.len(), 1);
    assert_eq!(pasted_elems[0].content, "Test");
    // Check that ID was regenerated
    assert_ne!(pasted_elems[0].id, original_id);
    // Check offset applied
    assert_eq!(pasted_elems[0].x, 20.0);
    assert_eq!(pasted_elems[0].y, 20.0);
    clear_clipboard(&mut store);
}

#[test]
fn test_clear_clipboard() {
    let mut store = ClipboardStore::new();
    let text = create_test_text(0.0, 0.0, "Test");
    copy_to_clipboard(&mut store, vec![text]);
    assert!(has_clipboard_content(&store));

    clear_clipboard(&mut store);
    assert!(!has_clipboard_content(&store));
}

#[test]
fn test_clipboard_content_count() {
    let mut store = ClipboardStore::new();
    clear_clipboard(&mut store);

    let text1 = create_test_text(0.0, 0.0, "Test1");
    let text2 = create_test_text(0.0, 30.0, "Test2");

    copy_to_clipboard(&mut store, vec![text1, text2]);

    assert_eq!(clipboard_content_count(&store), 2);
    clear_clipboard(&mut store);
}

#[test]
fn test_multiple_paste_operations() {
    let mut store = ClipboardStore::new();
    clear_clipboard(&mut store);

    let text = create_test_text(0.0, 0.0, "Test");
    copy_to_clipboard(&mut store, vec![text]);

    // First paste
    let pasted1 = pasted(&mut store);
    let pasted2 = pasted(&mut store);

    assert!(pasted1.is_some());
    assert!(pasted2.is_some());

    // IDs should be different
    if let (Some(p1), Some(p2)) = (pasted1, pasted2) {
        assert_ne!(p1[0].id, p2[0].id);
        assert_eq!(p2[0].x, 40.0);
    }
    clear_clipboard(&mut store);
}

#[test]
fn paste_offsets_cycle_every_ten() {
    let mut store: ClipboardStore<u8> = ClipboardStore::new();
    copy_to_clipboard(&mut store, vec![1]);
    let offsets: Vec<u32> = (0..11).map(|_| paste_from_clipboard(&mut store).unwrap().1 .0).collect();
    assert_eq!(offsets, vec![20, 40, 60, 80, 100, 120, 140, 160, 180, 0, 20]);
    // a new copy starts over
    copy_to_clipboard(&mut store, vec![2, 3]);
    let (copies, offset) = paste_from_clipboard(&mut store).unwrap();
    assert_eq!(offset, (20, 20));
    assert_eq!(copies.iter().map(|(_, e)| *e).collect::<Vec<u8>>(), vec![2, 3]);
    clear_clipboard(&mut store);
    assert_eq!(paste_from_clipboard(&mut store), None);
    assert_eq!(clipboard_content_count(&store), 0);
}

#[test]
fn external_paste_offsets() {
    let mut store: ClipboardStore<u8> = ClipboardStore::new();
    assert_eq!(get_paste_offset(&mut store), (20, 20));
    assert_eq!(get_paste_offset(&mut store), (40, 40));
    reset_paste_offset(&mut store);
    assert_eq!(get_paste_offset(&mut store), (20, 20));
}

#[test]
fn clipboard_data_counts() {
    let mut data = ClipboardData::new(vec!['a', 'b']);
    assert_eq!(data.len(), 2);
    assert!(!data.is_empty());
    assert_eq!(data.current_offset(), (20, 20));
    data.increment_paste_count();
    assert_eq!(data.current_offset(), (40, 40));
    data.reset_paste_count();
    assert_eq!(data.paste_count, 0);
    assert!(ClipboardData::<u8>::new(vec![]).is_empty());
}

#[test]
fn png_header_dimensions() {
    let mut png = vec![0x89, 0x50, 0x4E, 0x47, 0x0D, 0x0A, 0x1A, 0x0A, 0, 0, 0, 13, b'I', b'H', b'D', b'R'];
    png.extend_from_slice(&[0, 0, 1, 0x2c]); // width 300
    png.extend_from_slice(&[0, 1, 0, 0]); // height 65536
    assert_eq!(parse_png_dimensions(&png), Some((300, 65536)));
    assert_eq!(parse_png_dimensions(&png[..23]), None);
    let mut not_png = png.clone();
    not_png[1] = b'Q';
    assert_eq!(parse_png_dimensions(&not_png), None);
}

#[test]
fn pasted_text_size_estimate() {
    // no lines at all: width from the default of 10 bytes, one line high
    assert_eq!(estimate_text_bounds(""), (100, 24));
    // 20 bytes -> 160 wide; 2 lines -> 40 high
    assert_eq!(estimate_text_bounds("abcdefghijklmnopqrst\nxy\n"), (160, 40));
    // CRLF endings do not count; a lone trailing CR does
    assert_eq!(estimate_text_bounds("abcdefghijklm\r\nx"), (104, 40));
    assert_eq!(estimate_text_bounds("abcdefghijklm\r"), (112, 24));
    // clamped on both axes
    let long = "x".repeat(60);
    assert_eq!(estimate_text_bounds(&long), (400, 24));
    let many = "a\n".repeat(20);
    assert_eq!(estimate_text_bounds(&many), (100, 300));
    // bytes, not characters, are counted
    assert_eq!(estimate_text_bounds("日本語日本語"), (144, 24));
}

#[test]
fn external_offsets_after_reset_cycle() {
    let mut store: ClipboardStore<u8> = ClipboardStore::new();
    get_paste_offset(&mut store);
    get_paste_offset(&mut store);
    reset_paste_offset(&mut store);
    let offsets: Vec<u32> = (0..11).map(|_| get_paste_offset(&mut store).0).collect();
    assert_eq!(offsets, vec![20, 40, 60, 80, 100, 120, 140, 160, 180, 0, 20]);
    copy_to_clipboard(&mut store, vec![1]);
    assert_eq!(get_paste_offset(&mut store), (20, 20));
}
