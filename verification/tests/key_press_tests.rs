use testruct_ui::canvas::input::keyboard::{
    alignment_for_key, alignment_name, handle_key_press, handle_text_editing_key,
    insert_chars_at_cursor, KeyAction, TextAlignment, TextKeyResult,
};

fn chars(s: &str) -> Option<Vec<char>> {
    Some(s.chars().collect())
}

fn text(c: &Option<Vec<char>>) -> String {
    c.as_ref().unwrap().iter().collect()
}

#[test]
fn editing_keys_work_on_characters() {
    let mut content = chars("日本語");
    let mut cursor = 2;
    assert_eq!(handle_text_editing_key(0xff08, None, &mut content, &mut cursor), TextKeyResult::Handled);
    assert_eq!(text(&content), "日語");
    assert_eq!(cursor, 1);
    assert_eq!(handle_text_editing_key(0xffff, None, &mut content, &mut cursor), TextKeyResult::Handled);
    assert_eq!(text(&content), "日");
    assert_eq!(handle_text_editing_key(0xff0d, None, &mut content, &mut cursor), TextKeyResult::Handled);
    assert_eq!(text(&content), "日\n");
    assert_eq!(cursor, 2);
    assert_eq!(handle_text_editing_key(0x61, Some('a'), &mut content, &mut cursor), TextKeyResult::Handled);
    assert_eq!(text(&content), "日\na");
    assert_eq!(cursor, 3);
}

#[test]
fn end_and_right_count_characters() {
    let mut content = chars("あい");
    let mut cursor = 0;
    handle_text_editing_key(0xff57, None, &mut content, &mut cursor);
    assert_eq!(cursor, 2);
    handle_text_editing_key(0xff53, None, &mut content, &mut cursor);
    assert_eq!(cursor, 2);
    handle_text_editing_key(0x75, Some('う'), &mut content, &mut cursor);
    assert_eq!(text(&content), "あいう");
    assert_eq!(cursor, 3);
    handle_text_editing_key(0xff50, None, &mut content, &mut cursor);
    assert_eq!(cursor, 0);
    handle_text_editing_key(0xff53, None, &mut content, &mut cursor);
    assert_eq!(cursor, 1);
    handle_text_editing_key(0xff51, None, &mut content, &mut cursor);
    handle_text_editing_key(0xff51, None, &mut content, &mut cursor);
    assert_eq!(cursor, 0);
}

#[test]
fn escape_control_and_missing_text() {
    let mut content = chars("ab");
    let mut cursor = 1;
    assert_eq!(handle_text_editing_key(0xff1b, None, &mut content, &mut cursor), TextKeyResult::ExitEditing);
    assert_eq!(cursor, 0);
    assert_eq!(handle_text_editing_key(0x1234, Some('\u{7}'), &mut content, &mut cursor), TextKeyResult::Unhandled);
    assert_eq!(handle_text_editing_key(0x1234, None, &mut content, &mut cursor), TextKeyResult::Unhandled);
    let mut missing = None;
    let mut cursor = 3;
    assert_eq!(handle_text_editing_key(0x62, Some('b'), &mut missing, &mut cursor), TextKeyResult::Handled);
    assert_eq!(cursor, 3);
    assert_eq!(handle_text_editing_key(0xff51, None, &mut missing, &mut cursor), TextKeyResult::Handled);
    assert_eq!(cursor, 2);
}

#[test]
fn alignment_keys() {
    assert_eq!(alignment_for_key(0x6c), Some(TextAlignment::Start));
    assert_eq!(alignment_for_key(0x72), Some(TextAlignment::End));
    assert_eq!(alignment_for_key(0x65), Some(TextAlignment::End));
    assert_eq!(alignment_for_key(0x63), Some(TextAlignment::Center));
    assert_eq!(alignment_for_key(0x6a), Some(TextAlignment::Justified));
    assert_eq!(alignment_for_key(0x6b), None);
    assert_eq!(alignment_name(TextAlignment::End), "Right");
    assert_eq!(alignment_name(TextAlignment::Start), "Left");
}

#[test]
fn key_press_dispatch() {
    let mut none = None;
    let mut cursor = 0;
    let mut press = |k: u32, u: Option<char>, ctrl: bool, shift: bool, editing: bool| {
        handle_key_press(k, u, ctrl, shift, editing, &mut none, &mut cursor)
    };
    assert_eq!(press(0x69, Some('i'), true, true, false), KeyAction::InsertImage);
    assert_eq!(press(0x73, Some('s'), true, true, true), KeyAction::SaveTemplate);
    assert_eq!(press(0x63, Some('c'), true, false, false), KeyAction::Copy);
    assert_eq!(press(0x63, Some('c'), true, false, true), KeyAction::SetTextAlignment(TextAlignment::Center));
    assert_eq!(press(0x78, Some('x'), true, false, false), KeyAction::Cut);
    assert_eq!(press(0x76, Some('v'), true, false, false), KeyAction::PasteElements);
    assert_eq!(press(0x64, Some('d'), true, false, false), KeyAction::Duplicate);
    assert_eq!(press(0xff51, None, false, false, false), KeyAction::MoveSelection { dx: -1, dy: 0 });
    assert_eq!(press(0xff54, None, false, true, false), KeyAction::MoveSelection { dx: 0, dy: 10 });
    assert_eq!(press(0xff51, None, false, false, true), KeyAction::TextEdited);
    assert_eq!(press(0xff1b, None, false, false, true), KeyAction::ExitTextEditing);
    assert_eq!(press(0x61, Some('a'), false, false, false), KeyAction::Ignored);
}

#[test]
fn paste_in_editing_mode() {
    let mut content = chars("ab");
    let mut cursor = 0;
    // Ctrl+V while editing pastes, whether or not the key carries its character
    let action = handle_key_press(0x76, Some('v'), true, false, true, &mut content, &mut cursor);
    assert_eq!(action, KeyAction::PasteText);
    assert_eq!(text(&content), "ab");
    assert_eq!(cursor, 0);
    let action = handle_key_press(0x76, None, true, false, true, &mut content, &mut cursor);
    assert_eq!(action, KeyAction::PasteText);
    // without Ctrl, 'v' is typed
    let action = handle_key_press(0x76, Some('v'), false, false, true, &mut content, &mut cursor);
    assert_eq!(action, KeyAction::TextEdited);
    assert_eq!(text(&content), "vab");
}

#[test]
fn inserting_several_characters() {
    let mut c: Vec<char> = "ad".chars().collect();
    let cursor = insert_chars_at_cursor(&mut c, 1, &"bc".chars().collect());
    assert_eq!(c.iter().collect::<String>(), "abcd");
    assert_eq!(cursor, 3);
    let cursor = insert_chars_at_cursor(&mut c, 9, &"xy".chars().collect());
    assert_eq!(c.iter().collect::<String>(), "abcd");
    assert_eq!(cursor, 11);
}

#[test]
fn backspace_undoes_typing() {
    let mut content = chars("añb");
    let mut cursor = 2;
    assert_eq!(handle_text_editing_key(0x00e9, Some('é'), &mut content, &mut cursor), TextKeyResult::Handled);
    assert_eq!(text(&content), "añéb");
    assert_eq!(cursor, 3);
    assert_eq!(handle_text_editing_key(0xff08, None, &mut content, &mut cursor), TextKeyResult::Handled);
    assert_eq!(text(&content), "añb");
    assert_eq!(cursor, 2);
}
