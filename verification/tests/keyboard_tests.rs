use testruct_ui::canvas::keyboard::{detect_keyboard_command, KeyboardCommand};

#[test]
fn test_keyboard_command_names() {
    assert_eq!(format!("{:?}", KeyboardCommand::Delete), "Delete");
    assert_eq!(format!("{:?}", KeyboardCommand::Undo), "Undo");
}

#[test]
fn plain_keys_and_control_chords() {
    assert_eq!(detect_keyboard_command(0xffff, false, false), Some(KeyboardCommand::Delete));
    assert_eq!(detect_keyboard_command(0xff1b, false, false), Some(KeyboardCommand::DeselectAll));
    assert_eq!(detect_keyboard_command(0xff51, false, false), Some(KeyboardCommand::MoveLeft));
    assert_eq!(detect_keyboard_command(0xff54, false, true), Some(KeyboardCommand::MoveDown));
    assert_eq!(detect_keyboard_command(0x7a, true, false), Some(KeyboardCommand::Undo));
    assert_eq!(detect_keyboard_command(0x79, true, false), Some(KeyboardCommand::Redo));
    assert_eq!(detect_keyboard_command(0x2b, true, false), Some(KeyboardCommand::ZoomIn));
    assert_eq!(detect_keyboard_command(0x3d, true, false), Some(KeyboardCommand::ZoomIn));
    assert_eq!(detect_keyboard_command(0x2d, true, false), Some(KeyboardCommand::ZoomOut));
    assert_eq!(detect_keyboard_command(0x30, true, false), Some(KeyboardCommand::ZoomReset));
    assert_eq!(detect_keyboard_command(0x7a, false, false), None);
    assert_eq!(detect_keyboard_command(0x71, true, false), None);
}

#[test]
fn shift_chords_redo_and_ungroup() {
    assert_eq!(detect_keyboard_command(0x7a, true, true), Some(KeyboardCommand::Redo));
    assert_eq!(detect_keyboard_command(0x67, true, true), Some(KeyboardCommand::Ungroup));
    assert_eq!(detect_keyboard_command(0x67, true, false), Some(KeyboardCommand::Group));
    assert_eq!(detect_keyboard_command(0x79, true, true), Some(KeyboardCommand::Redo));
    assert_eq!(detect_keyboard_command(0x63, true, true), Some(KeyboardCommand::Copy));
    assert_eq!(detect_keyboard_command(0x67, false, true), None);
}
