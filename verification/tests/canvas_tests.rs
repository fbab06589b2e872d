use testruct_ui::canvas::grid_rendering::{ruler_shows_label, ruler_tick_length};
use testruct_ui::canvas::input::ime::macos::MacOSImeWorkaround;
use testruct_ui::canvas::page_thumbnail::has_page_changed;
use testruct_ui::canvas::rendering_selection::ResizeHandle;
use testruct_ui::canvas::tools::{drag_end_action, element_for_tool, CreatedElement, DragEndAction, ToolMode};
use testruct_ui::dialogs::about_dialog::{get_app_name, get_version};

#[test]
fn test_workaround_creation() {
    let workaround = MacOSImeWorkaround::new();
    assert!(workaround.last_clipboard_content().is_empty());
}

#[test]
fn pasteboard_changes_are_reported_once() {
    let mut w = MacOSImeWorkaround::default();
    assert_eq!(w.check_clipboard_change("  hello \n"), Some("hello".to_string()));
    assert_eq!(w.last_clipboard_content(), "hello");
    assert_eq!(w.check_clipboard_change("hello"), None);
    assert_eq!(w.check_clipboard_change(" \t "), None);
    assert_eq!(w.check_clipboard_change("日本"), Some("日本".to_string()));
    assert_eq!(w.get_clipboard_content("\u{3000}x\u{3000}"), Some("x".to_string()));
    assert_eq!(w.get_clipboard_content("\n"), None);
}

#[test]
fn tool_names_and_cursors() {
    assert_eq!(ToolMode::default(), ToolMode::Select);
    assert_eq!(ToolMode::Select.name(), "Select");
    assert_eq!(ToolMode::Pan.name(), "Pan");
    assert_eq!(ToolMode::Select.cursor_name(), "default");
    assert_eq!(ToolMode::Circle.cursor_name(), "crosshair");
    assert_eq!(ToolMode::Text.cursor_name(), "text");
    assert_eq!(ToolMode::Pan.cursor_name(), "grab");
    assert_eq!(element_for_tool(ToolMode::Arrow), Some(CreatedElement::Arrow));
    assert_eq!(element_for_tool(ToolMode::Pan), None);
}

#[test]
fn drag_end_decisions() {
    assert_eq!(drag_end_action(true, ToolMode::Select, true, true, true), DragEndAction::Resize);
    assert_eq!(drag_end_action(true, ToolMode::Select, true, false, false), DragEndAction::Nothing);
    assert_eq!(drag_end_action(false, ToolMode::Select, true, true, true), DragEndAction::MoveSelection);
    assert_eq!(drag_end_action(false, ToolMode::Select, false, true, true), DragEndAction::Nothing);
    assert_eq!(
        drag_end_action(false, ToolMode::Rectangle, false, true, true),
        DragEndAction::Create(CreatedElement::Rectangle)
    );
    assert_eq!(drag_end_action(false, ToolMode::Pan, false, true, true), DragEndAction::Nothing);
    assert_eq!(drag_end_action(false, ToolMode::Text, false, true, false), DragEndAction::Nothing);
}

#[test]
fn all_resize_handles() {
    let all = ResizeHandle::all();
    assert_eq!(all.len(), 8);
    assert_eq!(all[0], ResizeHandle::TopLeft);
    assert_eq!(all[4], ResizeHandle::BottomRight);
    assert_eq!(all[7], ResizeHandle::Left);
}

#[test]
fn ruler_marks() {
    assert_eq!(ruler_tick_length(0), 10);
    assert_eq!(ruler_tick_length(200), 10);
    assert_eq!(ruler_tick_length(150), 7);
    assert_eq!(ruler_tick_length(30), 5);
    assert_eq!(ruler_tick_length(35), 0);
    assert!(!ruler_shows_label(0));
    assert!(ruler_shows_label(300));
    assert!(!ruler_shows_label(250));
}

#[test]
fn page_change_detection() {
    assert!(has_page_changed(3, None));
    assert!(has_page_changed(3, Some(2)));
    assert!(!has_page_changed(3, Some(3)));
}

#[test]
fn application_identity() {
    assert_eq!(get_version(), "0.1.0");
    assert_eq!(get_app_name(), "Testruct Studio");
}
