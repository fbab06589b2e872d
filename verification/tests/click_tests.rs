use testruct_ui::canvas::input::gesture_click::{handle_click, ClickAction, DoubleClickTarget};
use testruct_ui::canvas::mouse::ResizeHandle;
use testruct_ui::canvas::selection::{SelectionMode, SelectionState};
use testruct_ui::canvas::tools::ToolMode;

fn selection_of(ids: &[u128]) -> SelectionState {
    let mut s = SelectionState::new();
    s.set_mode(SelectionMode::Multiple);
    for id in ids {
        s.add(*id);
    }
    s
}

#[test]
fn plain_click_selects_only_the_hit_object() {
    let mut s = selection_of(&[1, 2]);
    let action = handle_click(&mut s, ToolMode::Select, 1, None, None, Some(3), false, false);
    assert_eq!(action, ClickAction::Select);
    assert_eq!(s.selected(), vec![3]);
    assert_eq!(s.mode(), SelectionMode::Multiple);
}

#[test]
fn shift_click_adds_once() {
    let mut s = selection_of(&[1]);
    handle_click(&mut s, ToolMode::Select, 1, None, None, Some(2), true, false);
    handle_click(&mut s, ToolMode::Select, 1, None, None, Some(2), true, false);
    assert_eq!(s.selected(), vec![1, 2]);
}

#[test]
fn ctrl_click_toggles() {
    let mut s = selection_of(&[1, 2]);
    handle_click(&mut s, ToolMode::Select, 1, None, None, Some(1), false, true);
    assert_eq!(s.selected(), vec![2]);
    handle_click(&mut s, ToolMode::Select, 1, None, None, Some(1), false, true);
    assert_eq!(s.selected(), vec![2, 1]);
}

#[test]
fn shift_wins_over_ctrl() {
    let mut s = selection_of(&[1]);
    handle_click(&mut s, ToolMode::Select, 1, None, None, Some(1), true, true);
    assert_eq!(s.selected(), vec![1]);
}

#[test]
fn empty_space_click_clears() {
    let mut s = selection_of(&[1, 2]);
    let action = handle_click(&mut s, ToolMode::Select, 1, None, None, None, false, false);
    assert_eq!(action, ClickAction::Select);
    assert!(!s.has_selection());
}

#[test]
fn double_click_on_text_enters_editing_at_end() {
    let mut s = selection_of(&[1]);
    let target = Some(DoubleClickTarget::Text { id: 7, content_len: 12 });
    let action = handle_click(&mut s, ToolMode::Select, 2, target, None, Some(7), false, false);
    assert_eq!(action, ClickAction::EditText { id: 7, cursor: 12 });
    assert_eq!(s.selected(), vec![1]);
}

#[test]
fn double_click_on_image_selects_it_and_opens_chooser() {
    let mut s = selection_of(&[1, 2]);
    let target = Some(DoubleClickTarget::Image { id: 9 });
    let action = handle_click(&mut s, ToolMode::Select, 2, target, None, Some(9), false, false);
    assert_eq!(action, ClickAction::ChooseImage { id: 9 });
    assert_eq!(s.selected(), vec![9]);
}

#[test]
fn single_click_ignores_double_click_target() {
    let mut s = selection_of(&[]);
    let target = Some(DoubleClickTarget::Image { id: 9 });
    let action = handle_click(&mut s, ToolMode::Select, 1, target, None, Some(9), false, false);
    assert_eq!(action, ClickAction::Select);
    assert_eq!(s.selected(), vec![9]);
}

#[test]
fn resize_handle_comes_before_selection() {
    let mut s = selection_of(&[4]);
    let action = handle_click(
        &mut s,
        ToolMode::Select,
        1,
        None,
        Some((4, ResizeHandle::BottomRight)),
        Some(5),
        false,
        false,
    );
    assert_eq!(action, ClickAction::StartResize { id: 4, handle: ResizeHandle::BottomRight });
    assert_eq!(s.selected(), vec![4]);
}

#[test]
fn clicks_with_other_tools_are_ignored() {
    let mut s = selection_of(&[4]);
    let action = handle_click(&mut s, ToolMode::Rectangle, 1, None, None, None, false, false);
    assert_eq!(action, ClickAction::Ignore);
    assert_eq!(s.selected(), vec![4]);
}
