use testruct_ui::canvas::selection::{SelectionMode, SelectionState};

#[test]
fn test_selection_state() {
    let mut state = SelectionState::new();
    let id = uuid::Uuid::new_v4().as_u128();

    assert!(!state.is_selected(id));
    assert_eq!(state.count(), 0);

    state.select(id);
    assert!(state.is_selected(id));
    assert_eq!(state.count(), 1);

    state.clear();
    assert!(!state.is_selected(id));
    assert_eq!(state.count(), 0);
}

#[test]
fn test_multiple_selection() {
    let mut state = SelectionState::new();
    state.set_mode(SelectionMode::Multiple);

    let id1 = uuid::Uuid::new_v4().as_u128();
    let id2 = uuid::Uuid::new_v4().as_u128();

    state.add(id1);
    state.add(id2);

    assert_eq!(state.count(), 2);
    assert!(state.is_selected(id1));
    assert!(state.is_selected(id2));
}

#[test]
fn test_selection_toggle() {
    let mut state = SelectionState::new();
    state.set_mode(SelectionMode::Multiple);

    let id = uuid::Uuid::new_v4().as_u128();

    state.toggle(id);
    assert!(state.is_selected(id));

    state.toggle(id);
    assert!(!state.is_selected(id));
}

#[test]
fn single_mode_replaces_selection() {
    let mut state = SelectionState::new();
    assert_eq!(state.mode(), SelectionMode::Single);
    state.add(1);
    state.add(2);
    state.select(3);
    assert_eq!(state.selected(), vec![3]);
}

#[test]
fn multiple_mode_keeps_order_without_repeats() {
    let mut state = SelectionState::new();
    state.set_mode(SelectionMode::Multiple);
    state.select(5);
    state.select(7);
    state.select(5);
    state.add(7);
    assert_eq!(state.selected(), vec![5, 7]);
    assert!(state.has_selection());
}

#[test]
fn remove_and_toggle_keep_other_ids() {
    let mut state = SelectionState::new();
    state.set_mode(SelectionMode::Multiple);
    for id in [1u128, 2, 3, 4] {
        state.add(id);
    }
    state.remove(2);
    assert_eq!(state.selected(), vec![1, 3, 4]);
    state.remove(9);
    assert_eq!(state.selected(), vec![1, 3, 4]);
    // toggling a selected id twice moves it to the end but keeps the same ids
    state.toggle(1);
    assert_eq!(state.selected(), vec![3, 4]);
    state.toggle(1);
    assert_eq!(state.selected(), vec![3, 4, 1]);
    let copy = state.clone();
    assert_eq!(copy.selected(), vec![3, 4, 1]);
}
