use testruct_ui::dialogs::unsaved_dialog::{
    response_for_choice, unsaved_check_step, UnsavedAction, UnsavedCheck, UnsavedDialogResponse,
    UnsavedEvent,
};

fn run(events: &[UnsavedEvent]) -> (UnsavedCheck, Vec<UnsavedAction>) {
    let mut state = UnsavedCheck::Idle;
    let mut actions = Vec::new();
    for e in events {
        let (s, a) = unsaved_check_step(state, *e);
        state = s;
        actions.push(a);
    }
    (state, actions)
}

#[test]
fn dialog_buttons() {
    assert_eq!(response_for_choice(Some(0)), UnsavedDialogResponse::Cancel);
    assert_eq!(response_for_choice(Some(1)), UnsavedDialogResponse::DontSave);
    assert_eq!(response_for_choice(Some(2)), UnsavedDialogResponse::Save);
    assert_eq!(response_for_choice(Some(7)), UnsavedDialogResponse::Cancel);
    assert_eq!(response_for_choice(None), UnsavedDialogResponse::Cancel);
}

#[test]
fn unmodified_document_proceeds_without_asking() {
    let (s, a) = run(&[UnsavedEvent::Start { modified: false }]);
    assert_eq!(s, UnsavedCheck::Finished { proceed: true });
    assert_eq!(a, vec![UnsavedAction::Nothing]);
}

#[test]
fn cancel_stops_and_dont_save_proceeds() {
    let answer = |response| UnsavedEvent::Answered { response, has_path: true, has_document: true };
    let (s, _) = run(&[UnsavedEvent::Start { modified: true }, answer(UnsavedDialogResponse::Cancel)]);
    assert_eq!(s, UnsavedCheck::Finished { proceed: false });
    let (s, _) = run(&[UnsavedEvent::Start { modified: true }, answer(UnsavedDialogResponse::DontSave)]);
    assert_eq!(s, UnsavedCheck::Finished { proceed: true });
}

#[test]
fn save_to_existing_file() {
    let (s, a) = run(&[
        UnsavedEvent::Start { modified: true },
        UnsavedEvent::Answered { response: UnsavedDialogResponse::Save, has_path: true, has_document: true },
        UnsavedEvent::SaveDone { ok: true },
    ]);
    assert_eq!(s, UnsavedCheck::Finished { proceed: true });
    assert_eq!(
        a,
        vec![
            UnsavedAction::ShowDialog,
            UnsavedAction::SaveToCurrentPath,
            UnsavedAction::RecordSave { add_recent: false }
        ]
    );
}

#[test]
fn save_to_new_file_and_failures() {
    let save = UnsavedEvent::Answered { response: UnsavedDialogResponse::Save, has_path: false, has_document: true };
    let (s, a) = run(&[
        UnsavedEvent::Start { modified: true },
        save,
        UnsavedEvent::PathChosen { chosen: true, has_document: true },
        UnsavedEvent::SaveDone { ok: true },
    ]);
    assert_eq!(s, UnsavedCheck::Finished { proceed: true });
    assert_eq!(a[1], UnsavedAction::ShowSaveDialog);
    assert_eq!(a[3], UnsavedAction::RecordSave { add_recent: true });
    let (s, _) = run(&[
        UnsavedEvent::Start { modified: true },
        save,
        UnsavedEvent::PathChosen { chosen: false, has_document: true },
    ]);
    assert_eq!(s, UnsavedCheck::Finished { proceed: false });
    let (s, _) = run(&[
        UnsavedEvent::Start { modified: true },
        save,
        UnsavedEvent::PathChosen { chosen: true, has_document: true },
        UnsavedEvent::SaveDone { ok: false },
    ]);
    assert_eq!(s, UnsavedCheck::Finished { proceed: false });
}

#[test]
fn finished_check_ignores_events() {
    let done = UnsavedCheck::Finished { proceed: false };
    assert_eq!(
        unsaved_check_step(done, UnsavedEvent::SaveDone { ok: true }),
        (done, UnsavedAction::Nothing)
    );
}
