//! Confirmation of unsaved changes before a destructive operation.
//!
//! The check asks the user (Cancel, Don't Save, Save) when the document is modified;
//! saving goes to the document's file, or to a file the user picks when it has none.
//! Each step is decided here from what the previous one brought back; the caller shows
//! the dialogs and writes the file.
use vstd::prelude::*;

verus! {

/// Response from the unsaved changes dialog
#[derive(Debug, Clone, Copy, PartialEq, Eq, Structural)]
pub enum UnsavedDialogResponse {
    /// User wants to save changes
    Save,
    /// User wants to discard changes
    DontSave,
    /// User cancelled the operation
    Cancel,
}

/// The response for the button the user chose (`None` when the dialog failed): buttons
/// 0, 1 and 2 are Cancel, Don't Save and Save; anything else cancels.
pub open spec fn response_for(choice: Option<i32>) -> UnsavedDialogResponse {
    match choice {
        Some(1) => UnsavedDialogResponse::DontSave,
        Some(2) => UnsavedDialogResponse::Save,
        _ => UnsavedDialogResponse::Cancel,
    }
}

/// The response for the button the user chose.
pub fn response_for_choice(choice: Option<i32>) -> (res: UnsavedDialogResponse)
    ensures
        res == response_for(choice),
{
    match choice {
        Some(1) => UnsavedDialogResponse::DontSave,
        Some(2) => UnsavedDialogResponse::Save,
        _ => UnsavedDialogResponse::Cancel,
    }
}

/// Where the check stands.
#[derive(Debug, Clone, Copy, PartialEq, Eq, Structural)]
pub enum UnsavedCheck {
    /// Not started
    Idle,
    /// The dialog is shown
    AwaitingAnswer,
    /// The save dialog is shown, for a document without a file
    AwaitingPath,
    /// The document is being written (to a file the user just chose, or to its own)
    AwaitingSave { chosen_path: bool },
    /// The check is over: whether the operation goes on
    Finished { proceed: bool },
}

/// What happened since the last step.
#[derive(Debug, Clone, Copy, PartialEq, Eq, Structural)]
pub enum UnsavedEvent {
    /// The check starts, for a document that is or is not modified
    Start { modified: bool },
    /// The user answered; whether the document has a file and whether it is still open
    Answered { response: UnsavedDialogResponse, has_path: bool, has_document: bool },
    /// The save dialog closed, with or without a file; whether the document is open
    PathChosen { chosen: bool, has_document: bool },
    /// Writing the document succeeded or failed
    SaveDone { ok: bool },
}

/// What the caller does next.
#[derive(Debug, Clone, Copy, PartialEq, Eq, Structural)]
pub enum UnsavedAction {
    /// Show the unsaved changes dialog
    ShowDialog,
    /// Write the document to its file
    SaveToCurrentPath,
    /// Show the save dialog
    ShowSaveDialog,
    /// Write the document to the chosen file
    SaveToChosenPath,
    /// Mark the document saved (and add the file to the recent files when it was just
    /// chosen)
    RecordSave { add_recent: bool },
    /// Nothing to do
    Nothing,
}

/// One step of the check. Events that do not fit the state change nothing.
pub open spec fn unsaved_step(s: UnsavedCheck, e: UnsavedEvent) -> (UnsavedCheck, UnsavedAction) {
    match (s, e) {
        (UnsavedCheck::Idle, UnsavedEvent::Start { modified }) => if modified {
            (UnsavedCheck::AwaitingAnswer, UnsavedAction::ShowDialog)
        } else {
            (UnsavedCheck::Finished { proceed: true }, UnsavedAction::Nothing)
        },
        (
            UnsavedCheck::AwaitingAnswer,
            UnsavedEvent::Answered { response, has_path, has_document },
        ) => match response {
            UnsavedDialogResponse::Save => if !has_path {
                (UnsavedCheck::AwaitingPath, UnsavedAction::ShowSaveDialog)
            } else if has_document {
                (UnsavedCheck::AwaitingSave { chosen_path: false }, UnsavedAction::SaveToCurrentPath)
            } else {
                (UnsavedCheck::Finished { proceed: false }, UnsavedAction::Nothing)
            },
            UnsavedDialogResponse::DontSave => (
                UnsavedCheck::Finished { proceed: true },
                UnsavedAction::Nothing,
            ),
            UnsavedDialogResponse::Cancel => (
                UnsavedCheck::Finished { proceed: false },
                UnsavedAction::Nothing,
            ),
        },
        (UnsavedCheck::AwaitingPath, UnsavedEvent::PathChosen { chosen, has_document }) => if chosen
            && has_document {
            (UnsavedCheck::AwaitingSave { chosen_path: true }, UnsavedAction::SaveToChosenPath)
        } else {
            (UnsavedCheck::Finished { proceed: false }, UnsavedAction::Nothing)
        },
        (UnsavedCheck::AwaitingSave { chosen_path }, UnsavedEvent::SaveDone { ok }) => if ok {
            (
                UnsavedCheck::Finished { proceed: true },
                UnsavedAction::RecordSave { add_recent: chosen_path },
            )
        } else {
            (UnsavedCheck::Finished { proceed: false }, UnsavedAction::Nothing)
        },
        _ => (s, UnsavedAction::Nothing),
    }
}

/// Advances the check by one event and returns the next state and what to do.
pub fn unsaved_check_step(s: UnsavedCheck, e: UnsavedEvent) -> (res: (UnsavedCheck, UnsavedAction))
    ensures
        res == unsaved_step(s, e),
{
    match (s, e) {
        (UnsavedCheck::Idle, UnsavedEvent::Start { modified }) => if modified {
            (UnsavedCheck::AwaitingAnswer, UnsavedAction::ShowDialog)
        } else {
            (UnsavedCheck::Finished { proceed: true }, UnsavedAction::Nothing)
        },
        (
            UnsavedCheck::AwaitingAnswer,
            UnsavedEvent::Answered { response, has_path, has_document },
        ) => match response {
            UnsavedDialogResponse::Save => if !has_path {
                (UnsavedCheck::AwaitingPath, UnsavedAction::ShowSaveDialog)
            } else if has_document {
                (UnsavedCheck::AwaitingSave { chosen_path: false }, UnsavedAction::SaveToCurrentPath)
            } else {
                (UnsavedCheck::Finished { proceed: false }, UnsavedAction::Nothing)
            },
            UnsavedDialogResponse::DontSave => (
                UnsavedCheck::Finished { proceed: true },
                UnsavedAction::Nothing,
            ),
            UnsavedDialogResponse::Cancel => (
                UnsavedCheck::Finished { proceed: false },
                UnsavedAction::Nothing,
            ),
        },
        (UnsavedCheck::AwaitingPath, UnsavedEvent::PathChosen { chosen, has_document }) => {
            if chosen && has_document {
                (UnsavedCheck::AwaitingSave { chosen_path: true }, UnsavedAction::SaveToChosenPath)
            } else {
                (UnsavedCheck::Finished { proceed: false }, UnsavedAction::Nothing)
            }
        },
        (UnsavedCheck::AwaitingSave { chosen_path }, UnsavedEvent::SaveDone { ok }) => {
            if ok {
                (
                    UnsavedCheck::Finished { proceed: true },
                    UnsavedAction::RecordSave { add_recent: chosen_path },
                )
            } else {
                (UnsavedCheck::Finished { proceed: false }, UnsavedAction::Nothing)
            }
        },
        _ => (s, UnsavedAction::Nothing),
    }
}

/// The operation goes on only when the document was not modified, the user chose not
/// to save, or the save succeeded; a finished check stays finished, and the document
/// is recorded as saved only after a successful save.
pub proof fn lemma_proceeds_only_when_safe(s: UnsavedCheck, e: UnsavedEvent)
    ensures
        s !is Finished && unsaved_step(s, e).0 == (UnsavedCheck::Finished { proceed: true })
            ==> {
            ||| s == UnsavedCheck::Idle && e == (UnsavedEvent::Start { modified: false })
            ||| s == UnsavedCheck::AwaitingAnswer && e matches UnsavedEvent::Answered {
                response: UnsavedDialogResponse::DontSave,
                ..
            }
            ||| s is AwaitingSave && e == (UnsavedEvent::SaveDone { ok: true })
        },
        s is Finished ==> unsaved_step(s, e) == (s, UnsavedAction::Nothing),
        unsaved_step(s, e).1 is RecordSave ==> e == (UnsavedEvent::SaveDone { ok: true }),
        e matches UnsavedEvent::Answered { response: UnsavedDialogResponse::Cancel, .. }
            && s == UnsavedCheck::AwaitingAnswer ==> unsaved_step(s, e).0 == (
        UnsavedCheck::Finished { proceed: false }),
{
}

} // verus!
