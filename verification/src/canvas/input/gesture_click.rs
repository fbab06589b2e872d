//! What a primary-button click on the canvas does.
//!
//! With the select tool:
//!
//! | Action | Effect |
//! |--------|--------|
//! | Click | single selection (the previous selection is cleared) |
//! | Shift+click | adds to the selection |
//! | Ctrl+click | toggles the object's selection |
//! | Double click on a text | enters text editing |
//! | Double click on an image | selects the image and opens the image chooser |
//! | Click on empty space | clears the selection |
//!
//! A click on a resize handle of a selected object starts a resize instead of changing
//! the selection. Hit tests on the (floating-point) geometry happen before these
//! decisions and hand their results in as ids.
use vstd::prelude::*;
use crate::canvas::mouse::ResizeHandle;
use crate::canvas::selection::{SelectionState, toggled, with_added};
use crate::canvas::tools::ToolMode;

verus! {

/// The first text or image element (in page order) under a double click.
#[derive(Clone, Copy, Debug, PartialEq, Eq, Structural)]
pub enum DoubleClickTarget {
    /// A text element and the number of characters of its content
    Text { id: u128, content_len: usize },
    /// An image element
    Image { id: u128 },
}

/// What the canvas does after a click.
#[derive(Clone, Copy, Debug, PartialEq, Eq, Structural)]
pub enum ClickAction {
    /// Nothing: clicks only act with the select tool
    Ignore,
    /// Enter text editing on the element, the cursor at the end of its content
    EditText { id: u128, cursor: usize },
    /// Open the image chooser for the image, which is now the only selected object
    ChooseImage { id: u128 },
    /// Start resizing the selected object by the handle under the pointer
    StartResize { id: u128, handle: ResizeHandle },
    /// The selection was updated from the object under the pointer
    Select,
}

/// The selection after a click on `hit` (`None`: empty space): Shift adds, Ctrl
/// toggles, a plain click selects that object alone, and empty space clears.
pub open spec fn click_selection(s: Seq<u128>, hit: Option<u128>, shift: bool, ctrl: bool) -> Seq<
    u128,
> {
    match hit {
        None => Seq::empty(),
        Some(id) => if shift {
            with_added(s, id)
        } else if ctrl {
            toggled(s, id)
        } else {
            seq![id]
        },
    }
}

/// The action of a click: only the select tool acts; a double click on a text or an
/// image comes first, then a resize handle of a selected object, then the selection.
pub open spec fn click_action_of(
    tool: ToolMode,
    n_press: i32,
    double_click_target: Option<DoubleClickTarget>,
    handle_hit: Option<(u128, ResizeHandle)>,
) -> ClickAction {
    if tool != ToolMode::Select {
        ClickAction::Ignore
    } else if n_press == 2 && double_click_target is Some {
        match double_click_target.unwrap() {
            DoubleClickTarget::Text { id, content_len } => ClickAction::EditText {
                id,
                cursor: content_len,
            },
            DoubleClickTarget::Image { id } => ClickAction::ChooseImage { id },
        }
    } else {
        match handle_hit {
            Some((id, handle)) => ClickAction::StartResize { id, handle },
            None => ClickAction::Select,
        }
    }
}

/// Handles a click: `n_press` counts the presses, `double_click_target` is the first
/// text or image element under the pointer, `handle_hit` the first selected object
/// whose resize handle is under the pointer and `hit` the topmost object under it.
/// Updates the selection and returns what else the canvas does.
pub fn handle_click(
    selection: &mut SelectionState,
    tool: ToolMode,
    n_press: i32,
    double_click_target: Option<DoubleClickTarget>,
    handle_hit: Option<(u128, ResizeHandle)>,
    hit: Option<u128>,
    shift: bool,
    ctrl: bool,
) -> (res: ClickAction)
    ensures
        res == click_action_of(tool, n_press, double_click_target, handle_hit),
        final(selection)@ == match res {
            ClickAction::Select => click_selection(old(selection)@, hit, shift, ctrl),
            ClickAction::ChooseImage { id } => seq![id],
            _ => old(selection)@,
        },
        final(selection).spec_mode() == old(selection).spec_mode(),
{
    if tool != ToolMode::Select {
        return ClickAction::Ignore;
    }
    if n_press == 2 {
        match double_click_target {
            Some(DoubleClickTarget::Text { id, content_len }) => {
                return ClickAction::EditText { id, cursor: content_len };
            },
            Some(DoubleClickTarget::Image { id }) => {
                select_only(selection, id);
                return ClickAction::ChooseImage { id };
            },
            None => {},
        }
    }
    if let Some((id, handle)) = handle_hit {
        return ClickAction::StartResize { id, handle };
    }
    match hit {
        Some(id) => {
            if shift {
                selection.add(id);
            } else if ctrl {
                selection.toggle(id);
            } else {
                select_only(selection, id);
            }
        },
        None => selection.clear(),
    }
    ClickAction::Select
}

/// Makes `id` the only selected object, whatever the selection mode.
fn select_only(selection: &mut SelectionState, id: u128)
    ensures
        final(selection)@ == seq![id],
        final(selection).spec_mode() == old(selection).spec_mode(),
{
    selection.clear();
    selection.add(id);
    assert(Seq::<u128>::empty().push(id) =~= seq![id]);
}

/// A plain click selects the object alone, whatever was selected before, and a second
/// Ctrl+click on an object gives back the ids that were selected before the first.
pub proof fn lemma_click_selection(s: Seq<u128>, id: u128)
    requires
        s.no_duplicates(),
    ensures
        click_selection(s, Some(id), false, false) == seq![id],
        forall|x: u128| #[trigger]
            click_selection(click_selection(s, Some(id), false, true), Some(id), false, true).contains(x)
                == s.contains(x),
        click_selection(s, None, false, false).len() == 0,
{
    crate::canvas::selection::lemma_toggle_twice(s, id);
}

} // verus!
