//! Canvas keyboard input handling
//!
//! Implements keyboard shortcuts and command handling for the canvas.
use vstd::prelude::*;

verus! {

/// Keyboard command
#[derive(Clone, Copy, Debug, PartialEq, Eq, Structural)]
pub enum KeyboardCommand {
    /// Delete selected objects
    Delete,
    /// Undo last action
    Undo,
    /// Redo last undone action
    Redo,
    /// Select all objects
    SelectAll,
    /// Deselect all objects
    DeselectAll,
    /// Duplicate selected objects
    Duplicate,
    /// Copy to clipboard
    Copy,
    /// Paste from clipboard
    Paste,
    /// Cut to clipboard
    Cut,
    /// Zoom in
    ZoomIn,
    /// Zoom out
    ZoomOut,
    /// Reset zoom to 100%
    ZoomReset,
    /// Move selected objects left
    MoveLeft,
    /// Move selected objects right
    MoveRight,
    /// Move selected objects up
    MoveUp,
    /// Move selected objects down
    MoveDown,
    /// Group selected objects
    Group,
    /// Ungroup selected objects
    Ungroup,
}

// Key codes (standard X11 / GDK key values)
pub const KEY_DELETE: u32 = 0xffff;
pub const KEY_Z: u32 = 0x007a;
pub const KEY_Y: u32 = 0x0079;
pub const KEY_A: u32 = 0x0061;
pub const KEY_D: u32 = 0x0064;
pub const KEY_C: u32 = 0x0063;
pub const KEY_V: u32 = 0x0076;
pub const KEY_X: u32 = 0x0078;
pub const KEY_G: u32 = 0x0067;
pub const KEY_0: u32 = 0x0030;
pub const KEY_PLUS: u32 = 0x002b;
pub const KEY_EQUAL: u32 = 0x003d;
pub const KEY_MINUS: u32 = 0x002d;
pub const KEY_ESCAPE: u32 = 0xff1b;
pub const KEY_LEFT: u32 = 0xff51;
pub const KEY_RIGHT: u32 = 0xff53;
pub const KEY_UP: u32 = 0xff52;
pub const KEY_DOWN: u32 = 0xff54;

/// The command bound to a key, given whether Control and Shift are held: Ctrl+Z undoes
/// and Ctrl+Shift+Z or Ctrl+Y redoes; Ctrl+G groups and Ctrl+Shift+G ungroups; Shift
/// changes nothing else.
pub open spec fn command_for_key(keyval: u32, ctrl: bool, shift: bool) -> Option<KeyboardCommand> {
    if keyval == KEY_DELETE {
        Some(KeyboardCommand::Delete)
    } else if keyval == KEY_ESCAPE {
        Some(KeyboardCommand::DeselectAll)
    } else if keyval == KEY_LEFT {
        Some(KeyboardCommand::MoveLeft)
    } else if keyval == KEY_RIGHT {
        Some(KeyboardCommand::MoveRight)
    } else if keyval == KEY_UP {
        Some(KeyboardCommand::MoveUp)
    } else if keyval == KEY_DOWN {
        Some(KeyboardCommand::MoveDown)
    } else if !ctrl {
        None
    } else if keyval == KEY_Z && shift {
        Some(KeyboardCommand::Redo)
    } else if keyval == KEY_G && shift {
        Some(KeyboardCommand::Ungroup)
    } else if keyval == KEY_Z {
        Some(KeyboardCommand::Undo)
    } else if keyval == KEY_Y {
        Some(KeyboardCommand::Redo)
    } else if keyval == KEY_A {
        Some(KeyboardCommand::SelectAll)
    } else if keyval == KEY_D {
        Some(KeyboardCommand::Duplicate)
    } else if keyval == KEY_C {
        Some(KeyboardCommand::Copy)
    } else if keyval == KEY_V {
        Some(KeyboardCommand::Paste)
    } else if keyval == KEY_X {
        Some(KeyboardCommand::Cut)
    } else if keyval == KEY_PLUS || keyval == KEY_EQUAL {
        Some(KeyboardCommand::ZoomIn)
    } else if keyval == KEY_MINUS {
        Some(KeyboardCommand::ZoomOut)
    } else if keyval == KEY_0 {
        Some(KeyboardCommand::ZoomReset)
    } else if keyval == KEY_G {
        Some(KeyboardCommand::Group)
    } else {
        None
    }
}

/// Detect keyboard command from a key value and the state of the Control and Shift
/// modifiers.
pub fn detect_keyboard_command(keyval: u32, ctrl: bool, shift: bool) -> (res: Option<
    KeyboardCommand,
>)
    ensures
        res == command_for_key(keyval, ctrl, shift),
{
    match keyval {
        // Delete key
        KEY_DELETE => Some(KeyboardCommand::Delete),
        // Ctrl+Shift+Z or Ctrl+Y: Redo
        KEY_Z if ctrl && shift => Some(KeyboardCommand::Redo),
        KEY_Y if ctrl => Some(KeyboardCommand::Redo),
        // Ctrl+Z: Undo
        KEY_Z if ctrl => Some(KeyboardCommand::Undo),
        // Ctrl+A: Select All
        KEY_A if ctrl => Some(KeyboardCommand::SelectAll),
        // Escape: Deselect All
        KEY_ESCAPE => Some(KeyboardCommand::DeselectAll),
        // Ctrl+D: Duplicate
        KEY_D if ctrl => Some(KeyboardCommand::Duplicate),
        // Ctrl+C: Copy
        KEY_C if ctrl => Some(KeyboardCommand::Copy),
        // Ctrl+V: Paste
        KEY_V if ctrl => Some(KeyboardCommand::Paste),
        // Ctrl+X: Cut
        KEY_X if ctrl => Some(KeyboardCommand::Cut),
        // Ctrl++: Zoom In
        KEY_PLUS if ctrl => Some(KeyboardCommand::ZoomIn),
        KEY_EQUAL if ctrl => Some(KeyboardCommand::ZoomIn),
        // Ctrl+-: Zoom Out
        KEY_MINUS if ctrl => Some(KeyboardCommand::ZoomOut),
        // Ctrl+0: Reset Zoom
        KEY_0 if ctrl => Some(KeyboardCommand::ZoomReset),
        // Arrow keys for moving objects
        KEY_LEFT => Some(KeyboardCommand::MoveLeft),
        KEY_RIGHT => Some(KeyboardCommand::MoveRight),
        KEY_UP => Some(KeyboardCommand::MoveUp),
        KEY_DOWN => Some(KeyboardCommand::MoveDown),
        // Ctrl+Shift+G: Ungroup
        KEY_G if ctrl && shift => Some(KeyboardCommand::Ungroup),
        // Ctrl+G: Group
        KEY_G if ctrl => Some(KeyboardCommand::Group),
        _ => None,
    }
}

/// Each command comes from its own keys and from no others: Delete and Escape, the
/// arrows (with or without modifiers), Ctrl+Z (undo, or redo with Shift), Ctrl+Y, Ctrl+A,
/// Ctrl+D, Ctrl+C, Ctrl+V, Ctrl+X, Ctrl+Plus or Ctrl+Equal, Ctrl+Minus, Ctrl+0 and Ctrl+G
/// (group, or ungroup with Shift).
pub proof fn lemma_command_keys(keyval: u32, ctrl: bool, shift: bool)
    ensures
        ({
            let c = command_for_key(keyval, ctrl, shift);
            &&& c == Some(KeyboardCommand::Delete) <==> keyval == KEY_DELETE
            &&& c == Some(KeyboardCommand::DeselectAll) <==> keyval == KEY_ESCAPE
            &&& c == Some(KeyboardCommand::MoveLeft) <==> keyval == KEY_LEFT
            &&& c == Some(KeyboardCommand::MoveRight) <==> keyval == KEY_RIGHT
            &&& c == Some(KeyboardCommand::MoveUp) <==> keyval == KEY_UP
            &&& c == Some(KeyboardCommand::MoveDown) <==> keyval == KEY_DOWN
            &&& c == Some(KeyboardCommand::Undo) <==> (ctrl && !shift && keyval == KEY_Z)
            &&& c == Some(KeyboardCommand::Redo) <==> (ctrl && (keyval == KEY_Y || (shift
                && keyval == KEY_Z)))
            &&& c == Some(KeyboardCommand::SelectAll) <==> (ctrl && keyval == KEY_A)
            &&& c == Some(KeyboardCommand::Duplicate) <==> (ctrl && keyval == KEY_D)
            &&& c == Some(KeyboardCommand::Copy) <==> (ctrl && keyval == KEY_C)
            &&& c == Some(KeyboardCommand::Paste) <==> (ctrl && keyval == KEY_V)
            &&& c == Some(KeyboardCommand::Cut) <==> (ctrl && keyval == KEY_X)
            &&& c == Some(KeyboardCommand::ZoomIn) <==> (ctrl && (keyval == KEY_PLUS || keyval
                == KEY_EQUAL))
            &&& c == Some(KeyboardCommand::ZoomOut) <==> (ctrl && keyval == KEY_MINUS)
            &&& c == Some(KeyboardCommand::ZoomReset) <==> (ctrl && keyval == KEY_0)
            &&& c == Some(KeyboardCommand::Group) <==> (ctrl && !shift && keyval == KEY_G)
            &&& c == Some(KeyboardCommand::Ungroup) <==> (ctrl && shift && keyval == KEY_G)
        }),
{
}

/// Without Control only Delete, Escape and the arrow keys give a command, and Shift
/// changes the command only for Z (undo becomes redo) and G (group becomes ungroup).
pub proof fn lemma_shift_only_reverses(keyval: u32, ctrl: bool)
    ensures
        !ctrl && command_for_key(keyval, ctrl, false) is Some ==> (keyval == KEY_DELETE || keyval
            == KEY_ESCAPE || keyval == KEY_LEFT || keyval == KEY_RIGHT || keyval == KEY_UP
            || keyval == KEY_DOWN),
        command_for_key(keyval, ctrl, true) != command_for_key(keyval, ctrl, false) ==> ctrl && (
        (keyval == KEY_Z && command_for_key(keyval, ctrl, false) == Some(KeyboardCommand::Undo)
            && command_for_key(keyval, ctrl, true) == Some(KeyboardCommand::Redo)) || (keyval
            == KEY_G && command_for_key(keyval, ctrl, false) == Some(KeyboardCommand::Group)
            && command_for_key(keyval, ctrl, true) == Some(KeyboardCommand::Ungroup))),
{
}

} // verus!
