//! Keyboard input handling of the canvas: text editing keys, text alignment keys and
//! the shortcuts for the selected objects.
//!
//! Text being edited is handled as a sequence of characters, and the cursor counts
//! characters.
use vstd::prelude::*;
use crate::text_bytes::{trimmed, trim_str};

verus! {

// GDK key values of the keys the canvas reacts to
pub const KEY_I: u32 = 0x0069;
pub const KEY_S: u32 = 0x0073;
pub const KEY_L: u32 = 0x006c;
pub const KEY_R: u32 = 0x0072;
pub const KEY_E: u32 = 0x0065;
pub const KEY_C: u32 = 0x0063;
pub const KEY_J: u32 = 0x006a;
pub const KEY_X: u32 = 0x0078;
pub const KEY_V: u32 = 0x0076;
pub const KEY_D: u32 = 0x0064;
pub const KEY_ESCAPE: u32 = 0xff1b;
pub const KEY_BACKSPACE: u32 = 0xff08;
pub const KEY_DELETE: u32 = 0xffff;
pub const KEY_HOME: u32 = 0xff50;
pub const KEY_LEFT: u32 = 0xff51;
pub const KEY_UP: u32 = 0xff52;
pub const KEY_RIGHT: u32 = 0xff53;
pub const KEY_DOWN: u32 = 0xff54;
pub const KEY_END: u32 = 0xff57;
pub const KEY_RETURN: u32 = 0xff0d;

/// Horizontal alignment of a text element
#[derive(Clone, Copy, Debug, PartialEq, Eq, Structural)]
pub enum TextAlignment {
    Start,
    Center,
    End,
    Justified,
}

/// The alignment chosen by Ctrl+L (left), Ctrl+R and Ctrl+E (right), Ctrl+C (center)
/// and Ctrl+J (justified) while editing a text.
pub open spec fn alignment_of_key(keyval: u32) -> Option<TextAlignment> {
    if keyval == KEY_L {
        Some(TextAlignment::Start)
    } else if keyval == KEY_R || keyval == KEY_E {
        Some(TextAlignment::End)
    } else if keyval == KEY_C {
        Some(TextAlignment::Center)
    } else if keyval == KEY_J {
        Some(TextAlignment::Justified)
    } else {
        None
    }
}

/// The alignment a key selects, if any.
pub fn alignment_for_key(keyval: u32) -> (res: Option<TextAlignment>)
    ensures
        res == alignment_of_key(keyval),
{
    if keyval == KEY_L {
        Some(TextAlignment::Start)
    } else if keyval == KEY_R {
        Some(TextAlignment::End)
    } else if keyval == KEY_E {
        Some(TextAlignment::End)
    } else if keyval == KEY_C {
        Some(TextAlignment::Center)
    } else if keyval == KEY_J {
        Some(TextAlignment::Justified)
    } else {
        None
    }
}

/// The name under which an alignment change is reported.
pub fn alignment_name(alignment: TextAlignment) -> (res: &'static str)
    ensures
        res@ == match alignment {
            TextAlignment::Start => "Left"@,
            TextAlignment::Center => "Center"@,
            TextAlignment::End => "Right"@,
            TextAlignment::Justified => "Justified"@,
        },
{
    match alignment {
        TextAlignment::Start => "Left",
        TextAlignment::Center => "Center",
        TextAlignment::End => "Right",
        TextAlignment::Justified => "Justified",
    }
}

/// Control characters: the general category Cc, U+0000..=U+001F and U+007F..=U+009F.
pub open spec fn is_control_char(c: char) -> bool {
    (c as u32) <= 0x1f || (0x7f <= (c as u32) && (c as u32) <= 0x9f)
}

/// Whether `c` is a control character (general category Cc: U+0000 to U+001F and
/// U+007F to U+009F), as `char::is_control` answers.
fn char_is_control(c: char) -> (res: bool)
    ensures
        res == is_control_char(c),
{
    let v = c as u32;
    v <= 0x1f || (0x7f <= v && v <= 0x9f)
}

/// What a key press while editing text did.
#[derive(Clone, Copy, Debug, PartialEq, Eq, Structural)]
pub enum TextKeyResult {
    /// Escape: editing ends
    ExitEditing,
    /// The key was consumed by the editor
    Handled,
    /// The key means nothing to the editor
    Unhandled,
}

/// The edited text as a sequence of characters, when it is on the page.
pub open spec fn text_view(content: Option<Vec<char>>) -> Option<Seq<char>> {
    match content {
        Some(c) => Some(c@),
        None => None,
    }
}

/// `ch` goes into the text at the cursor, which moves past it, when the text is there
/// and the cursor lies within it.
pub open spec fn typed(text: Option<Seq<char>>, cursor: int, ch: char) -> (
    TextKeyResult,
    Option<Seq<char>>,
    int,
) {
    match text {
        Some(t) => if cursor <= t.len() {
            (TextKeyResult::Handled, Some(t.insert(cursor, ch)), cursor + 1)
        } else {
            (TextKeyResult::Handled, text, cursor)
        },
        None => (TextKeyResult::Handled, text, cursor),
    }
}

/// The effect of a key press while a text is being edited: the result, the text and
/// the cursor afterwards. `unicode` is the character the key types, if any.
pub open spec fn text_key_effect(
    keyval: u32,
    unicode: Option<char>,
    text: Option<Seq<char>>,
    cursor: int,
) -> (TextKeyResult, Option<Seq<char>>, int) {
    if keyval == KEY_ESCAPE {
        (TextKeyResult::ExitEditing, text, 0)
    } else if keyval == KEY_BACKSPACE {
        match text {
            Some(t) => if 0 < cursor <= t.len() {
                (TextKeyResult::Handled, Some(t.remove(cursor - 1)), cursor - 1)
            } else {
                (TextKeyResult::Handled, text, cursor)
            },
            None => (TextKeyResult::Handled, text, cursor),
        }
    } else if keyval == KEY_DELETE {
        match text {
            Some(t) => if cursor < t.len() {
                (TextKeyResult::Handled, Some(t.remove(cursor)), cursor)
            } else {
                (TextKeyResult::Handled, text, cursor)
            },
            None => (TextKeyResult::Handled, text, cursor),
        }
    } else if keyval == KEY_LEFT {
        (TextKeyResult::Handled, text, if cursor > 0 { cursor - 1 } else { cursor })
    } else if keyval == KEY_RIGHT {
        match text {
            Some(t) => (
                TextKeyResult::Handled,
                text,
                if cursor < t.len() { cursor + 1 } else { cursor },
            ),
            None => (TextKeyResult::Handled, text, cursor),
        }
    } else if keyval == KEY_HOME {
        (TextKeyResult::Handled, text, 0)
    } else if keyval == KEY_END {
        match text {
            Some(t) => (TextKeyResult::Handled, text, t.len() as int),
            None => (TextKeyResult::Handled, text, cursor),
        }
    } else if keyval == KEY_RETURN {
        typed(text, cursor, '\n')
    } else {
        match unicode {
            Some(ch) => if !is_control_char(ch) {
                typed(text, cursor, ch)
            } else {
                (TextKeyResult::Unhandled, text, cursor)
            },
            None => (TextKeyResult::Unhandled, text, cursor),
        }
    }
}

/// The edited text fits the machine: one more character can be counted.
pub open spec fn text_fits(text: Option<Seq<char>>) -> bool {
    match text {
        Some(t) => t.len() < usize::MAX,
        None => true,
    }
}

/// Text editing key handling: applies one key press to the edited text (`None` when the
/// edited element is not on the page) and the cursor.
pub fn handle_text_editing_key(
    keyval: u32,
    unicode: Option<char>,
    content: &mut Option<Vec<char>>,
    cursor_pos: &mut usize,
) -> (res: TextKeyResult)
    requires
        text_fits(text_view(*old(content))),
    ensures
        (res, text_view(*final(content)), *final(cursor_pos) as int) == text_key_effect(
            keyval,
            unicode,
            text_view(*old(content)),
            *old(cursor_pos) as int,
        ),
{
    if keyval == KEY_ESCAPE {
        // Exit text editing mode
        *cursor_pos = 0;
        TextKeyResult::ExitEditing
    } else if keyval == KEY_BACKSPACE {
        // Delete character before cursor
        if *cursor_pos > 0 {
            match content {
                Some(chars) => {
                    if *cursor_pos <= chars.len() {
                        chars.remove(*cursor_pos - 1);
                        *cursor_pos = *cursor_pos - 1;
                    }
                },
                None => {},
            }
        }
        TextKeyResult::Handled
    } else if keyval == KEY_DELETE {
        // Delete character at cursor
        match content {
            Some(chars) => {
                if *cursor_pos < chars.len() {
                    chars.remove(*cursor_pos);
                }
            },
            None => {},
        }
        TextKeyResult::Handled
    } else if keyval == KEY_LEFT {
        if *cursor_pos > 0 {
            *cursor_pos = *cursor_pos - 1;
        }
        TextKeyResult::Handled
    } else if keyval == KEY_RIGHT {
        match content {
            Some(chars) => {
                if *cursor_pos < chars.len() {
                    *cursor_pos = *cursor_pos + 1;
                }
            },
            None => {},
        }
        TextKeyResult::Handled
    } else if keyval == KEY_HOME {
        *cursor_pos = 0;
        TextKeyResult::Handled
    } else if keyval == KEY_END {
        match content {
            Some(chars) => {
                *cursor_pos = chars.len();
            },
            None => {},
        }
        TextKeyResult::Handled
    } else if keyval == KEY_RETURN {
        // Insert newline character for multiline support
        type_char(content, cursor_pos, '\n')
    } else {
        // Any printable character typed by the key goes into the text
        match unicode {
            Some(ch) => {
                if !char_is_control(ch) {
                    type_char(content, cursor_pos, ch)
                } else {
                    TextKeyResult::Unhandled
                }
            },
            None => TextKeyResult::Unhandled,
        }
    }
}

/// Puts `ch` into the text at the cursor.
fn type_char(content: &mut Option<Vec<char>>, cursor_pos: &mut usize, ch: char) -> (res:
    TextKeyResult)
    requires
        text_fits(text_view(*old(content))),
    ensures
        (res, text_view(*final(content)), *final(cursor_pos) as int) == typed(
            text_view(*old(content)),
            *old(cursor_pos) as int,
            ch,
        ),
{
    match content {
        Some(chars) => {
            if *cursor_pos <= chars.len() {
                chars.insert(*cursor_pos, ch);
                *cursor_pos = *cursor_pos + 1;
            }
        },
        None => {},
    }
    TextKeyResult::Handled
}

/// Delete removes exactly the character at the cursor and leaves the cursor where it
/// is; Backspace removes exactly the character before the cursor and moves the cursor
/// onto its place; Left and Right move by one character within the text. Keys that do
/// nothing at the edges (Delete at the end, Backspace and Left at the start, Right at
/// the end) leave text and cursor alone.
pub proof fn lemma_editing_keys_act_at_cursor(t: Seq<char>, cursor: int, u: Option<char>)
    requires
        0 <= cursor <= t.len(),
    ensures
        cursor < t.len() ==> text_key_effect(KEY_DELETE, u, Some(t), cursor) == (
            TextKeyResult::Handled,
            Some(t.take(cursor) + t.skip(cursor + 1)),
            cursor,
        ),
        cursor == t.len() ==> text_key_effect(KEY_DELETE, u, Some(t), cursor) == (
            TextKeyResult::Handled,
            Some(t),
            cursor,
        ),
        cursor > 0 ==> text_key_effect(KEY_BACKSPACE, u, Some(t), cursor) == (
            TextKeyResult::Handled,
            Some(t.take(cursor - 1) + t.skip(cursor)),
            cursor - 1,
        ),
        cursor == 0 ==> text_key_effect(KEY_BACKSPACE, u, Some(t), cursor) == (
            TextKeyResult::Handled,
            Some(t),
            0int,
        ),
        text_key_effect(KEY_LEFT, u, Some(t), cursor) == (
            TextKeyResult::Handled,
            Some(t),
            if cursor > 0 { cursor - 1 } else { 0 },
        ),
        text_key_effect(KEY_RIGHT, u, Some(t), cursor) == (
            TextKeyResult::Handled,
            Some(t),
            if cursor < t.len() { cursor + 1 } else { cursor },
        ),
{
    if cursor < t.len() {
        assert(t.remove(cursor) =~= t.take(cursor) + t.skip(cursor + 1));
    }
    if cursor > 0 {
        assert(t.remove(cursor - 1) =~= t.take(cursor - 1) + t.skip(cursor));
    }
}

/// Home moves the cursor to the start and End to the end of the text (counted in
/// characters); Escape ends editing with the cursor reset; Return and a typed printable
/// character go in at the cursor, which moves past them; when the edited text is not on
/// the page, no key changes anything but the cursor.
pub proof fn lemma_other_keys_at_cursor(keyval: u32, ch: char, t: Seq<char>, cursor: int)
    requires
        0 <= cursor <= t.len(),
    ensures
        text_key_effect(KEY_HOME, None, Some(t), cursor) == (TextKeyResult::Handled, Some(t), 0int),
        text_key_effect(KEY_END, None, Some(t), cursor) == (
            TextKeyResult::Handled,
            Some(t),
            t.len() as int,
        ),
        text_key_effect(KEY_ESCAPE, None, Some(t), cursor) == (
            TextKeyResult::ExitEditing,
            Some(t),
            0int,
        ),
        text_key_effect(KEY_RETURN, None, Some(t), cursor) == (
            TextKeyResult::Handled,
            Some(t.take(cursor) + seq!['\n'] + t.skip(cursor)),
            cursor + 1,
        ),
        (!is_control_char(ch) && keyval != KEY_ESCAPE && keyval != KEY_BACKSPACE && keyval
            != KEY_DELETE && keyval != KEY_LEFT && keyval != KEY_RIGHT && keyval != KEY_HOME
            && keyval != KEY_END && keyval != KEY_RETURN) ==> text_key_effect(
            keyval,
            Some(ch),
            Some(t),
            cursor,
        ) == (TextKeyResult::Handled, Some(t.take(cursor) + seq![ch] + t.skip(cursor)), cursor + 1),
        text_key_effect(keyval, Some(ch), None, cursor).1 is None,
{
    assert(t.insert(cursor, '\n') =~= t.take(cursor) + seq!['\n'] + t.skip(cursor));
    assert(t.insert(cursor, ch) =~= t.take(cursor) + seq![ch] + t.skip(cursor));
}

/// Typing a character, pressing Left and then Delete gives back the text, with the
/// cursor where the character was typed.
pub proof fn lemma_delete_undoes_typing(keyval: u32, ch: char, t: Seq<char>, cursor: int)
    requires
        0 <= cursor <= t.len(),
        !is_control_char(ch),
        keyval != KEY_ESCAPE,
        keyval != KEY_BACKSPACE,
        keyval != KEY_DELETE,
        keyval != KEY_LEFT,
        keyval != KEY_RIGHT,
        keyval != KEY_HOME,
        keyval != KEY_END,
        keyval != KEY_RETURN,
    ensures
        ({
            let (r1, t1, c1) = text_key_effect(keyval, Some(ch), Some(t), cursor);
            let (r2, t2, c2) = text_key_effect(KEY_LEFT, None, t1, c1);
            &&& r1 == TextKeyResult::Handled
            &&& c2 == cursor
            &&& text_key_effect(KEY_DELETE, None, t2, c2) == (
                TextKeyResult::Handled,
                Some(t),
                cursor,
            )
        }),
{
    assert(t.insert(cursor, ch).remove(cursor) =~= t);
}

/// Typing a character and then pressing Backspace gives back the text and the cursor.
pub proof fn lemma_backspace_undoes_typing(keyval: u32, ch: char, t: Seq<char>, cursor: int)
    requires
        0 <= cursor <= t.len(),
        !is_control_char(ch),
        keyval != KEY_ESCAPE,
        keyval != KEY_BACKSPACE,
        keyval != KEY_DELETE,
        keyval != KEY_LEFT,
        keyval != KEY_RIGHT,
        keyval != KEY_HOME,
        keyval != KEY_END,
        keyval != KEY_RETURN,
    ensures
        ({
            let (r1, t1, c1) = text_key_effect(keyval, Some(ch), Some(t), cursor);
            &&& r1 == TextKeyResult::Handled
            &&& text_key_effect(KEY_BACKSPACE, None, t1, c1) == (
                TextKeyResult::Handled,
                Some(t),
                cursor,
            )
        }),
{
    assert(t.insert(cursor, ch).remove(cursor) =~= t);
}

/// Inserting several characters at once (a paste or an input-method commit): they go in
/// at the cursor in order when the cursor lies within the text, and the cursor ends
/// after them in any case.
pub open spec fn chars_inserted(t: Seq<char>, cursor: int, new_chars: Seq<char>) -> Seq<char> {
    if cursor <= t.len() {
        t.take(cursor) + new_chars + t.skip(cursor)
    } else {
        t
    }
}

/// Inserts `new_chars` at the cursor one by one and returns the cursor after them.
pub fn insert_chars_at_cursor(chars: &mut Vec<char>, cursor_pos: usize, new_chars: &Vec<char>) -> (res: usize)
    requires
        cursor_pos + new_chars@.len() <= usize::MAX,
    ensures
        final(chars)@ == chars_inserted(old(chars)@, cursor_pos as int, new_chars@),
        res == cursor_pos + new_chars@.len(),
{
    let ghost t = chars@;
    let mut current_pos = cursor_pos;
    let n = new_chars.len();
    for i in 0..n
        invariant
            n == new_chars@.len(),
            cursor_pos + n <= usize::MAX,
            current_pos == cursor_pos + i,
            cursor_pos <= t.len() ==> chars@ == t.take(cursor_pos as int) + new_chars@.take(i as int) + t.skip(cursor_pos as int),
            cursor_pos > t.len() ==> chars@ == t,
    {
        if current_pos <= chars.len() {
            chars.insert(current_pos, new_chars[i]);
        }
        proof {
            if cursor_pos <= t.len() {
                assert(new_chars@.take(i + 1) =~= new_chars@.take(i as int).push(new_chars@[i as int]));
                assert(chars@ =~= t.take(cursor_pos as int) + new_chars@.take(i + 1) + t.skip(cursor_pos as int));
            }
        }
        current_pos = current_pos + 1;
    }
    proof {
        assert(new_chars@.take(n as int) =~= new_chars@);
        if cursor_pos <= t.len() {
            assert(chars@ == t.take(cursor_pos as int) + new_chars@ + t.skip(cursor_pos as int));
        }
    }
    current_pos
}

/// Ctrl+V while editing text: the clipboard text without its leading and trailing white
/// space goes in at the cursor (when the edited element is on the page) and the cursor
/// moves past it. Returns whether there was anything to paste; when not, nothing changes.
pub fn paste_text_in_editing(
    content: &mut Option<Vec<char>>,
    cursor_pos: &mut usize,
    clipboard_text: &str,
) -> (res: bool)
    requires
        *old(cursor_pos) + trimmed(clipboard_text@).len() <= usize::MAX,
    ensures
        res == (trimmed(clipboard_text@).len() > 0),
        res ==> text_view(*final(content)) == match text_view(*old(content)) {
            Some(t) => Some(chars_inserted(t, *old(cursor_pos) as int, trimmed(clipboard_text@))),
            None => None,
        },
        res ==> *final(cursor_pos) == *old(cursor_pos) + trimmed(clipboard_text@).len(),
        !res ==> *final(content) == *old(content) && *final(cursor_pos) == *old(cursor_pos),
{
    let pasted = trim_str(clipboard_text);
    let n = pasted.unicode_len();
    if n == 0 {
        return false;
    }
    let mut new_chars: Vec<char> = Vec::new();
    for i in 0..n
        invariant
            n == pasted@.len(),
            new_chars@ == pasted@.take(i as int),
    {
        new_chars.push(pasted.get_char(i));
        assert(pasted@.take(i + 1) =~= pasted@.take(i as int).push(pasted@[i as int]));
    }
    assert(pasted@.take(n as int) =~= pasted@);
    match content {
        Some(chars) => {
            insert_chars_at_cursor(chars, *cursor_pos, &new_chars);
        },
        None => {},
    }
    *cursor_pos = *cursor_pos + n;
    true
}

/// What the canvas does with a key press.
#[derive(Clone, Copy, Debug, PartialEq, Eq, Structural)]
pub enum KeyAction {
    /// Ctrl+Shift+I: insert an image element
    InsertImage,
    /// Ctrl+Shift+S: save the document as a template
    SaveTemplate,
    /// Ctrl+L/R/E/C/J while editing: change the edited text's alignment
    SetTextAlignment(TextAlignment),
    /// Escape while editing: leave text editing
    ExitTextEditing,
    /// A key consumed by the text editor (its effect is already applied)
    TextEdited,
    /// Ctrl+C: copy the selected objects
    Copy,
    /// Ctrl+X: cut the selected objects
    Cut,
    /// Ctrl+V while editing: paste clipboard text into the edited text
    PasteText,
    /// Ctrl+V otherwise: paste the copied objects
    PasteElements,
    /// Ctrl+D: duplicate the selected objects
    Duplicate,
    /// Arrow keys: move the selected objects by this many pixels
    MoveSelection { dx: i32, dy: i32 },
    /// The key is passed on
    Ignored,
}

/// The action for a key press that the text editor did not consume.
pub open spec fn shortcut_action(keyval: u32, ctrl: bool, shift: bool, editing: bool) -> KeyAction {
    let step: i32 = if shift { 10i32 } else { 1i32 };
    let back: i32 = if shift { -10i32 } else { -1i32 };
    if ctrl && !editing && keyval == KEY_C {
        KeyAction::Copy
    } else if ctrl && !editing && keyval == KEY_X {
        KeyAction::Cut
    } else if ctrl && keyval == KEY_V {
        if editing {
            KeyAction::PasteText
        } else {
            KeyAction::PasteElements
        }
    } else if ctrl && !editing && keyval == KEY_D {
        KeyAction::Duplicate
    } else if !editing && keyval == KEY_LEFT {
        KeyAction::MoveSelection { dx: back, dy: 0 }
    } else if !editing && keyval == KEY_RIGHT {
        KeyAction::MoveSelection { dx: step, dy: 0 }
    } else if !editing && keyval == KEY_UP {
        KeyAction::MoveSelection { dx: 0, dy: back }
    } else if !editing && keyval == KEY_DOWN {
        KeyAction::MoveSelection { dx: 0, dy: step }
    } else {
        KeyAction::Ignored
    }
}

/// The outcome of a key press on the canvas: the action, the edited text and the
/// cursor afterwards. Image insertion and template saving come first, then the
/// alignment keys and Ctrl+V (which pastes) while editing, then the text editor, then
/// the shortcuts.
pub open spec fn key_press_outcome(
    keyval: u32,
    unicode: Option<char>,
    ctrl: bool,
    shift: bool,
    editing: bool,
    text: Option<Seq<char>>,
    cursor: int,
) -> (KeyAction, Option<Seq<char>>, int) {
    if ctrl && shift && keyval == KEY_I {
        (KeyAction::InsertImage, text, cursor)
    } else if ctrl && shift && keyval == KEY_S {
        (KeyAction::SaveTemplate, text, cursor)
    } else if ctrl && editing && alignment_of_key(keyval) is Some {
        (KeyAction::SetTextAlignment(alignment_of_key(keyval).unwrap()), text, cursor)
    } else if ctrl && editing && keyval == KEY_V {
        (KeyAction::PasteText, text, cursor)
    } else if editing && text_key_effect(keyval, unicode, text, cursor).0
        != TextKeyResult::Unhandled {
        let (r, t, c) = text_key_effect(keyval, unicode, text, cursor);
        (
            if r == TextKeyResult::ExitEditing {
                KeyAction::ExitTextEditing
            } else {
                KeyAction::TextEdited
            },
            t,
            c,
        )
    } else {
        (shortcut_action(keyval, ctrl, shift, editing), text, cursor)
    }
}

/// Decides what a key press does on the canvas, applying text editing keys to the edited
/// text and cursor. `ctrl` is true for Control, Super or Meta; `editing` says whether a
/// text element is being edited and `content` holds its characters when it is on the
/// page.
pub fn handle_key_press(
    keyval: u32,
    unicode: Option<char>,
    ctrl: bool,
    shift: bool,
    editing: bool,
    content: &mut Option<Vec<char>>,
    cursor_pos: &mut usize,
) -> (res: KeyAction)
    requires
        text_fits(text_view(*old(content))),
    ensures
        (res, text_view(*final(content)), *final(cursor_pos) as int) == key_press_outcome(
            keyval,
            unicode,
            ctrl,
            shift,
            editing,
            text_view(*old(content)),
            *old(cursor_pos) as int,
        ),
{
    // Ctrl+Shift+I inserts an image, Ctrl+Shift+S saves as template
    if ctrl && shift && keyval == KEY_I {
        return KeyAction::InsertImage;
    }
    if ctrl && shift && keyval == KEY_S {
        return KeyAction::SaveTemplate;
    }
    // Text alignment shortcuts while editing
    if ctrl && editing {
        if let Some(alignment) = alignment_for_key(keyval) {
            return KeyAction::SetTextAlignment(alignment);
        }
        // Ctrl+V pastes into the edited text
        if keyval == KEY_V {
            return KeyAction::PasteText;
        }
    }
    // Text editing keys
    if editing {
        match handle_text_editing_key(keyval, unicode, content, cursor_pos) {
            TextKeyResult::ExitEditing => return KeyAction::ExitTextEditing,
            TextKeyResult::Handled => return KeyAction::TextEdited,
            TextKeyResult::Unhandled => {},
        }
    }
    let step: i32 = if shift { 10 } else { 1 };
    if ctrl && !editing && keyval == KEY_C {
        KeyAction::Copy
    } else if ctrl && !editing && keyval == KEY_X {
        KeyAction::Cut
    } else if ctrl && keyval == KEY_V {
        if editing {
            KeyAction::PasteText
        } else {
            KeyAction::PasteElements
        }
    } else if ctrl && !editing && keyval == KEY_D {
        KeyAction::Duplicate
    } else if !editing && keyval == KEY_LEFT {
        KeyAction::MoveSelection { dx: -step, dy: 0 }
    } else if !editing && keyval == KEY_RIGHT {
        KeyAction::MoveSelection { dx: step, dy: 0 }
    } else if !editing && keyval == KEY_UP {
        KeyAction::MoveSelection { dx: 0, dy: -step }
    } else if !editing && keyval == KEY_DOWN {
        KeyAction::MoveSelection { dx: 0, dy: step }
    } else {
        KeyAction::Ignored
    }
}

/// Outside text editing, Ctrl+C copies, Ctrl+X cuts, Ctrl+V pastes the copied objects,
/// Ctrl+D duplicates, and the arrows move the selection by one pixel (ten with Shift)
/// in their direction; while a text is edited, Ctrl+V pastes into it and changes
/// neither its text nor its cursor by itself.
pub proof fn lemma_shortcuts_dispatch(
    unicode: Option<char>,
    shift: bool,
    ctrl: bool,
    text: Option<Seq<char>>,
    cursor: int,
)
    ensures
        key_press_outcome(KEY_C, unicode, true, shift, false, text, cursor).0 == KeyAction::Copy,
        key_press_outcome(KEY_X, unicode, true, shift, false, text, cursor).0 == KeyAction::Cut,
        key_press_outcome(KEY_V, unicode, true, shift, false, text, cursor).0
            == KeyAction::PasteElements,
        key_press_outcome(KEY_D, unicode, true, shift, false, text, cursor).0
            == KeyAction::Duplicate,
        key_press_outcome(KEY_V, unicode, true, shift, true, text, cursor) == (
            KeyAction::PasteText,
            text,
            cursor,
        ),
        ({
            let step: i32 = if shift { 10i32 } else { 1i32 };
            let back: i32 = if shift { -10i32 } else { -1i32 };
            &&& key_press_outcome(KEY_LEFT, unicode, ctrl, shift, false, text, cursor).0
                == (KeyAction::MoveSelection { dx: back, dy: 0 })
            &&& key_press_outcome(KEY_RIGHT, unicode, ctrl, shift, false, text, cursor).0
                == (KeyAction::MoveSelection { dx: step, dy: 0 })
            &&& key_press_outcome(KEY_UP, unicode, ctrl, shift, false, text, cursor).0
                == (KeyAction::MoveSelection { dx: 0, dy: back })
            &&& key_press_outcome(KEY_DOWN, unicode, ctrl, shift, false, text, cursor).0
                == (KeyAction::MoveSelection { dx: 0, dy: step })
        }),
{
}

/// While a text is edited, object shortcuts other than pasting never fire and the arrow
/// keys never move objects; the text is only changed by the text editor.
pub proof fn lemma_editing_shields_objects(
    keyval: u32,
    unicode: Option<char>,
    ctrl: bool,
    shift: bool,
    text: Option<Seq<char>>,
    cursor: int,
)
    ensures
        ({
            let a = key_press_outcome(keyval, unicode, ctrl, shift, true, text, cursor).0;
            &&& a != KeyAction::Copy
            &&& a != KeyAction::Cut
            &&& a != KeyAction::Duplicate
            &&& a != KeyAction::PasteElements
            &&& !(a is MoveSelection)
        }),
        key_press_outcome(keyval, unicode, ctrl, shift, false, text, cursor).1 == text,
        key_press_outcome(keyval, unicode, ctrl, shift, false, text, cursor).2 == cursor,
{
}

} // verus!
