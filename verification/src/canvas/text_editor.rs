//! Text editing functionality for canvas text elements
//!
//! Provides in-app text editing with cursor, selection, and text manipulation.
//! Positions (cursor and selection ends) are byte offsets into the UTF-8 encoding of
//! the edited content.
use vstd::prelude::*;
use vstd::utf8::*;
use crate::text_bytes::{
    splice, char_width_at, drain_bytes, insert_str_at, remove_char_at, byte_slice,
    lemma_splice_boundary, lemma_boundary_at_join,
};

verus! {

broadcast use {encode_utf8_valid_utf8, is_char_boundary_start_end_of_seq};

/// The state of an editing session as the contracts see it: the content's bytes, the
/// cursor and the two selection ends.
pub struct EditorModel {
    pub bytes: Seq<u8>,
    pub cursor: int,
    pub selection_start: Option<int>,
    pub selection_end: Option<int>,
}

/// An optional position widened to a mathematical integer.
pub open spec fn opt_pos(o: Option<usize>) -> Option<int> {
    match o {
        Some(v) => Some(v as int),
        None => None,
    }
}

/// The selected byte range, lower end first, when both selection ends are set.
pub open spec fn selection_bounds(m: EditorModel) -> Option<(int, int)> {
    match (m.selection_start, m.selection_end) {
        (Some(s), Some(e)) => if s < e { Some((s, e)) } else { Some((e, s)) },
        _ => None,
    }
}

/// The selection (or any range) `lo..hi` is removed, the cursor goes to `lo` and the
/// selection is dropped.
pub open spec fn with_range_removed(m: EditorModel, lo: int, hi: int) -> EditorModel {
    EditorModel {
        bytes: splice(m.bytes, lo, hi, seq![]),
        cursor: lo,
        selection_start: None,
        selection_end: None,
    }
}

/// The selected range lies in the content and both ends are character boundaries.
pub open spec fn selection_removable(m: EditorModel) -> bool {
    match selection_bounds(m) {
        Some((lo, hi)) => hi <= m.bytes.len() && is_char_boundary(m.bytes, lo)
            && is_char_boundary(m.bytes, hi),
        None => true,
    }
}

/// Typing `t`: a selection is replaced; otherwise `t` goes in at the cursor when the
/// cursor lies within the content, and the cursor ends after it.
pub open spec fn after_insert_text(m: EditorModel, t: Seq<u8>) -> EditorModel {
    let m1 = match selection_bounds(m) {
        Some((lo, hi)) => with_range_removed(m, lo, hi),
        None => m,
    };
    if m1.cursor <= m1.bytes.len() {
        EditorModel {
            bytes: splice(m1.bytes, m1.cursor, m1.cursor, t),
            cursor: m1.cursor + t.len(),
            selection_start: m1.selection_start,
            selection_end: m1.selection_end,
        }
    } else {
        m1
    }
}

/// The inputs on which typing `t` does not fail.
pub open spec fn can_insert_text(m: EditorModel, t: Seq<u8>) -> bool {
    &&& m.bytes.len() + t.len() <= isize::MAX
    &&& selection_removable(m)
    &&& (selection_bounds(m) is None && 0 <= m.cursor <= m.bytes.len()) ==> is_char_boundary(
        m.bytes,
        m.cursor,
    )
}

/// The start of the character before byte `c`: the last character boundary below `c`
/// (0 at the latest).
pub open spec fn prev_char_start(b: Seq<u8>, c: int) -> int
    decreases c,
{
    if c <= 1 {
        0
    } else if is_char_boundary(b, c - 1) {
        c - 1
    } else {
        prev_char_start(b, c - 1)
    }
}

/// The start of the character after the one at byte `c`: the first character boundary
/// above `c` (the end of the content at the latest).
pub open spec fn next_char_start(b: Seq<u8>, c: int) -> int
    decreases b.len() - c,
{
    if c + 1 >= b.len() {
        b.len() as int
    } else if is_char_boundary(b, c + 1) {
        c + 1
    } else {
        next_char_start(b, c + 1)
    }
}

/// Backspace: a selection is removed; otherwise the character before the cursor is
/// removed and the cursor moves to where it started.
pub open spec fn after_backspace(m: EditorModel) -> EditorModel {
    match selection_bounds(m) {
        Some((lo, hi)) => with_range_removed(m, lo, hi),
        None => if m.cursor > 0 {
            let p = prev_char_start(m.bytes, m.cursor);
            EditorModel {
                bytes: splice(m.bytes, p, p + char_width_at(m.bytes, p), seq![]),
                cursor: p,
                selection_start: m.selection_start,
                selection_end: m.selection_end,
            }
        } else {
            m
        },
    }
}

/// The inputs on which backspace does not fail: the cursor lies within the content.
pub open spec fn can_backspace(m: EditorModel) -> bool {
    &&& selection_removable(m)
    &&& (selection_bounds(m) is None && m.cursor > 0) ==> m.cursor <= m.bytes.len()
}

/// Delete: a selection is removed; otherwise the character at the cursor is removed
/// when the cursor lies before the end.
pub open spec fn after_delete(m: EditorModel) -> EditorModel {
    match selection_bounds(m) {
        Some((lo, hi)) => with_range_removed(m, lo, hi),
        None => if 0 <= m.cursor < m.bytes.len() {
            EditorModel {
                bytes: splice(
                    m.bytes,
                    m.cursor,
                    m.cursor + char_width_at(m.bytes, m.cursor),
                    seq![],
                ),
                cursor: m.cursor,
                selection_start: m.selection_start,
                selection_end: m.selection_end,
            }
        } else {
            m
        },
    }
}

/// The inputs on which delete does not fail.
pub open spec fn can_delete(m: EditorModel) -> bool {
    &&& selection_removable(m)
    &&& (selection_bounds(m) is None && 0 <= m.cursor < m.bytes.len()) ==> is_char_boundary(
        m.bytes,
        m.cursor,
    )
}

/// Before a cursor move: without `select` the selection is dropped; with it, a missing
/// selection start is anchored at the cursor.
pub open spec fn anchor_selection(m: EditorModel, select: bool) -> EditorModel {
    if !select {
        EditorModel { bytes: m.bytes, cursor: m.cursor, selection_start: None, selection_end: None }
    } else if m.selection_start is None {
        EditorModel {
            bytes: m.bytes,
            cursor: m.cursor,
            selection_start: Some(m.cursor),
            selection_end: m.selection_end,
        }
    } else {
        m
    }
}

/// The cursor moves to `c`; with `select` the selection end follows it.
pub open spec fn cursor_to(m: EditorModel, c: int, select: bool) -> EditorModel {
    EditorModel {
        bytes: m.bytes,
        cursor: c,
        selection_start: m.selection_start,
        selection_end: if select { Some(c) } else { m.selection_end },
    }
}

/// Left arrow: back to the start of the previous character, if not at the start.
pub open spec fn after_move_left(m: EditorModel, select: bool) -> EditorModel {
    let m1 = anchor_selection(m, select);
    if m1.cursor > 0 {
        cursor_to(m1, prev_char_start(m1.bytes, m1.cursor), select)
    } else {
        m1
    }
}

/// Right arrow: forward to the start of the next character, if before the end.
pub open spec fn after_move_right(m: EditorModel, select: bool) -> EditorModel {
    let m1 = anchor_selection(m, select);
    if m1.cursor < m1.bytes.len() {
        cursor_to(m1, next_char_start(m1.bytes, m1.cursor), select)
    } else {
        m1
    }
}

/// Home: to the start of the content.
pub open spec fn after_move_home(m: EditorModel, select: bool) -> EditorModel {
    cursor_to(anchor_selection(m, select), 0, select)
}

/// End: to the end of the content.
pub open spec fn after_move_end(m: EditorModel, select: bool) -> EditorModel {
    cursor_to(anchor_selection(m, select), m.bytes.len() as int, select)
}

/// Select all: the whole content is selected and the cursor is at its end.
pub open spec fn after_select_all(m: EditorModel) -> EditorModel {
    EditorModel {
        bytes: m.bytes,
        cursor: m.bytes.len() as int,
        selection_start: Some(0),
        selection_end: Some(m.bytes.len() as int),
    }
}

/// The selected bytes, when the selection is non-empty and lies within the content.
pub open spec fn selected_bytes(m: EditorModel) -> Option<Seq<u8>> {
    match selection_bounds(m) {
        Some((lo, hi)) => if lo < hi && hi <= m.bytes.len() {
            Some(m.bytes.subrange(lo, hi))
        } else {
            None
        },
        None => None,
    }
}

/// The inputs on which reading the selection does not fail.
pub open spec fn can_read_selection(m: EditorModel) -> bool {
    match selection_bounds(m) {
        Some((lo, hi)) => (lo < hi && hi <= m.bytes.len()) ==> (is_char_boundary(m.bytes, lo)
            && is_char_boundary(m.bytes, hi)),
        None => true,
    }
}

/// Deleting the selection: a non-empty selection is removed; anything else is left as is.
pub open spec fn after_delete_selection(m: EditorModel) -> EditorModel {
    match selection_bounds(m) {
        Some((lo, hi)) => if lo < hi { with_range_removed(m, lo, hi) } else { m },
        None => m,
    }
}

/// The inputs on which deleting the selection does not fail.
pub open spec fn can_delete_selection(m: EditorModel) -> bool {
    match selection_bounds(m) {
        Some((lo, hi)) => lo < hi ==> (hi <= m.bytes.len() && is_char_boundary(m.bytes, lo)
            && is_char_boundary(m.bytes, hi)),
        None => true,
    }
}

/// Clearing the selection drops both ends.
pub open spec fn after_clear_selection(m: EditorModel) -> EditorModel {
    EditorModel { bytes: m.bytes, cursor: m.cursor, selection_start: None, selection_end: None }
}

/// The character that starts at a boundary inside valid UTF-8 takes between one byte and
/// the rest of the sequence.
pub proof fn lemma_char_fits(b: Seq<u8>, i: int)
    requires
        valid_utf8(b),
        0 <= i < b.len(),
        is_char_boundary(b, i),
    ensures
        1 <= char_width_at(b, i) <= b.len() - i,
{
    valid_utf8_split(b, i);
    let rest = b.subrange(i, b.len() as int);
    assert(rest.len() > 0);
    assert(valid_first_scalar(rest));
}

/// Removing the character that starts at a boundary leaves valid UTF-8, in which the
/// place of the removed character is a boundary.
pub proof fn lemma_remove_char_valid(b: Seq<u8>, i: int)
    requires
        valid_utf8(b),
        0 <= i < b.len(),
        is_char_boundary(b, i),
    ensures
        valid_utf8(splice(b, i, i + char_width_at(b, i), seq![])),
        is_char_boundary(splice(b, i, i + char_width_at(b, i), seq![]), i),
        1 <= char_width_at(b, i) <= b.len() - i,
{
    lemma_char_fits(b, i);
    valid_utf8_split(b, i);
    let rest = b.subrange(i, b.len() as int);
    let w = char_width_at(b, i);
    assert(pop_first_scalar(rest) =~= b.subrange(i + w, b.len() as int));
    lemma_boundary_at_join(b.subrange(0, i), b.subrange(i + w, b.len() as int));
    assert(splice(b, i, i + w, seq![]) =~= b.subrange(0, i) + b.subrange(i + w, b.len() as int));
}

/// The start of the previous character is a boundary below `c`, with no boundary
/// between it and `c`.
pub proof fn lemma_prev_char_start(b: Seq<u8>, c: int)
    requires
        valid_utf8(b),
        0 < c,
    ensures
        0 <= prev_char_start(b, c) < c,
        is_char_boundary(b, prev_char_start(b, c)),
        forall|k: int| prev_char_start(b, c) < k < c ==> !#[trigger] is_char_boundary(b, k),
    decreases c,
{
    if c > 1 && !is_char_boundary(b, c - 1) {
        lemma_prev_char_start(b, c - 1);
    }
}

/// The start of the next character is a boundary above `c`, at most the end of the
/// content, with no boundary between `c` and it.
pub proof fn lemma_next_char_start(b: Seq<u8>, c: int)
    requires
        valid_utf8(b),
        0 <= c < b.len(),
    ensures
        c < next_char_start(b, c) <= b.len(),
        is_char_boundary(b, next_char_start(b, c)),
        forall|k: int| c < k < next_char_start(b, c) ==> !#[trigger] is_char_boundary(b, k),
    decreases b.len() - c,
{
    if c + 1 < b.len() && !is_char_boundary(b, c + 1) {
        lemma_next_char_start(b, c + 1);
    }
}

/// Typing a single ASCII character and then pressing backspace gives back the content,
/// cursor and selection from before.
pub proof fn lemma_backspace_undoes_ascii_insert(m: EditorModel, x: u8)
    requires
        valid_utf8(m.bytes),
        selection_bounds(m) is None,
        0 <= m.cursor <= m.bytes.len(),
        is_char_boundary(m.bytes, m.cursor),
        x <= 0x7f,
        m.bytes.len() + 1 <= isize::MAX,
    ensures
        can_insert_text(m, seq![x]),
        can_backspace(after_insert_text(m, seq![x])),
        after_backspace(after_insert_text(m, seq![x])) == m,
{
    let b = m.bytes;
    let c = m.cursor;
    let m1 = after_insert_text(m, seq![x]);
    assert(valid_utf8(seq![x])) by {
        reveal_with_fuel(valid_utf8, 2);
        assert(seq![x].subrange(1, 1) =~= Seq::<u8>::empty());
    }
    lemma_splice_boundary(b, c, c, seq![x]);
    assert(m1.bytes == splice(b, c, c, seq![x]));
    assert(m1.cursor == c + 1);
    assert(prev_char_start(m1.bytes, c + 1) == c);
    let rest = m1.bytes.subrange(c, m1.bytes.len() as int);
    assert(rest[0] == x);
    assert(char_width_at(m1.bytes, c) == 1);
    assert(splice(m1.bytes, c, c + 1, seq![]) =~= b);
}

/// Deleting a selection and typing back what it held gives back the content, with the
/// cursor at the selection's upper end. The content is at most `isize::MAX` bytes long,
/// as the content of every `String` is.
pub proof fn lemma_delete_then_reinsert_restores(m: EditorModel)
    requires
        valid_utf8(m.bytes),
        selection_bounds(m) matches Some((lo, hi)) && lo < hi && hi <= m.bytes.len()
            && is_char_boundary(m.bytes, lo) && is_char_boundary(m.bytes, hi),
        m.bytes.len() <= isize::MAX,
    ensures
        selected_bytes(m) is Some,
        can_delete_selection(m),
        can_insert_text(after_delete_selection(m), selected_bytes(m).unwrap()),
        after_insert_text(after_delete_selection(m), selected_bytes(m).unwrap()).bytes
            == m.bytes,
        after_insert_text(after_delete_selection(m), selected_bytes(m).unwrap()).cursor
            == selection_bounds(m).unwrap().1,
{
    let (lo, hi) = selection_bounds(m).unwrap();
    let b = m.bytes;
    let s = b.subrange(lo, hi);
    let m1 = after_delete_selection(m);
    lemma_splice_boundary(b, lo, hi, seq![]);
    assert(m1.bytes =~= b.subrange(0, lo) + b.subrange(hi, b.len() as int));
    assert(splice(m1.bytes, lo, lo, s) =~= b);
}

/// The character that starts at a boundary ends at the next boundary: its end is a
/// boundary and no byte inside it is one.
proof fn lemma_char_extent(b: Seq<u8>, i: int)
    requires
        valid_utf8(b),
        0 <= i < b.len(),
        is_char_boundary(b, i),
    ensures
        1 <= char_width_at(b, i) <= b.len() - i,
        is_char_boundary(b, i + char_width_at(b, i)),
        forall|k: int| i < k < i + char_width_at(b, i) ==> !#[trigger] is_char_boundary(b, k),
{
    lemma_char_fits(b, i);
    valid_utf8_split(b, i);
    let rest = b.subrange(i, b.len() as int);
    let w = char_width_at(b, i);
    assert(valid_first_scalar(rest));
    assert forall|k: int| i < k < i + w implies !#[trigger] is_char_boundary(b, k) by {
        assert(b[k] == rest[k - i]);
        assert(is_continuation_byte(rest[k - i]));
        is_char_boundary_iff_not_is_continuation_byte(b, k);
    }
    if i + w < b.len() {
        let tail = pop_first_scalar(rest);
        assert(tail.len() > 0);
        assert(valid_utf8(tail));
        assert(valid_first_scalar(tail));
        assert(b[i + w] == tail[0]);
        is_char_boundary_iff_not_is_continuation_byte(b, i + w);
    }
}

/// Without a selection, the editing keys act at the cursor: typing puts the text in at
/// the cursor and moves the cursor past it; Delete removes the one character after the
/// cursor and leaves the cursor; Backspace removes the one character before the cursor
/// and moves the cursor to where that character started. A character here is the bytes
/// between two neighbouring boundaries.
pub proof fn lemma_edits_act_at_cursor(m: EditorModel, t: Seq<u8>)
    requires
        valid_utf8(m.bytes),
        0 <= m.cursor <= m.bytes.len(),
        is_char_boundary(m.bytes, m.cursor),
        selection_bounds(m) is None,
    ensures
        ({
            let b = m.bytes;
            let c = m.cursor;
            let m1 = after_insert_text(m, t);
            &&& m1.bytes == b.subrange(0, c) + t + b.subrange(c, b.len() as int)
            &&& m1.cursor == c + t.len()
        }),
        m.cursor < m.bytes.len() ==> ({
            let b = m.bytes;
            let c = m.cursor;
            let m1 = after_delete(m);
            exists|n: int|
                #![trigger is_char_boundary(b, n)]
                c < n <= b.len() && is_char_boundary(b, n) && (forall|k: int|
                    c < k < n ==> !#[trigger] is_char_boundary(b, k)) && m1.bytes == b.subrange(0, c)
                    + b.subrange(n, b.len() as int) && m1.cursor == c
        }),
        m.cursor > 0 ==> ({
            let b = m.bytes;
            let c = m.cursor;
            let m1 = after_backspace(m);
            &&& 0 <= m1.cursor < c
            &&& is_char_boundary(b, m1.cursor)
            &&& forall|k: int| m1.cursor < k < c ==> !#[trigger] is_char_boundary(b, k)
            &&& m1.bytes == b.subrange(0, m1.cursor) + b.subrange(c, b.len() as int)
        }),
{
    let b = m.bytes;
    let c = m.cursor;
    assert(splice(b, c, c, t) =~= b.subrange(0, c) + t + b.subrange(c, b.len() as int));
    if c < b.len() {
        lemma_char_extent(b, c);
        let n = c + char_width_at(b, c);
        assert(splice(b, c, n, seq![]) =~= b.subrange(0, c) + b.subrange(n, b.len() as int));
        assert(is_char_boundary(b, n));
    }
    if c > 0 {
        lemma_prev_char_start(b, c);
        let p = prev_char_start(b, c);
        lemma_char_extent(b, p);
        let e = p + char_width_at(b, p);
        if e < c {
            assert(is_char_boundary(b, e));
        }
        if e > c {
            assert(!is_char_boundary(b, c));
        }
        assert(e == c);
        assert(splice(b, p, e, seq![]) =~= b.subrange(0, p) + b.subrange(c, b.len() as int));
    }
}

/// A cursor move with Shift from a state without selection selects exactly the one
/// character it crossed: Shift+Left the character before the cursor, Shift+Right the
/// character after it; the selection starts where the cursor was and ends where it is.
/// Without Shift the same moves go by one character too and leave no selection.
pub proof fn lemma_selecting_moves_select_one_character(m: EditorModel)
    requires
        valid_utf8(m.bytes),
        0 <= m.cursor <= m.bytes.len(),
        is_char_boundary(m.bytes, m.cursor),
        m.selection_start is None,
        m.selection_end is None,
    ensures
        m.cursor > 0 ==> ({
            let m1 = after_move_left(m, true);
            let p = m1.cursor;
            &&& 0 <= p < m.cursor
            &&& is_char_boundary(m.bytes, p)
            &&& forall|k: int| p < k < m.cursor ==> !#[trigger] is_char_boundary(m.bytes, k)
            &&& m1.bytes == m.bytes
            &&& m1.selection_start == Some(m.cursor)
            &&& m1.selection_end == Some(p)
            &&& selected_bytes(m1) == Some(m.bytes.subrange(p, m.cursor))
        }),
        m.cursor < m.bytes.len() ==> ({
            let m1 = after_move_right(m, true);
            let n = m1.cursor;
            &&& m.cursor < n <= m.bytes.len()
            &&& is_char_boundary(m.bytes, n)
            &&& forall|k: int| m.cursor < k < n ==> !#[trigger] is_char_boundary(m.bytes, k)
            &&& m1.bytes == m.bytes
            &&& m1.selection_start == Some(m.cursor)
            &&& m1.selection_end == Some(n)
            &&& selected_bytes(m1) == Some(m.bytes.subrange(m.cursor, n))
        }),
        after_move_left(m, false).selection_start is None,
        after_move_left(m, false).selection_end is None,
        after_move_left(m, false).cursor == after_move_left(m, true).cursor,
        after_move_right(m, false).selection_start is None,
        after_move_right(m, false).selection_end is None,
        after_move_right(m, false).cursor == after_move_right(m, true).cursor,
{
    if m.cursor > 0 {
        lemma_prev_char_start(m.bytes, m.cursor);
    }
    if m.cursor < m.bytes.len() {
        lemma_next_char_start(m.bytes, m.cursor);
    }
}

/// The cursor lies within the content and on a character boundary.
pub open spec fn cursor_in_text(m: EditorModel) -> bool {
    &&& valid_utf8(m.bytes)
    &&& 0 <= m.cursor <= m.bytes.len()
    &&& is_char_boundary(m.bytes, m.cursor)
}

/// Every editing step leaves the cursor within the content and on a character boundary
/// when it started there.
pub proof fn lemma_edits_keep_cursor_in_text(m: EditorModel, t: Seq<u8>)
    requires
        cursor_in_text(m),
        valid_utf8(t),
    ensures
        can_insert_text(m, t) ==> cursor_in_text(after_insert_text(m, t)),
        can_backspace(m) ==> cursor_in_text(after_backspace(m)),
        can_delete(m) ==> cursor_in_text(after_delete(m)),
        can_delete_selection(m) ==> cursor_in_text(after_delete_selection(m)),
        cursor_in_text(after_select_all(m)),
        cursor_in_text(after_clear_selection(m)),
        forall|select: bool| #[trigger] cursor_in_text(after_move_left(m, select)),
        forall|select: bool| #[trigger] cursor_in_text(after_move_right(m, select)),
        forall|select: bool| #[trigger] cursor_in_text(after_move_home(m, select)),
        forall|select: bool| #[trigger] cursor_in_text(after_move_end(m, select)),
{
    let b = m.bytes;
    if m.cursor > 0 {
        lemma_prev_char_start(b, m.cursor);
    }
    if m.cursor < b.len() {
        lemma_next_char_start(b, m.cursor);
    }
    match selection_bounds(m) {
        Some((lo, hi)) => {
            if hi <= b.len() && is_char_boundary(b, lo) && is_char_boundary(b, hi) {
                lemma_splice_boundary(b, lo, hi, seq![]);
                let b1 = splice(b, lo, hi, seq![]);
                assert(valid_utf8(Seq::<u8>::empty()));
                lemma_splice_boundary(b1, lo, lo, t);
            }
        },
        None => {
            if can_insert_text(m, t) {
                lemma_splice_boundary(b, m.cursor, m.cursor, t);
            }
            if can_backspace(m) && m.cursor > 0 {
                lemma_remove_char_valid(b, prev_char_start(b, m.cursor));
            }
            if can_delete(m) && m.cursor < b.len() {
                lemma_remove_char_valid(b, m.cursor);
            }
        },
    }
}

/// Represents an active text editing session. `B` and `S` are the bounds and style of the
/// edited element, carried along unchanged.
#[derive(Clone, Debug)]
pub struct TextEditor<B, S> {
    pub text_id: u128,
    pub content: String,
    pub cursor_pos: usize,
    pub selection_start: Option<usize>,
    pub selection_end: Option<usize>,
    pub bounds: B,
    pub style: S,
}

impl<B, S> TextEditor<B, S> {
    /// The editing state seen by the contracts.
    pub open spec fn model(&self) -> EditorModel {
        EditorModel {
            bytes: encode_utf8(self.content@),
            cursor: self.cursor_pos as int,
            selection_start: opt_pos(self.selection_start),
            selection_end: opt_pos(self.selection_end),
        }
    }

    /// Everything but the edited text is unchanged from `other`.
    pub open spec fn same_element(&self, other: &Self) -> bool {
        &&& self.text_id == other.text_id
        &&& self.bounds == other.bounds
        &&& self.style == other.style
    }

    /// Create a new text editor for the given text element
    pub fn new(text_id: u128, content: String, bounds: B, style: S) -> (res: Self)
        ensures
            res.text_id == text_id,
            res.content == content,
            res.cursor_pos == 0,
            res.selection_start is None,
            res.selection_end is None,
            res.bounds == bounds,
            res.style == style,
    {
        TextEditor {
            text_id,
            content,
            cursor_pos: 0,
            selection_start: None,
            selection_end: None,
            bounds,
            style,
        }
    }

    /// Removes the ordered selection `lo..hi` and puts the cursor at `lo`.
    fn remove_range(&mut self, lo: usize, hi: usize)
        requires
            lo <= hi <= old(self).model().bytes.len(),
            is_char_boundary(old(self).model().bytes, lo as int),
            is_char_boundary(old(self).model().bytes, hi as int),
        ensures
            final(self).model() == with_range_removed(old(self).model(), lo as int, hi as int),
            final(self).same_element(old(self)),
    {
        drain_bytes(&mut self.content, lo, hi);
        self.cursor_pos = lo;
        self.selection_start = None;
        self.selection_end = None;
    }

    /// The ordered selection, when both ends are set.
    fn ordered_selection(&self) -> (res: Option<(usize, usize)>)
        ensures
            match res {
                Some((lo, hi)) => selection_bounds(self.model()) == Some((lo as int, hi as int)),
                None => selection_bounds(self.model()) is None,
            },
    {
        match (self.selection_start, self.selection_end) {
            (Some(start), Some(end)) => if start < end {
                Some((start, end))
            } else {
                Some((end, start))
            },
            _ => None,
        }
    }

    /// Handle text input (character insertion)
    pub fn insert_text(&mut self, text: &str)
        requires
            can_insert_text(old(self).model(), encode_utf8(text@)),
        ensures
            final(self).model() == after_insert_text(old(self).model(), encode_utf8(text@)),
            final(self).same_element(old(self)),
    {
        let ghost m0 = self.model();
        // Delete selection if any
        if let Some((min, max)) = self.ordered_selection() {
            self.remove_range(min, max);
            proof {
                lemma_splice_boundary(m0.bytes, min as int, max as int, seq![]);
            }
        }
        // Insert new text at cursor position
        let len = self.content.as_str().as_bytes().len();
        if self.cursor_pos <= len {
            insert_str_at(&mut self.content, self.cursor_pos, text);
            self.cursor_pos = self.cursor_pos + text.as_bytes().len();
        }
    }

    /// Where the character before byte `c` of the content starts.
    fn prev_char_pos(&self, c: usize) -> (p: usize)
        requires
            c > 0,
        ensures
            p == prev_char_start(self.model().bytes, c as int),
    {
        let s = self.content.as_str();
        let ghost b = self.model().bytes;
        let mut k = c - 1;
        while k > 0 && !s.is_char_boundary(k)
            invariant
                b == encode_utf8(s@),
                k < c,
                prev_char_start(b, c as int) == prev_char_start(b, k + 1),
            decreases k,
        {
            k = k - 1;
        }
        k
    }

    /// Where the character after the one at byte `c` of the content starts.
    fn next_char_pos(&self, c: usize) -> (n: usize)
        requires
            c < self.model().bytes.len(),
        ensures
            n == next_char_start(self.model().bytes, c as int),
    {
        let s = self.content.as_str();
        let ghost b = self.model().bytes;
        let len = s.as_bytes().len();
        let mut k = c + 1;
        while k < len && !s.is_char_boundary(k)
            invariant
                b == encode_utf8(s@),
                len == b.len(),
                c < k <= len,
                next_char_start(b, c as int) == next_char_start(b, k - 1),
            decreases len - k,
        {
            k = k + 1;
        }
        k
    }

    /// Handle backspace (delete character before cursor)
    pub fn handle_backspace(&mut self)
        requires
            can_backspace(old(self).model()),
        ensures
            final(self).model() == after_backspace(old(self).model()),
            final(self).same_element(old(self)),
    {
        // Delete selection if any
        if let Some((min, max)) = self.ordered_selection() {
            self.remove_range(min, max);
            return;
        }
        if self.cursor_pos > 0 {
            let prev_char_pos = self.prev_char_pos(self.cursor_pos);
            proof {
                lemma_prev_char_start(self.model().bytes, self.cursor_pos as int);
            }
            remove_char_at(&mut self.content, prev_char_pos);
            self.cursor_pos = prev_char_pos;
        }
    }

    /// Handle delete key (delete character after cursor)
    pub fn handle_delete(&mut self)
        requires
            can_delete(old(self).model()),
        ensures
            final(self).model() == after_delete(old(self).model()),
            final(self).same_element(old(self)),
    {
        // Delete selection if any
        if let Some((min, max)) = self.ordered_selection() {
            self.remove_range(min, max);
            return;
        }
        if self.cursor_pos < self.content.as_str().as_bytes().len() {
            remove_char_at(&mut self.content, self.cursor_pos);
        }
    }

    /// Drops or anchors the selection before a cursor move.
    fn anchor(&mut self, select: bool)
        ensures
            final(self).model() == anchor_selection(old(self).model(), select),
            final(self).content == old(self).content,
            final(self).same_element(old(self)),
    {
        if !select {
            self.selection_start = None;
            self.selection_end = None;
        } else if self.selection_start.is_none() {
            self.selection_start = Some(self.cursor_pos);
        }
    }

    /// Move cursor left (by character)
    pub fn move_cursor_left(&mut self, select: bool)
        ensures
            final(self).model() == after_move_left(old(self).model(), select),
            final(self).content == old(self).content,
            final(self).same_element(old(self)),
    {
        self.anchor(select);
        if self.cursor_pos > 0 {
            self.cursor_pos = self.prev_char_pos(self.cursor_pos);
            if select {
                self.selection_end = Some(self.cursor_pos);
            }
        }
    }

    /// Move cursor right (by character)
    pub fn move_cursor_right(&mut self, select: bool)
        ensures
            final(self).model() == after_move_right(old(self).model(), select),
            final(self).content == old(self).content,
            final(self).same_element(old(self)),
    {
        self.anchor(select);
        if self.cursor_pos < self.content.as_str().as_bytes().len() {
            self.cursor_pos = self.next_char_pos(self.cursor_pos);
            if select {
                self.selection_end = Some(self.cursor_pos);
            }
        }
    }

    /// Move cursor to beginning of text
    pub fn move_cursor_home(&mut self, select: bool)
        ensures
            final(self).model() == after_move_home(old(self).model(), select),
            final(self).content == old(self).content,
            final(self).same_element(old(self)),
    {
        self.anchor(select);
        self.cursor_pos = 0;
        if select {
            self.selection_end = Some(self.cursor_pos);
        }
    }

    /// Move cursor to end of text
    pub fn move_cursor_end(&mut self, select: bool)
        ensures
            final(self).model() == after_move_end(old(self).model(), select),
            final(self).content == old(self).content,
            final(self).same_element(old(self)),
    {
        self.anchor(select);
        self.cursor_pos = self.content.as_str().as_bytes().len();
        if select {
            self.selection_end = Some(self.cursor_pos);
        }
    }

    /// Select all text
    pub fn select_all(&mut self)
        ensures
            final(self).model() == after_select_all(old(self).model()),
            final(self).content == old(self).content,
            final(self).same_element(old(self)),
    {
        let len = self.content.as_str().as_bytes().len();
        self.selection_start = Some(0);
        self.selection_end = Some(len);
        self.cursor_pos = len;
    }

    /// Get the current selection as a string
    pub fn get_selection(&self) -> (res: Option<String>)
        requires
            can_read_selection(self.model()),
        ensures
            match res {
                Some(s) => selected_bytes(self.model()) == Some(encode_utf8(s@)),
                None => selected_bytes(self.model()) is None,
            },
    {
        if let Some((min, max)) = self.ordered_selection() {
            if min < max && max <= self.content.as_str().as_bytes().len() {
                return Some(String::from_str(byte_slice(self.content.as_str(), min, max)));
            }
        }
        None
    }

    /// Delete the current selection
    pub fn delete_selection(&mut self)
        requires
            can_delete_selection(old(self).model()),
        ensures
            final(self).model() == after_delete_selection(old(self).model()),
            final(self).same_element(old(self)),
    {
        if let Some((min, max)) = self.ordered_selection() {
            if min < max {
                self.remove_range(min, max);
            }
        }
    }

    /// Clear all selection
    pub fn clear_selection(&mut self)
        ensures
            final(self).model() == after_clear_selection(old(self).model()),
            final(self).content == old(self).content,
            final(self).same_element(old(self)),
    {
        self.selection_start = None;
        self.selection_end = None;
    }

    /// Check if cursor is at valid position
    pub fn is_cursor_valid(&self) -> (res: bool)
        ensures
            res == (self.cursor_pos <= self.model().bytes.len()),
    {
        self.cursor_pos <= self.content.as_str().as_bytes().len()
    }

    /// Get the edited content
    pub fn get_content(&self) -> (res: &str)
        ensures
            res@ == self.content@,
    {
        self.content.as_str()
    }

    /// Get the edited content as owned String
    pub fn into_content(self) -> (res: String)
        ensures
            res == self.content,
    {
        self.content
    }
}

} // verus!
