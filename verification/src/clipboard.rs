//! Clipboard management for copy/paste/duplicate operations
//!
//! Keeps the copied elements and the paste counters from which the cumulative paste
//! offset comes, so that repeated pastes do not land on top of each other. Also holds
//! the sizing rules for elements created from external clipboard text and images.
use vstd::prelude::*;
use vstd::utf8::encode_utf8;

verus! {

/// Base offset for paste operations, in pixels
pub const BASE_PASTE_OFFSET: u32 = 20;

/// Offsets wrap around at this cumulative value, in pixels
pub const MAX_PASTE_OFFSET: u32 = 200;

/// The offset (in pixels, along both axes) of the paste made after `count` earlier
/// pastes: the base offset times the paste's number, wrapped at the maximum.
pub open spec fn paste_offset(count: nat) -> nat {
    ((BASE_PASTE_OFFSET * (count + 1)) % (MAX_PASTE_OFFSET as int)) as nat
}

/// Computes `paste_offset(count)`.
fn offset_for_count(count: u32) -> (res: (u32, u32))
    ensures
        res.0 == paste_offset(count as nat),
        res.1 == paste_offset(count as nat),
{
    let offset = ((BASE_PASTE_OFFSET as u64) * (count as u64 + 1)) % (MAX_PASTE_OFFSET as u64);
    (offset as u32, offset as u32)
}

/// Clipboard data structure holding copied elements and metadata
#[derive(Clone, Debug)]
pub struct ClipboardData<E> {
    /// The elements that were copied
    pub elements: Vec<E>,
    /// Current paste count (for cumulative offset)
    pub paste_count: u32,
}

impl<E> ClipboardData<E> {
    /// Create new clipboard data with elements
    pub fn new(elements: Vec<E>) -> (res: Self)
        ensures
            res.elements == elements,
            res.paste_count == 0,
    {
        ClipboardData { elements, paste_count: 0 }
    }

    /// Get the number of elements in clipboard
    pub fn len(&self) -> (res: usize)
        ensures
            res == self.elements@.len(),
    {
        self.elements.len()
    }

    /// Check if clipboard is empty
    pub fn is_empty(&self) -> (res: bool)
        ensures
            res == (self.elements@.len() == 0),
    {
        self.elements.len() == 0
    }

    /// Calculate current paste offset based on paste count
    pub fn current_offset(&self) -> (res: (u32, u32))
        ensures
            res.0 == paste_offset(self.paste_count as nat),
            res.1 == paste_offset(self.paste_count as nat),
    {
        offset_for_count(self.paste_count)
    }

    /// Increment paste count
    pub fn increment_paste_count(&mut self)
        requires
            old(self).paste_count < u32::MAX,
        ensures
            final(self).paste_count == old(self).paste_count + 1,
            final(self).elements == old(self).elements,
    {
        self.paste_count = self.paste_count + 1;
    }

    /// Reset paste count (called when new copy is made)
    pub fn reset_paste_count(&mut self)
        ensures
            final(self).paste_count == 0,
            final(self).elements == old(self).elements,
    {
        self.paste_count = 0;
    }
}

/// External clipboard content types
#[derive(Clone, Debug)]
pub enum ExternalClipboardContent {
    /// Plain text content
    Text(String),
    /// Image data (PNG bytes)
    Image(Vec<u8>),
    /// No supported content
    NoContent,
}

/// The clipboard: the last copied elements (if any) and the counter of pastes of
/// external content.
pub struct ClipboardStore<E> {
    pub data: Option<ClipboardData<E>>,
    pub paste_count: u32,
}

impl<E> ClipboardStore<E> {
    /// An empty clipboard.
    pub fn new() -> (res: Self)
        ensures
            res.data is None,
            res.paste_count == 0,
    {
        ClipboardStore { data: None, paste_count: 0 }
    }
}

/// The clipboard after a copy of `elements`: they replace what was there and both paste
/// counters restart.
pub open spec fn after_copy<E>(elements: Vec<E>) -> ClipboardStore<E> {
    ClipboardStore { data: Some(ClipboardData { elements, paste_count: 0 }), paste_count: 0 }
}

/// The clipboard after a paste of the copied elements: the paste is counted.
pub open spec fn after_paste<E>(s: ClipboardStore<E>) -> ClipboardStore<E> {
    match s.data {
        Some(d) => ClipboardStore {
            data: Some(ClipboardData { elements: d.elements, paste_count: (d.paste_count + 1) as u32 }),
            paste_count: s.paste_count,
        },
        None => s,
    }
}

/// The clipboard after `k` pastes of the copied elements.
pub open spec fn after_pastes<E>(s: ClipboardStore<E>, k: nat) -> ClipboardStore<E>
    decreases k,
{
    if k == 0 {
        s
    } else {
        after_paste(after_pastes(s, (k - 1) as nat))
    }
}

/// The clipboard after a paste of external content: the paste is counted.
pub open spec fn after_external_paste<E>(s: ClipboardStore<E>) -> ClipboardStore<E> {
    ClipboardStore { data: s.data, paste_count: (s.paste_count + 1) as u32 }
}

/// The clipboard after `n` pastes of external content.
pub open spec fn after_external_pastes<E>(s: ClipboardStore<E>, n: nat) -> ClipboardStore<E>
    decreases n,
{
    if n == 0 {
        s
    } else {
        after_external_paste(after_external_pastes(s, (n - 1) as nat))
    }
}

/// The clipboard after the counter of external pastes is reset.
pub open spec fn after_reset<E>(s: ClipboardStore<E>) -> ClipboardStore<E> {
    ClipboardStore { data: s.data, paste_count: 0 }
}

/// Calls `uuid::Uuid::new_v4` and takes the 128-bit value of the new id. The id is drawn
/// at random (version 4), so nothing is claimed of its value.
#[verifier::external_body]
pub(crate) fn random_id() -> (id: u128) {
    uuid::Uuid::new_v4().as_u128()
}

/// Clones of `elements`, in order, each paired with a newly drawn random id.
pub(crate) fn clones_with_new_ids<E: Clone>(elements: &Vec<E>) -> (res: Vec<(u128, E)>)
    ensures
        res@.len() == elements@.len(),
        forall|i: int| 0 <= i < res@.len() ==> cloned::<E>(elements@[i], #[trigger] res@[i].1),
{
    let mut res: Vec<(u128, E)> = Vec::new();
    let n = elements.len();
    for i in 0..n
        invariant
            n == elements@.len(),
            res@.len() == i,
            forall|j: int| 0 <= j < i ==> cloned::<E>(elements@[j], #[trigger] res@[j].1),
    {
        let id = random_id();
        let copy = elements[i].clone();
        res.push((id, copy));
    }
    res
}

/// Copy elements to clipboard (resets paste count)
pub fn copy_to_clipboard<E>(store: &mut ClipboardStore<E>, elements: Vec<E>)
    ensures
        *final(store) == after_copy(elements),
{
    store.data = Some(ClipboardData::new(elements));
    // Reset paste count on new copy
    store.paste_count = 0;
}

/// A paste of the copied elements: returns clones of them, in order, each with a new
/// random id, and the offset by which the pasted copies are moved; counts the paste.
/// `None` when nothing was copied.
pub fn paste_from_clipboard<E: Clone>(store: &mut ClipboardStore<E>) -> (res: Option<
    (Vec<(u128, E)>, (u32, u32)),
>)
    requires
        old(store).data matches Some(d) ==> d.paste_count < u32::MAX,
    ensures
        *final(store) == after_paste(*old(store)),
        match old(store).data {
            Some(d) => res matches Some((copies, offset)) && offset == (
                paste_offset(d.paste_count as nat) as u32,
                paste_offset(d.paste_count as nat) as u32,
            ) && copies@.len() == d.elements@.len() && (forall|i: int|
                0 <= i < copies@.len() ==> cloned::<E>(d.elements@[i], #[trigger] copies@[i].1)),
            None => res is None,
        },
{
    match store.data.as_mut() {
        Some(data) => {
            let offset = data.current_offset();
            data.increment_paste_count();
            let copies = clones_with_new_ids(&data.elements);
            Some((copies, offset))
        },
        None => None,
    }
}

/// Get current paste offset (for external paste operations), and count the paste
pub fn get_paste_offset<E>(store: &mut ClipboardStore<E>) -> (res: (u32, u32))
    requires
        old(store).paste_count < u32::MAX,
    ensures
        res.0 == paste_offset(old(store).paste_count as nat),
        res.1 == paste_offset(old(store).paste_count as nat),
        *final(store) == after_external_paste(*old(store)),
{
    let offset = offset_for_count(store.paste_count);
    store.paste_count = store.paste_count + 1;
    offset
}

/// Reset paste offset counter (called when pasting different content)
pub fn reset_paste_offset<E>(store: &mut ClipboardStore<E>)
    ensures
        *final(store) == after_reset(*old(store)),
{
    store.paste_count = 0;
}

/// Check if clipboard has content
pub fn has_clipboard_content<E>(store: &ClipboardStore<E>) -> (res: bool)
    ensures
        res == store.data is Some,
{
    store.data.is_some()
}

/// Get clipboard content count
pub fn clipboard_content_count<E>(store: &ClipboardStore<E>) -> (res: usize)
    ensures
        res == match store.data {
            Some(d) => d.elements@.len(),
            None => 0,
        },
{
    match &store.data {
        Some(d) => d.len(),
        None => 0,
    }
}

/// Clear the clipboard
pub fn clear_clipboard<E>(store: &mut ClipboardStore<E>)
    ensures
        final(store).data is None,
        final(store).paste_count == old(store).paste_count,
{
    store.data = None;
}

/// Paste offsets are multiples of the base offset below the maximum, the first paste
/// after a copy is moved by the base offset, and the sequence repeats every ten pastes.
pub proof fn lemma_paste_offsets_cycle(count: nat)
    ensures
        paste_offset(count) % (BASE_PASTE_OFFSET as nat) == 0,
        paste_offset(count) < MAX_PASTE_OFFSET,
        paste_offset(0) == BASE_PASTE_OFFSET,
        paste_offset(count + 10) == paste_offset(count),
{
    let a = (20 * (count + 1)) as int;
    assert(20 * (count + 10 + 1) == a + 200);
    assert((a + 200) % 200 == a % 200) by (nonlinear_arith);
    assert((a % 200) % 20 == 0) by (nonlinear_arith)
        requires
            a == 20 * (count + 1),
    ;
}

/// After a copy, the clipboard keeps the copied elements through any number `k` of
/// pastes and has counted them, so the next paste is moved by `(20 * (k + 1)) % 200`
/// along both axes: 20, 40, ..., 180, 0, 20, ...
pub proof fn lemma_offsets_after_copy<E>(elements: Vec<E>, k: nat)
    requires
        k < u32::MAX,
    ensures
        after_pastes(after_copy(elements), k) == (ClipboardStore {
            data: Some(ClipboardData { elements, paste_count: k as u32 }),
            paste_count: 0u32,
        }),
        paste_offset(k) == (20 * (k + 1)) % 200,
    decreases k,
{
    if k > 0 {
        lemma_offsets_after_copy(elements, (k - 1) as nat);
    }
}

/// After a reset, the `n`-th paste of external content (`n >= 1`) is moved by
/// `(20 * n) % 200` along both axes, and the copied elements are left alone.
pub proof fn lemma_offsets_after_reset<E>(s: ClipboardStore<E>, n: nat)
    requires
        n < u32::MAX,
    ensures
        after_external_pastes(after_reset(s), n) == (ClipboardStore {
            data: s.data,
            paste_count: n as u32,
        }),
        n >= 1 ==> paste_offset((n - 1) as nat) == (20 * n) % 200,
    decreases n,
{
    if n > 0 {
        lemma_offsets_after_reset(s, (n - 1) as nat);
    }
}

/// The first eight bytes of every PNG file.
pub open spec fn png_signature() -> Seq<u8> {
    seq![0x89u8, 0x50u8, 0x4Eu8, 0x47u8, 0x0Du8, 0x0Au8, 0x1Au8, 0x0Au8]
}

/// The number stored big-endian in four bytes.
pub open spec fn be_u32(b: Seq<u8>, at: int) -> nat {
    (b[at] * 16777216 + b[at + 1] * 65536 + b[at + 2] * 256 + b[at + 3]) as nat
}

/// Reads four bytes big-endian.
fn read_be_u32(data: &[u8], at: usize) -> (res: u32)
    requires
        at + 4 <= data@.len(),
    ensures
        res == be_u32(data@, at as int),
{
    (data[at] as u32) * 16777216 + (data[at + 1] as u32) * 65536 + (data[at + 2] as u32) * 256
        + (data[at + 3] as u32)
}

/// Parse PNG dimensions from header: a PNG file starts with its signature and the
/// IHDR chunk, which holds the width at byte 16 and the height at byte 20.
pub fn parse_png_dimensions(data: &[u8]) -> (res: Option<(u32, u32)>)
    ensures
        match res {
            Some((w, h)) => {
                &&& data@.len() >= 24
                &&& data@.subrange(0, 8) == png_signature()
                &&& w == be_u32(data@, 16)
                &&& h == be_u32(data@, 20)
            },
            None => !(data@.len() >= 24 && data@.subrange(0, 8) == png_signature()),
        },
{
    if data.len() < 24 {
        return None;
    }
    let signature: [u8; 8] = [0x89, 0x50, 0x4E, 0x47, 0x0D, 0x0A, 0x1A, 0x0A];
    assert(signature@ =~= png_signature());
    for i in 0..8
        invariant
            data@.len() >= 24,
            signature@ == png_signature(),
            forall|j: int| 0 <= j < i ==> data@[j] == signature@[j],
    {
        if data[i] != signature[i] {
            assert(data@.subrange(0, 8)[i as int] != png_signature()[i as int]);
            return None;
        }
    }
    assert(data@.subrange(0, 8) =~= png_signature());
    // Read width and height from IHDR (big-endian)
    let width = read_be_u32(data, 16);
    let height = read_be_u32(data, 20);
    Some((width, height))
}

/// The dimensions of a PNG image come from its IHDR chunk, most significant byte first:
/// a byte sequence that starts with the PNG signature (byte 0x89, then "PNG", then
/// CR LF, 0x1A, LF) and holds at least 24 bytes has the width in bytes 16 to 19 and the
/// height in bytes 20 to 23; any other sequence has no dimensions.
pub proof fn lemma_png_dimensions_big_endian(data: Seq<u8>)
    ensures
        (data.len() >= 24 && data[0] == 0x89 && data[1] == 'P' as u8 && data[2] == 'N' as u8
            && data[3] == 'G' as u8 && data[4] == 0x0D && data[5] == 0x0A && data[6] == 0x1A
            && data[7] == 0x0A) <==> (data.len() >= 24 && data.subrange(0, 8) == png_signature()),
        data.len() >= 24 ==> be_u32(data, 16) == ((data[16] as int * 256 + data[17] as int) * 256
            + data[18] as int) * 256 + data[19] as int,
        data.len() >= 24 ==> be_u32(data, 20) == ((data[20] as int * 256 + data[21] as int) * 256
            + data[22] as int) * 256 + data[23] as int,
        data.len() >= 24 ==> be_u32(data, 16) < 0x1_0000_0000 && be_u32(data, 20) < 0x1_0000_0000,
{
    if data.len() >= 24 {
        if data.subrange(0, 8) == png_signature() {
            assert(data[0] == data.subrange(0, 8)[0]);
            assert(data[1] == data.subrange(0, 8)[1]);
            assert(data[2] == data.subrange(0, 8)[2]);
            assert(data[3] == data.subrange(0, 8)[3]);
            assert(data[4] == data.subrange(0, 8)[4]);
            assert(data[5] == data.subrange(0, 8)[5]);
            assert(data[6] == data.subrange(0, 8)[6]);
            assert(data[7] == data.subrange(0, 8)[7]);
        }
        if data[0] == 0x89 && data[1] == 'P' as u8 && data[2] == 'N' as u8 && data[3] == 'G' as u8
            && data[4] == 0x0D && data[5] == 0x0A && data[6] == 0x1A && data[7] == 0x0A {
            assert(data.subrange(0, 8) =~= png_signature());
        }
    }
}

/// The pieces of `b` between line feeds, in order (one more than there are line feeds).
pub open spec fn newline_pieces(b: Seq<u8>) -> Seq<Seq<u8>>
    decreases b.len(),
{
    if b.len() == 0 {
        seq![Seq::<u8>::empty()]
    } else {
        let ps = newline_pieces(b.drop_last());
        if b.last() == 0x0Au8 {
            ps.push(Seq::<u8>::empty())
        } else {
            ps.update(ps.len() - 1, ps.last().push(b.last()))
        }
    }
}

/// A line without the carriage return that ends it (a CRLF line ending).
pub open spec fn strip_cr(l: Seq<u8>) -> Seq<u8> {
    if l.len() > 0 && l.last() == 0x0Du8 {
        l.drop_last()
    } else {
        l
    }
}

/// The lines of a text, as `str::lines` gives them: split at `\n` or `\r\n`, with an
/// optional final line ending and no empty line after it.
pub open spec fn text_lines(b: Seq<u8>) -> Seq<Seq<u8>> {
    let ps = newline_pieces(b);
    let ended = ps.drop_last().map_values(|l: Seq<u8>| strip_cr(l));
    if ps.last().len() == 0 {
        ended
    } else {
        ended.push(ps.last())
    }
}

/// The length of the longest of the lines, if there are any.
pub open spec fn longest_line(ls: Seq<Seq<u8>>) -> Option<nat>
    decreases ls.len(),
{
    if ls.len() == 0 {
        None
    } else {
        let n = ls.last().len();
        match longest_line(ls.drop_last()) {
            Some(m) => Some(if m < n { n } else { m }),
            None => Some(n),
        }
    }
}

/// `v` limited to `lo..=hi`.
pub open spec fn clamp(v: int, lo: int, hi: int) -> int {
    if v < lo {
        lo
    } else if v > hi {
        hi
    } else {
        v
    }
}

/// The size estimated for a text pasted from outside: 8 pixels per byte of its longest
/// line (10 bytes when it has no line), between 100 and 400, and 20 pixels per line (at
/// least one), between 24 and 300.
pub open spec fn estimated_text_size(b: Seq<u8>) -> (int, int) {
    let ls = text_lines(b);
    let longest = match longest_line(ls) {
        Some(n) => n as int,
        None => 10,
    };
    let count = if ls.len() == 0 { 1 } else { ls.len() as int };
    (clamp(longest * 8, 100, 400), clamp(count * 20, 24, 300))
}

/// The longest line is at least as long as every line and as long as one of them.
proof fn lemma_longest_line_bounds(ls: Seq<Seq<u8>>)
    ensures
        ls.len() == 0 <==> longest_line(ls) is None,
        ls.len() > 0 ==> (forall|i: int| 0 <= i < ls.len() ==> #[trigger] ls[i].len() <= longest_line(ls).unwrap()),
        ls.len() > 0 ==> (exists|i: int| 0 <= i < ls.len() && #[trigger] ls[i].len() == longest_line(ls).unwrap()),
    decreases ls.len(),
{
    if ls.len() > 0 {
        let t = ls.drop_last();
        lemma_longest_line_bounds(t);
        let n = ls.last().len();
        assert forall|i: int| 0 <= i < ls.len() implies #[trigger] ls[i].len() <= longest_line(ls).unwrap() by {
            if i < t.len() {
                assert(ls[i] == t[i]);
            }
        }
        if t.len() == 0 || longest_line(t).unwrap() < n {
            assert(ls[ls.len() - 1].len() == longest_line(ls).unwrap());
        } else {
            let j = choose|j: int| 0 <= j < t.len() && #[trigger] t[j].len() == longest_line(t).unwrap();
            assert(ls[j] == t[j]);
        }
    }
}

/// The size estimated for pasted text: its width comes from its longest line — no line
/// asks for more width, and one line asks for exactly that much (each line asks for 8
/// pixels per byte, between 100 and 400; a text without lines gets 100) — and its height
/// is 20 pixels per line (at least one), between 24 and 300.
pub proof fn lemma_text_size_from_longest_line(b: Seq<u8>)
    ensures
        ({
            let ls = text_lines(b);
            let size = estimated_text_size(b);
            &&& ls.len() > 0 ==> forall|i: int|
                0 <= i < ls.len() ==> clamp(8 * (#[trigger] ls[i]).len() as int, 100, 400) <= size.0
            &&& ls.len() > 0 ==> exists|i: int|
                0 <= i < ls.len() && size.0 == clamp(8 * (#[trigger] ls[i]).len() as int, 100, 400)
            &&& ls.len() == 0 ==> size.0 == 100
            &&& size.1 == clamp(20 * (if ls.len() == 0 { 1 } else { ls.len() as int }), 24, 300)
        }),
{
    let ls = text_lines(b);
    lemma_longest_line_bounds(ls);
    if ls.len() > 0 {
        let m = longest_line(ls).unwrap() as int;
        assert forall|i: int| 0 <= i < ls.len() implies clamp(8 * (#[trigger] ls[i]).len() as int, 100, 400)
            <= estimated_text_size(b).0 by {
            assert(ls[i].len() <= m);
            assert(8 * ls[i].len() <= 8 * m);
        }
        let j = choose|j: int| 0 <= j < ls.len() && #[trigger] ls[j].len() == longest_line(ls).unwrap();
        assert(estimated_text_size(b).0 == clamp(8 * ls[j].len() as int, 100, 400));
    }
}

/// An optional length widened to a natural number.
pub open spec fn opt_nat(o: Option<usize>) -> Option<nat> {
    match o {
        Some(v) => Some(v as nat),
        None => None,
    }
}

/// Estimated width and height, in pixels, of a text element created from pasted text.
pub fn estimate_text_bounds(text: &str) -> (res: (u32, u32))
    ensures
        res.0 == estimated_text_size(encode_utf8(text@)).0,
        res.1 == estimated_text_size(encode_utf8(text@)).1,
{
    let bytes = text.as_bytes();
    let ghost b = bytes@;
    let n = bytes.len();
    let mut ended: usize = 0;
    let mut longest: Option<usize> = None;
    let mut cur_len: usize = 0;
    let mut cur_cr = false;
    proof {
        assert(b.take(0) =~= Seq::<u8>::empty());
        assert(newline_pieces(b.take(0)).drop_last() =~= Seq::<Seq<u8>>::empty());
        assert(newline_pieces(b.take(0)).drop_last().map_values(|l: Seq<u8>| strip_cr(l))
            =~= Seq::<Seq<u8>>::empty());
    }
    for i in 0..n
        invariant
            n == b.len(),
            b == bytes@,
            newline_pieces(b.take(i as int)).len() >= 1,
            ended == newline_pieces(b.take(i as int)).len() - 1,
            opt_nat(longest) == longest_line(
                newline_pieces(b.take(i as int)).drop_last().map_values(|l: Seq<u8>| strip_cr(l)),
            ),
            cur_len == newline_pieces(b.take(i as int)).last().len(),
            cur_cr == (cur_len > 0 && newline_pieces(b.take(i as int)).last().last() == 0x0Du8),
            ended + cur_len <= i,
            cur_len <= i,
            longest matches Some(m) ==> m <= i,
    {
        let x = bytes[i];
        let ghost p = b.take(i as int);
        let ghost ps = newline_pieces(p);
        proof {
            assert(b.take(i + 1).drop_last() =~= p);
            assert(b.take(i + 1).last() == x);
        }
        if x == 0x0A {
            let line_len = if cur_cr { cur_len - 1 } else { cur_len };
            proof {
                let qs = newline_pieces(b.take(i + 1));
                assert(qs == ps.push(Seq::<u8>::empty()));
                assert(qs.drop_last() =~= ps);
                let f = |l: Seq<u8>| strip_cr(l);
                assert(ps.map_values(f) =~= ps.drop_last().map_values(f).push(strip_cr(ps.last())));
                assert(ps.map_values(f).drop_last() =~= ps.drop_last().map_values(f));
                assert(strip_cr(ps.last()).len() == line_len);
            }
            longest = match longest {
                Some(m) => Some(if m < line_len { line_len } else { m }),
                None => Some(line_len),
            };
            ended = ended + 1;
            cur_len = 0;
            cur_cr = false;
        } else {
            proof {
                let qs = newline_pieces(b.take(i + 1));
                assert(qs == ps.update(ps.len() - 1, ps.last().push(x)));
                assert(qs.drop_last() =~= ps.drop_last());
                assert(qs.last() == ps.last().push(x));
            }
            cur_len = cur_len + 1;
            cur_cr = x == 0x0D;
        }
    }
    proof {
        assert(b.take(n as int) =~= b);
    }
    // The line after the last line feed counts only when it is not empty.
    let (count, longest) = if cur_len > 0 {
        (
            ended + 1,
            match longest {
                Some(m) => if m < cur_len { cur_len } else { m },
                None => cur_len,
            },
        )
    } else {
        (
            ended,
            match longest {
                Some(m) => m,
                None => 10,
            },
        )
    };
    proof {
        let ps = newline_pieces(b);
        let f = |l: Seq<u8>| strip_cr(l);
        if cur_len > 0 {
            assert(text_lines(b) == ps.drop_last().map_values(f).push(ps.last()));
            assert(text_lines(b).drop_last() =~= ps.drop_last().map_values(f));
        }
    }
    let width: u32 = if longest > 50 {
        400
    } else if longest * 8 < 100 {
        100
    } else {
        (longest * 8) as u32
    };
    let lines: usize = if count == 0 { 1 } else { count };
    let height: u32 = if lines > 15 {
        300
    } else if lines * 20 < 24 {
        24
    } else {
        (lines * 20) as u32
    };
    (width, height)
}

} // verus!
