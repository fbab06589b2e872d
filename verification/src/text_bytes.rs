//! Byte-level view of strings: every `String` is looked at through its UTF-8 encoding,
//! and the std operations that edit a string at byte offsets are stated over it.
use vstd::prelude::*;
use vstd::utf8::*;

verus! {

broadcast use {encode_utf8_valid_utf8, is_char_boundary_start_end_of_seq};

/// `b` with the bytes `start..end` replaced by `ins`.
pub open spec fn splice(b: Seq<u8>, start: int, end: int, ins: Seq<u8>) -> Seq<u8> {
    b.subrange(0, start) + ins + b.subrange(end, b.len() as int)
}

/// The number of bytes of the UTF-8 encoded character that starts at byte `i` of `b`.
pub open spec fn char_width_at(b: Seq<u8>, i: int) -> int {
    length_of_first_scalar(b.subrange(i, b.len() as int))
}

/// Calls `String::drain` on the byte range `start..end`. The claim: the bytes of the
/// range are removed and the rest keep their order; std panics unless both ends lie on
/// character boundaries within the string, which `requires` rules out.
#[verifier::external_body]
pub(crate) fn drain_bytes(s: &mut String, start: usize, end: usize)
    requires
        start <= end <= encode_utf8(old(s)@).len(),
        is_char_boundary(encode_utf8(old(s)@), start as int),
        is_char_boundary(encode_utf8(old(s)@), end as int),
    ensures
        encode_utf8(final(s)@) == splice(encode_utf8(old(s)@), start as int, end as int, seq![]),
{
    s.drain(start..end);
}

/// Calls `String::insert_str`. The claim: the bytes of `text` are placed at byte `idx`;
/// std panics when `idx` is past the end or inside a character, or when the new length
/// would pass `isize::MAX`, which `requires` rules out.
#[verifier::external_body]
pub(crate) fn insert_str_at(s: &mut String, idx: usize, text: &str)
    requires
        idx <= encode_utf8(old(s)@).len(),
        is_char_boundary(encode_utf8(old(s)@), idx as int),
        encode_utf8(old(s)@).len() + encode_utf8(text@).len() <= isize::MAX,
    ensures
        encode_utf8(final(s)@) == splice(
            encode_utf8(old(s)@),
            idx as int,
            idx as int,
            encode_utf8(text@),
        ),
{
    s.insert_str(idx, text);
}

/// Calls `String::remove`. The claim: the character that starts at byte `idx` is taken
/// out, so its bytes disappear and the rest keep their order; std panics when `idx` is
/// not the start of a character of the string, which `requires` rules out.
#[verifier::external_body]
pub(crate) fn remove_char_at(s: &mut String, idx: usize)
    requires
        idx < encode_utf8(old(s)@).len(),
        is_char_boundary(encode_utf8(old(s)@), idx as int),
    ensures
        encode_utf8(final(s)@) == splice(
            encode_utf8(old(s)@),
            idx as int,
            idx + char_width_at(encode_utf8(old(s)@), idx as int),
            seq![],
        ),
{
    s.remove(idx);
}

/// Calls `str::index` with the byte range `start..end`. The claim: the slice holds
/// exactly those bytes; std panics unless both ends lie on character boundaries within
/// the string, which `requires` rules out.
#[verifier::external_body]
pub(crate) fn byte_slice(s: &str, start: usize, end: usize) -> (res: &str)
    requires
        start <= end <= encode_utf8(s@).len(),
        is_char_boundary(encode_utf8(s@), start as int),
        is_char_boundary(encode_utf8(s@), end as int),
    ensures
        encode_utf8(res@) == encode_utf8(s@).subrange(start as int, end as int),
{
    &s[start..end]
}

/// Two valid UTF-8 sequences put one after the other meet at a character boundary.
pub proof fn lemma_boundary_at_join(a: Seq<u8>, c: Seq<u8>)
    requires
        valid_utf8(a),
        valid_utf8(c),
    ensures
        valid_utf8(a + c),
        is_char_boundary(a + c, a.len() as int),
{
    valid_utf8_concat(a, c);
    let ac = a + c;
    if c.len() == 0 {
        assert(ac =~= a);
    } else {
        is_char_boundary_iff_not_is_continuation_byte(c, 0);
        is_char_boundary_iff_not_is_continuation_byte(ac, a.len() as int);
        assert(ac[a.len() as int] == c[0]);
    }
}

/// Cutting a valid UTF-8 sequence at two character boundaries leaves a valid sequence
/// whose first cut point is a character boundary.
pub proof fn lemma_splice_boundary(b: Seq<u8>, lo: int, hi: int, ins: Seq<u8>)
    requires
        valid_utf8(b),
        valid_utf8(ins),
        0 <= lo <= hi <= b.len(),
        is_char_boundary(b, lo),
        is_char_boundary(b, hi),
    ensures
        valid_utf8(splice(b, lo, hi, ins)),
        is_char_boundary(splice(b, lo, hi, ins), lo),
        is_char_boundary(splice(b, lo, hi, ins), lo + ins.len()),
{
    valid_utf8_split(b, lo);
    valid_utf8_split(b, hi);
    let pre = b.subrange(0, lo);
    let post = b.subrange(hi, b.len() as int);
    lemma_boundary_at_join(pre, ins);
    lemma_boundary_at_join(pre + ins, post);
    assert(splice(b, lo, hi, ins) =~= (pre + ins) + post);
    lemma_boundary_at_join(ins, post);
    lemma_boundary_at_join(pre, ins + post);
    assert(splice(b, lo, hi, ins) =~= pre + (ins + post));
}

/// The characters Unicode gives the White_Space property.
pub open spec fn is_white_space(c: char) -> bool {
    let v = c as u32;
    ||| 0x09 <= v <= 0x0d
    ||| v == 0x20
    ||| v == 0x85
    ||| v == 0xa0
    ||| v == 0x1680
    ||| 0x2000 <= v <= 0x200a
    ||| v == 0x2028
    ||| v == 0x2029
    ||| v == 0x202f
    ||| v == 0x205f
    ||| v == 0x3000
}

/// `s` without its leading white space.
pub open spec fn trim_start_chars(s: Seq<char>) -> Seq<char>
    decreases s.len(),
{
    if s.len() > 0 && is_white_space(s[0]) {
        trim_start_chars(s.drop_first())
    } else {
        s
    }
}

/// `s` without its trailing white space.
pub open spec fn trim_end_chars(s: Seq<char>) -> Seq<char>
    decreases s.len(),
{
    if s.len() > 0 && is_white_space(s.last()) {
        trim_end_chars(s.drop_last())
    } else {
        s
    }
}

/// `s` without leading and trailing white space.
pub open spec fn trimmed(s: Seq<char>) -> Seq<char> {
    trim_end_chars(trim_start_chars(s))
}

/// Calls `str::trim`, documented to remove the leading and trailing characters that have
/// the Unicode White_Space property.
#[verifier::external_body]
pub(crate) fn trim_str(s: &str) -> (res: &str)
    ensures
        res@ == trimmed(s@),
{
    s.trim()
}

/// The decimal digit character for `d` (below ten).
pub open spec fn digit_char(d: nat) -> char {
    (48 + d) as char
}

/// The decimal representation of `n`, without leading zeros.
pub open spec fn decimal(n: nat) -> Seq<char>
    decreases n,
{
    if n < 10 {
        seq![digit_char(n)]
    } else {
        decimal(n / 10).push(digit_char(n % 10))
    }
}

/// Calls `usize::to_string`, whose `Display` form is the decimal representation of the
/// number without sign or leading zeros.
#[verifier::external_body]
pub(crate) fn usize_to_decimal(n: usize) -> (res: String)
    ensures
        res@ == decimal(n as nat),
{
    n.to_string()
}

/// Calls `<str as PartialEq>::eq`: two string slices are equal exactly when they hold
/// the same characters.
#[verifier::external_body]
pub(crate) fn str_equals(a: &str, b: &str) -> (res: bool)
    ensures
        res == (a@ == b@),
{
    a == b
}

} // verus!
