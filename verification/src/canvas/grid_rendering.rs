//! Ruler markings and guide orientation.
use vstd::prelude::*;

verus! {

/// Guide line orientation
#[derive(Clone, Copy, Debug, PartialEq, Eq, Structural)]
pub enum GuideOrientation {
    Horizontal,
    Vertical,
}

/// The length of the ruler tick at a document coordinate: long every 100 units, middle
/// every 50, short every 10, and none elsewhere.
pub open spec fn tick_length_at(mark: int) -> int {
    if mark % 100 == 0 {
        10
    } else if mark % 50 == 0 {
        7
    } else if mark % 10 == 0 {
        5
    } else {
        0
    }
}

/// Rust's remainder on `i32` is zero exactly when the mathematical remainder is.
proof fn lemma_remainder_zero(mark: i32, d: i32)
    requires
        d > 0,
    ensures
        (mark % d == 0) <==> ((mark as int) % (d as int) == 0),
{
    assert((mark % d == 0) <==> ((mark as int) % (d as int) == 0)) by (nonlinear_arith)
        requires
            d > 0,
    ;
}

/// Length in pixels of the ruler tick drawn at the (truncated) coordinate `mark`.
pub fn ruler_tick_length(mark: i32) -> (res: u32)
    ensures
        res == tick_length_at(mark as int),
{
    proof {
        lemma_remainder_zero(mark, 100);
        lemma_remainder_zero(mark, 50);
        lemma_remainder_zero(mark, 10);
    }
    if mark % 100 == 0 {
        10
    } else if mark % 50 == 0 {
        7
    } else if mark % 10 == 0 {
        5
    } else {
        0
    }
}

/// Whether the ruler prints the coordinate next to its tick: at every positive multiple
/// of 100.
pub fn ruler_shows_label(mark: i32) -> (res: bool)
    ensures
        res == (mark > 0 && (mark as int) % 100 == 0),
{
    proof {
        lemma_remainder_zero(mark, 100);
    }
    mark > 0 && mark % 100 == 0
}

} // verus!
