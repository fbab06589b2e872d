//! Mouse interaction vocabulary of the canvas.
use vstd::prelude::*;

verus! {

/// Which resize handle is being dragged
#[derive(Clone, Copy, Debug, PartialEq, Eq, Structural)]
pub enum ResizeHandle {
    TopLeft,
    Top,
    TopRight,
    Right,
    BottomRight,
    Bottom,
    BottomLeft,
    Left,
}

/// Guide orientation
#[derive(Clone, Copy, Debug, PartialEq, Eq, Structural)]
pub enum GuideOrientation {
    Horizontal,
    Vertical,
}

} // verus!
