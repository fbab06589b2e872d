//! Resize handles of a selected object.
use vstd::prelude::*;

verus! {

/// Resize handle positions
#[derive(Clone, Copy, Debug, PartialEq, Eq, Structural)]
pub enum ResizeHandle {
    TopLeft,
    Top,
    TopRight,
    Right,
    BottomRight,
    Bottom,
    BottomLeft,
    Left,
}

/// Number of resize handles around a selected object.
pub const RESIZE_HANDLE_COUNT: usize = 8;

impl ResizeHandle {
    /// All handles, clockwise from the top-left corner.
    pub fn all() -> (res: [Self; 8])
        ensures
            res@ == seq![
                ResizeHandle::TopLeft,
                ResizeHandle::Top,
                ResizeHandle::TopRight,
                ResizeHandle::Right,
                ResizeHandle::BottomRight,
                ResizeHandle::Bottom,
                ResizeHandle::BottomLeft,
                ResizeHandle::Left,
            ],
    {
        let res = [
            Self::TopLeft,
            Self::Top,
            Self::TopRight,
            Self::Right,
            Self::BottomRight,
            Self::Bottom,
            Self::BottomLeft,
            Self::Left,
        ];
        assert(res@ =~= seq![
            ResizeHandle::TopLeft,
            ResizeHandle::Top,
            ResizeHandle::TopRight,
            ResizeHandle::Right,
            ResizeHandle::BottomRight,
            ResizeHandle::Bottom,
            ResizeHandle::BottomLeft,
            ResizeHandle::Left,
        ]);
        res
    }
}

} // verus!
