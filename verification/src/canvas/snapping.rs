//! Kinds of snap lines shown while snapping.
use vstd::prelude::*;

verus! {

/// Type of snap line
#[derive(Debug, Clone, Copy, PartialEq, Eq, Structural)]
pub enum SnapLineType {
    Grid,
    Guide,
    ObjectEdge,
}

} // verus!
