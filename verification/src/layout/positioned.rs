//! Boxes that are taken out of the flow.

use vstd::prelude::*;
use std::sync::Arc;

use crate::geom::flow_relative::Vec2;
use crate::style::properties::ComputedValues;
use crate::style::values::box_::DisplayOutside;
use crate::style::values::length::Length;
use crate::utils::share_arc;

verus! {

/// An absolutely positioned box, as the flow around it sees it.
pub struct AbsolutelyPositionedBox {
    pub style: Arc<ComputedValues>,
    /// Whether the box would have been inline-level or block-level had it
    /// stayed in the flow.
    pub outside: DisplayOutside,
}

/// A floated box, as the flow around it sees it.
pub struct FloatBox {
    pub style: Arc<ComputedValues>,
}

/// What the flow hands on of an absolutely positioned box: where the box
/// would have been placed had it stayed in the flow, and the rank of the flow
/// in the tree.
pub struct AbsolutelyPositionedFragment {
    pub style: Arc<ComputedValues>,
    pub tree_rank: usize,
    pub static_start_corner: Vec2<Length>,
}

impl AbsolutelyPositionedBox {
    pub fn layout(&self, initial_start_corner: Vec2<Length>, tree_rank: usize) -> (r:
        AbsolutelyPositionedFragment)
        ensures
            r.style == self.style,
            r.tree_rank == tree_rank,
            r.static_start_corner == initial_start_corner,
    {
        AbsolutelyPositionedFragment {
            style: share_arc(&self.style),
            tree_rank,
            static_start_corner: initial_start_corner,
        }
    }
}

} // verus!
