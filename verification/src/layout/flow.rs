//! Flow layout.

use vstd::prelude::*;

use crate::layout::fragments::CollapsedBlockMargins;
use crate::layout::fragments::Fragment;
use crate::style::values::length::Length;

pub mod inline;
pub mod lemmas;

verus! {

/// What laying out the children of a flow container gives.
pub struct FlowChildren {
    pub fragments: Vec<Fragment>,
    pub block_size: Length,
    pub collapsible_margins_in_children: CollapsedBlockMargins,
}

} // verus!
