//! How a box takes part in layout: its display type and its positioning.

use vstd::prelude::*;

verus! {

/// The outer display type of a box that generates one: how the box itself
/// takes part in its parent's layout.
#[derive(Copy, Clone, Debug, PartialEq, Eq, Structural)]
pub enum DisplayOutside {
    Inline,
    Block,
}

#[derive(Copy, Clone, Debug, PartialEq, Eq, Structural)]
pub enum Position {
    Static,
    Relative,
    Absolute,
}

impl Position {
    pub open spec fn spec_is_relatively_positioned(self) -> bool {
        self == Position::Relative
    }

    pub fn is_relatively_positioned(&self) -> (r: bool)
        ensures
            r == self.spec_is_relatively_positioned(),
    {
        match *self {
            Position::Relative => true,
            _ => false,
        }
    }
}

} // verus!
