//! Vertical alignment of inline boxes.

use vstd::prelude::*;

use crate::style::values::length::Length;
use crate::style::values::length::Percentage;

verus! {

#[derive(Copy, Clone, Debug, PartialEq, Eq, Structural)]
pub enum VerticalAlign {
    Baseline,
    Sub,
    Super,
    Top,
    TextTop,
    Middle,
    Bottom,
    TextBottom,
    Length(Length),
    Percentage(Percentage),
}

} // verus!
