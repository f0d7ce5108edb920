//! Physical geometry: origin at the top left, x to the right, y down.

use vstd::prelude::*;

use crate::geom::flow_relative;
use crate::style::values::length::Length;
use crate::style::values::writing_modes::block_forward;
use crate::style::values::writing_modes::Direction;
use crate::style::values::writing_modes::inline_forward;
use crate::style::values::writing_modes::is_horizontal;
use crate::style::values::writing_modes::spec_block_forward;
use crate::style::values::writing_modes::spec_inline_forward;
use crate::style::values::writing_modes::spec_is_horizontal;
use crate::style::values::writing_modes::WritingMode;

verus! {

#[derive(Copy, Clone, Debug, PartialEq, Eq)]
pub struct Vec2<T> {
    pub x: T,
    pub y: T,
}

#[derive(Copy, Clone, Debug, PartialEq, Eq)]
pub struct Rect<T> {
    pub top_left: Vec2<T>,
    pub size: Vec2<T>,
}

#[derive(Copy, Clone, Debug, PartialEq, Eq)]
pub struct Sides<T> {
    pub top: T,
    pub left: T,
    pub bottom: T,
    pub right: T,
}

impl<T: Copy> Vec2<T> {
    /// A physical size as the flow-relative size it is under `mode`.
    pub open spec fn spec_size_to_flow_relative(self, mode: (WritingMode, Direction))
        -> flow_relative::Vec2<T> {
        if spec_is_horizontal(mode) {
            flow_relative::Vec2 { inline: self.x, block: self.y }
        } else {
            flow_relative::Vec2 { inline: self.y, block: self.x }
        }
    }

    pub fn size_to_flow_relative(&self, mode: (WritingMode, Direction)) -> (r:
        flow_relative::Vec2<T>)
        ensures
            r == self.spec_size_to_flow_relative(mode),
    {
        if is_horizontal(mode) {
            flow_relative::Vec2 { inline: self.x, block: self.y }
        } else {
            flow_relative::Vec2 { inline: self.y, block: self.x }
        }
    }
}

impl<T: Copy> Sides<T> {
    /// The four sides named by the flow-relative direction that each has
    /// under `mode`.
    pub open spec fn spec_to_flow_relative(self, mode: (WritingMode, Direction))
        -> flow_relative::Sides<T> {
        let horizontal = spec_is_horizontal(mode);
        let inline_low = if horizontal { self.left } else { self.top };
        let inline_high = if horizontal { self.right } else { self.bottom };
        let block_low = if horizontal { self.top } else { self.left };
        let block_high = if horizontal { self.bottom } else { self.right };
        flow_relative::Sides {
            inline_start: if spec_inline_forward(mode) { inline_low } else { inline_high },
            inline_end: if spec_inline_forward(mode) { inline_high } else { inline_low },
            block_start: if spec_block_forward(mode) { block_low } else { block_high },
            block_end: if spec_block_forward(mode) { block_high } else { block_low },
        }
    }

    pub fn to_flow_relative(&self, mode: (WritingMode, Direction)) -> (r: flow_relative::Sides<T>)
        ensures
            r == self.spec_to_flow_relative(mode),
    {
        let horizontal = is_horizontal(mode);
        let inline_low = if horizontal { self.left } else { self.top };
        let inline_high = if horizontal { self.right } else { self.bottom };
        let block_low = if horizontal { self.top } else { self.left };
        let block_high = if horizontal { self.bottom } else { self.right };
        let inline = inline_forward(mode);
        let block = block_forward(mode);
        flow_relative::Sides {
            inline_start: if inline { inline_low } else { inline_high },
            inline_end: if inline { inline_high } else { inline_low },
            block_start: if block { block_low } else { block_high },
            block_end: if block { block_high } else { block_low },
        }
    }
}

impl Vec2<Length> {
    pub open spec fn spec_zero() -> Vec2<Length> {
        Vec2 { x: Length::spec_zero(), y: Length::spec_zero() }
    }

    #[verifier::when_used_as_spec(spec_zero)]
    pub fn zero() -> (r: Vec2<Length>)
        ensures
            r == Vec2::<Length>::spec_zero(),
    {
        Vec2 { x: Length::zero(), y: Length::zero() }
    }
}

/// The flow-relative start of a box along one axis of its containing block:
/// its low physical coordinate where the axis runs forward, and the distance
/// between the far edges where it runs backward.
pub open spec fn spec_axis_start(forward: bool, extent: Length, low: Length, size: Length)
    -> Length {
    if forward {
        low
    } else {
        Length::of(Length::of(extent@ - low@)@ - size@)
    }
}

pub fn axis_start(forward: bool, extent: Length, low: Length, size: Length) -> (r: Length)
    ensures
        r == spec_axis_start(forward, extent, low, size),
{
    if forward {
        low
    } else {
        extent - low - size
    }
}

impl Rect<Length> {
    /// The rectangle moved by `by`.
    pub open spec fn spec_translate(self, by: Vec2<Length>) -> Rect<Length> {
        Rect {
            top_left: Vec2 {
                x: Length::of(self.top_left.x@ + by.x@),
                y: Length::of(self.top_left.y@ + by.y@),
            },
            size: self.size,
        }
    }

    pub fn translate(&self, by: &Vec2<Length>) -> (r: Rect<Length>)
        ensures
            r == self.spec_translate(*by),
    {
        Rect {
            top_left: Vec2 { x: self.top_left.x + by.x, y: self.top_left.y + by.y },
            size: self.size,
        }
    }

    /// The rectangle, given relative to the top left of `containing_block`,
    /// in the flow-relative coordinates of `mode`.
    pub open spec fn spec_to_flow_relative(
        self,
        mode: (WritingMode, Direction),
        containing_block: Rect<Length>,
    ) -> flow_relative::Rect<Length> {
        let horizontal = spec_is_horizontal(mode);
        let inline_extent = if horizontal { containing_block.size.x } else { containing_block.size.y };
        let block_extent = if horizontal { containing_block.size.y } else { containing_block.size.x };
        let inline_low = if horizontal { self.top_left.x } else { self.top_left.y };
        let block_low = if horizontal { self.top_left.y } else { self.top_left.x };
        let size = self.size.spec_size_to_flow_relative(mode);
        flow_relative::Rect {
            start_corner: flow_relative::Vec2 {
                inline: spec_axis_start(
                    spec_inline_forward(mode),
                    inline_extent,
                    inline_low,
                    size.inline,
                ),
                block: spec_axis_start(spec_block_forward(mode), block_extent, block_low, size.block),
            },
            size,
        }
    }

    pub fn to_flow_relative(
        &self,
        mode: (WritingMode, Direction),
        containing_block: &Rect<Length>,
    ) -> (r: flow_relative::Rect<Length>)
        ensures
            r == self.spec_to_flow_relative(mode, *containing_block),
    {
        let horizontal = is_horizontal(mode);
        let inline_extent = if horizontal { containing_block.size.x } else { containing_block.size.y };
        let block_extent = if horizontal { containing_block.size.y } else { containing_block.size.x };
        let inline_low = if horizontal { self.top_left.x } else { self.top_left.y };
        let block_low = if horizontal { self.top_left.y } else { self.top_left.x };
        let size = self.size.size_to_flow_relative(mode);
        flow_relative::Rect {
            start_corner: flow_relative::Vec2 {
                inline: axis_start(inline_forward(mode), inline_extent, inline_low, size.inline),
                block: axis_start(block_forward(mode), block_extent, block_low, size.block),
            },
            size,
        }
    }
}

} // verus!
