//! Flow-relative geometry: positions and sizes along the inline and block
//! axes of a containing block.

use vstd::prelude::*;

use crate::geom::physical::axis_start;
use crate::geom::physical::spec_axis_start;
use crate::geom::physical;
use crate::style::values::length::Length;
use crate::style::values::length::LengthOrAuto;
use crate::style::values::length::LengthOrPercentage;
use crate::style::values::length::LengthOrPercentageOrAuto;
use crate::style::values::writing_modes::block_forward;
use crate::style::values::writing_modes::Direction;
use crate::style::values::writing_modes::inline_forward;
use crate::style::values::writing_modes::is_horizontal;
use crate::style::values::writing_modes::spec_block_forward;
use crate::style::values::writing_modes::spec_inline_forward;
use crate::style::values::writing_modes::spec_is_horizontal;
use crate::style::values::writing_modes::WritingMode;

verus! {

#[derive(Copy, Clone, Debug, PartialEq, Eq)]
pub struct Vec2<T> {
    pub inline: T,
    pub block: T,
}

#[derive(Copy, Clone, Debug, PartialEq, Eq)]
pub struct Rect<T> {
    pub start_corner: Vec2<T>,
    pub size: Vec2<T>,
}

#[derive(Copy, Clone, Debug, PartialEq, Eq)]
pub struct Sides<T> {
    pub inline_start: T,
    pub inline_end: T,
    pub block_start: T,
    pub block_end: T,
}

impl<T: Copy> Vec2<T> {
    /// A flow-relative size as the physical size it is under `mode`.
    pub open spec fn spec_size_to_physical(self, mode: (WritingMode, Direction))
        -> physical::Vec2<T> {
        if spec_is_horizontal(mode) {
            physical::Vec2 { x: self.inline, y: self.block }
        } else {
            physical::Vec2 { x: self.block, y: self.inline }
        }
    }

    pub fn size_to_physical(&self, mode: (WritingMode, Direction)) -> (r: physical::Vec2<T>)
        ensures
            r == self.spec_size_to_physical(mode),
    {
        if is_horizontal(mode) {
            physical::Vec2 { x: self.inline, y: self.block }
        } else {
            physical::Vec2 { x: self.block, y: self.inline }
        }
    }
}

impl Vec2<Length> {
    pub open spec fn spec_zero() -> Vec2<Length> {
        Vec2 { inline: Length::spec_zero(), block: Length::spec_zero() }
    }

    /// The component-wise sum.
    pub open spec fn spec_plus(self, other: Vec2<Length>) -> Vec2<Length> {
        Vec2 {
            inline: Length::of(self.inline@ + other.inline@),
            block: Length::of(self.block@ + other.block@),
        }
    }

    #[verifier::when_used_as_spec(spec_zero)]
    pub fn zero() -> (r: Vec2<Length>)
        ensures
            r == Vec2::<Length>::spec_zero(),
    {
        Vec2 { inline: Length::zero(), block: Length::zero() }
    }

    pub fn plus(&self, other: &Vec2<Length>) -> (r: Vec2<Length>)
        ensures
            r == self.spec_plus(*other),
    {
        Vec2 { inline: self.inline + other.inline, block: self.block + other.block }
    }
}

impl Sides<Length> {
    pub open spec fn spec_zero() -> Sides<Length> {
        Sides {
            inline_start: Length::spec_zero(),
            inline_end: Length::spec_zero(),
            block_start: Length::spec_zero(),
            block_end: Length::spec_zero(),
        }
    }

    pub open spec fn spec_inline_sum(self) -> Length {
        Length::of(self.inline_start@ + self.inline_end@)
    }

    pub open spec fn spec_block_sum(self) -> Length {
        Length::of(self.block_start@ + self.block_end@)
    }

    #[verifier::when_used_as_spec(spec_zero)]
    pub fn zero() -> (r: Sides<Length>)
        ensures
            r == Sides::<Length>::spec_zero(),
    {
        Sides {
            inline_start: Length::zero(),
            inline_end: Length::zero(),
            block_start: Length::zero(),
            block_end: Length::zero(),
        }
    }

    pub fn inline_sum(&self) -> (r: Length)
        ensures
            r == self.spec_inline_sum(),
    {
        self.inline_start + self.inline_end
    }

    pub fn block_sum(&self) -> (r: Length)
        ensures
            r == self.spec_block_sum(),
    {
        self.block_start + self.block_end
    }
}

impl Sides<LengthOrPercentage> {
    /// Each side as a length, percentages taken of `basis`.
    pub open spec fn spec_percentages_relative_to(self, basis: Length) -> Sides<Length> {
        Sides {
            inline_start: self.inline_start.spec_percentage_relative_to(basis),
            inline_end: self.inline_end.spec_percentage_relative_to(basis),
            block_start: self.block_start.spec_percentage_relative_to(basis),
            block_end: self.block_end.spec_percentage_relative_to(basis),
        }
    }

    pub fn percentages_relative_to(&self, basis: Length) -> (r: Sides<Length>)
        ensures
            r == self.spec_percentages_relative_to(basis),
    {
        Sides {
            inline_start: self.inline_start.percentage_relative_to(basis),
            inline_end: self.inline_end.percentage_relative_to(basis),
            block_start: self.block_start.percentage_relative_to(basis),
            block_end: self.block_end.percentage_relative_to(basis),
        }
    }
}

impl Sides<LengthOrPercentageOrAuto> {
    /// Each side as a length or `Auto`, percentages taken of `basis`.
    pub open spec fn spec_percentages_relative_to(self, basis: Length) -> Sides<LengthOrAuto> {
        Sides {
            inline_start: self.inline_start.spec_percentage_relative_to(basis),
            inline_end: self.inline_end.spec_percentage_relative_to(basis),
            block_start: self.block_start.spec_percentage_relative_to(basis),
            block_end: self.block_end.spec_percentage_relative_to(basis),
        }
    }

    pub fn percentages_relative_to(&self, basis: Length) -> (r: Sides<LengthOrAuto>)
        ensures
            r == self.spec_percentages_relative_to(basis),
    {
        Sides {
            inline_start: self.inline_start.percentage_relative_to(basis),
            inline_end: self.inline_end.percentage_relative_to(basis),
            block_start: self.block_start.percentage_relative_to(basis),
            block_end: self.block_end.percentage_relative_to(basis),
        }
    }
}

impl Sides<LengthOrAuto> {
    /// Each side as a length, zero in place of `Auto`.
    pub open spec fn spec_auto_is_zero(self) -> Sides<Length> {
        Sides {
            inline_start: self.inline_start.spec_auto_is_zero(),
            inline_end: self.inline_end.spec_auto_is_zero(),
            block_start: self.block_start.spec_auto_is_zero(),
            block_end: self.block_end.spec_auto_is_zero(),
        }
    }

    /// Each side as a length, with what `f` returns in place of `Auto`.
    pub fn auto_is(&self, f: impl Fn() -> Length) -> (r: Sides<Length>)
        requires
            f.requires(()),
        ensures
            self.inline_start matches LengthOrAuto::Length(l) ==> r.inline_start == l,
            self.inline_end matches LengthOrAuto::Length(l) ==> r.inline_end == l,
            self.block_start matches LengthOrAuto::Length(l) ==> r.block_start == l,
            self.block_end matches LengthOrAuto::Length(l) ==> r.block_end == l,
            self.inline_start is Auto ==> f.ensures((), r.inline_start),
            self.inline_end is Auto ==> f.ensures((), r.inline_end),
            self.block_start is Auto ==> f.ensures((), r.block_start),
            self.block_end is Auto ==> f.ensures((), r.block_end),
    {
        Sides {
            inline_start: self.inline_start.auto_is(&f),
            inline_end: self.inline_end.auto_is(&f),
            block_start: self.block_start.auto_is(&f),
            block_end: self.block_end.auto_is(&f),
        }
    }
}

impl Rect<Length> {
    pub open spec fn spec_zero() -> Rect<Length> {
        Rect { start_corner: Vec2::<Length>::spec_zero(), size: Vec2::<Length>::spec_zero() }
    }

    /// The rectangle grown outward by `sides`: the start corner moves back by
    /// the start sides, the size grows by both sides of each axis.
    pub open spec fn spec_inflate(self, sides: Sides<Length>) -> Rect<Length> {
        Rect {
            start_corner: Vec2 {
                inline: Length::of(self.start_corner.inline@ - sides.inline_start@),
                block: Length::of(self.start_corner.block@ - sides.block_start@),
            },
            size: Vec2 {
                inline: Length::of(self.size.inline@ + sides.spec_inline_sum()@),
                block: Length::of(self.size.block@ + sides.spec_block_sum()@),
            },
        }
    }

    /// The rectangle in physical coordinates relative to the top left of
    /// `containing_block`, whose flow runs in `mode`.
    pub open spec fn spec_to_physical(
        self,
        mode: (WritingMode, Direction),
        containing_block: physical::Rect<Length>,
    ) -> physical::Rect<Length> {
        let horizontal = spec_is_horizontal(mode);
        let inline_extent = if horizontal { containing_block.size.x } else { containing_block.size.y };
        let block_extent = if horizontal { containing_block.size.y } else { containing_block.size.x };
        let inline_low = spec_axis_start(
            spec_inline_forward(mode),
            inline_extent,
            self.start_corner.inline,
            self.size.inline,
        );
        let block_low = spec_axis_start(
            spec_block_forward(mode),
            block_extent,
            self.start_corner.block,
            self.size.block,
        );
        physical::Rect {
            top_left: physical::Vec2 {
                x: if horizontal { inline_low } else { block_low },
                y: if horizontal { block_low } else { inline_low },
            },
            size: self.size.spec_size_to_physical(mode),
        }
    }

    #[verifier::when_used_as_spec(spec_zero)]
    pub fn zero() -> (r: Rect<Length>)
        ensures
            r == Rect::<Length>::spec_zero(),
    {
        Rect { start_corner: Vec2::<Length>::zero(), size: Vec2::<Length>::zero() }
    }

    pub fn inflate(&self, sides: &Sides<Length>) -> (r: Rect<Length>)
        ensures
            r == self.spec_inflate(*sides),
    {
        Rect {
            start_corner: Vec2 {
                inline: self.start_corner.inline - sides.inline_start,
                block: self.start_corner.block - sides.block_start,
            },
            size: Vec2 {
                inline: self.size.inline + sides.inline_sum(),
                block: self.size.block + sides.block_sum(),
            },
        }
    }

    pub fn to_physical(
        &self,
        mode: (WritingMode, Direction),
        containing_block: &physical::Rect<Length>,
    ) -> (r: physical::Rect<Length>)
        ensures
            r == self.spec_to_physical(mode, *containing_block),
    {
        let horizontal = is_horizontal(mode);
        let inline_extent = if horizontal { containing_block.size.x } else { containing_block.size.y };
        let block_extent = if horizontal { containing_block.size.y } else { containing_block.size.x };
        let inline_low = axis_start(
            inline_forward(mode),
            inline_extent,
            self.start_corner.inline,
            self.size.inline,
        );
        let block_low = axis_start(
            block_forward(mode),
            block_extent,
            self.start_corner.block,
            self.size.block,
        );
        physical::Rect {
            top_left: physical::Vec2 {
                x: if horizontal { inline_low } else { block_low },
                y: if horizontal { block_low } else { inline_low },
            },
            size: self.size.size_to_physical(mode),
        }
    }
}

/// A rectangle taken to physical coordinates and back under horizontal-tb
/// and left-to-right is the rectangle itself, whatever the containing block.
pub proof fn lemma_round_trip_horizontal_ltr(
    rect: Rect<Length>,
    containing_block: physical::Rect<Length>,
)
    ensures
        rect.spec_to_physical(
            (WritingMode::HorizontalTb, Direction::Ltr),
            containing_block,
        ).spec_to_flow_relative((WritingMode::HorizontalTb, Direction::Ltr), containing_block)
            == rect,
{
}

/// Under any writing mode and direction, a rectangle that lies inside a
/// containing block whose sizes are not negative comes back unchanged from
/// the physical coordinates.
pub proof fn lemma_round_trip_inside(
    rect: Rect<Length>,
    mode: (WritingMode, Direction),
    containing_block: physical::Rect<Length>,
)
    requires
        0 <= rect.start_corner.inline@,
        0 <= rect.start_corner.block@,
        0 <= rect.size.inline@,
        0 <= rect.size.block@,
        rect.start_corner.inline@ + rect.size.inline@ <= containing_block.size.spec_size_to_flow_relative(
            mode,
        ).inline@,
        rect.start_corner.block@ + rect.size.block@ <= containing_block.size.spec_size_to_flow_relative(
            mode,
        ).block@,
    ensures
        rect.spec_to_physical(mode, containing_block).spec_to_flow_relative(mode, containing_block)
            == rect,
{
}

} // verus!
