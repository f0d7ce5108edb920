//! Layout: from styled boxes to positioned fragments.

use vstd::prelude::*;

use crate::geom::flow_relative::Vec2;
use crate::style::properties::ComputedValues;
use crate::style::values::length::Length;
use crate::style::values::length::LengthOrAuto;
use crate::style::values::writing_modes::Direction;
use crate::style::values::writing_modes::WritingMode;

pub mod flow;
pub mod fragments;
pub mod positioned;

verus! {

/// The rectangle that gives a box the sizes to lay its content out in.
#[derive(Copy, Clone, Debug)]
pub struct ContainingBlock {
    pub inline_size: Length,
    pub block_size: LengthOrAuto,
    pub mode: (WritingMode, Direction),
}

/// Why a layout was given up. A layout that is given up returns no
/// fragments at all.
#[derive(Copy, Clone, Debug, PartialEq, Eq, Structural)]
pub enum LayoutError {
    /// A font could not measure a text that was to be laid out.
    MeasurementFailure,
    /// The boxes hold replaced or atomic inline content, which cannot be
    /// laid out.
    UnsupportedContent,
}

/// The offset of a relatively positioned box along one axis: by its start
/// offset where it has one, else against its end offset, else none.
pub open spec fn spec_adjust(start: LengthOrAuto, end: LengthOrAuto) -> Length {
    match (start, end) {
        (LengthOrAuto::Auto, LengthOrAuto::Auto) => Length::spec_zero(),
        (LengthOrAuto::Auto, LengthOrAuto::Length(end)) => end.spec_neg(),
        (LengthOrAuto::Length(start), _) => start,
    }
}

/// How far relative positioning moves a box of `style`: nothing unless it is
/// relatively positioned, else by its offsets, percentages taken of the sizes
/// of the containing block (an `Auto` block size counts as zero).
pub open spec fn spec_relative_adjustement(
    style: &ComputedValues,
    inline_size: Length,
    block_size: LengthOrAuto,
) -> Vec2<Length> {
    if !style.box_.position.spec_is_relatively_positioned() {
        Vec2::<Length>::spec_zero()
    } else {
        let block_size = block_size.spec_auto_is_zero();
        let offsets = style.spec_box_offsets();
        Vec2 {
            inline: spec_adjust(
                offsets.inline_start.spec_percentage_relative_to(inline_size),
                offsets.inline_end.spec_percentage_relative_to(inline_size),
            ),
            block: spec_adjust(
                offsets.block_start.spec_percentage_relative_to(block_size),
                offsets.block_end.spec_percentage_relative_to(block_size),
            ),
        }
    }
}

pub fn adjust(start: LengthOrAuto, end: LengthOrAuto) -> (r: Length)
    ensures
        r == spec_adjust(start, end),
{
    match (start, end) {
        (LengthOrAuto::Auto, LengthOrAuto::Auto) => Length::zero(),
        (LengthOrAuto::Auto, LengthOrAuto::Length(end)) => end.neg(),
        (LengthOrAuto::Length(start), _) => start,
    }
}

pub fn relative_adjustement(
    style: &ComputedValues,
    inline_size: Length,
    block_size: LengthOrAuto,
) -> (r: Vec2<Length>)
    ensures
        r == spec_relative_adjustement(style, inline_size, block_size),
{
    if !style.box_.position.is_relatively_positioned() {
        return Vec2::<Length>::zero();
    }
    let block_size = block_size.auto_is(Length::zero);
    let offsets = style.box_offsets();
    Vec2 {
        inline: adjust(
            offsets.inline_start.percentage_relative_to(inline_size),
            offsets.inline_end.percentage_relative_to(inline_size),
        ),
        block: adjust(
            offsets.block_start.percentage_relative_to(block_size),
            offsets.block_end.percentage_relative_to(block_size),
        ),
    }
}

} // verus!
