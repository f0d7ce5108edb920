//! The computed values of one element: what the cascade hands to layout
//! and painting.

use vstd::prelude::*;

use crate::geom::flow_relative;
use crate::geom::physical;
use crate::primitives::RGBA;
use crate::style::values::border::LineStyle;
use crate::style::values::border::LineWidth;
use crate::style::values::box_::Position;
use crate::style::values::color::Color;
use crate::style::values::fontfamily::FontFamily;
use crate::style::values::fonts::FontSize;
use crate::style::values::fonts::FontStyle;
use crate::style::values::fonts::FontWeight;
use crate::style::values::length::Length;
use crate::style::values::length::LengthOrPercentage;
use crate::style::values::length::LengthOrPercentageOrAuto;
use crate::style::values::length::LengthOrPercentageOrNumber;
use crate::style::values::length::Number;
use crate::style::values::line::VerticalAlign;
use crate::style::values::text::TextAlign;
use crate::style::values::text::WhiteSpace;
use crate::style::values::writing_modes::Direction;
use crate::style::values::writing_modes::WritingMode;

verus! {

#[derive(Clone, Debug)]
pub struct FontProperties {
    pub font_family: FontFamily,
    pub font_style: FontStyle,
    pub font_weight: FontWeight,
    pub font_size: FontSize,
}

#[derive(Copy, Clone, Debug)]
pub struct ColorGroup {
    pub color: RGBA,
}

#[derive(Copy, Clone, Debug)]
pub struct TextInherited {
    pub text_align: TextAlign,
    pub white_space: WhiteSpace,
}

#[derive(Copy, Clone, Debug)]
pub struct LineInherited {
    pub line_height: LengthOrPercentageOrNumber,
}

#[derive(Copy, Clone, Debug)]
pub struct LineReset {
    pub vertical_align: VerticalAlign,
}

#[derive(Copy, Clone, Debug)]
pub struct Writing {
    pub writing_mode: WritingMode,
    pub direction: Direction,
}

#[derive(Copy, Clone, Debug)]
pub struct BoxGroup {
    pub position: Position,
    pub top: LengthOrPercentageOrAuto,
    pub left: LengthOrPercentageOrAuto,
    pub bottom: LengthOrPercentageOrAuto,
    pub right: LengthOrPercentageOrAuto,
}

#[derive(Copy, Clone, Debug)]
pub struct Padding {
    pub padding_top: LengthOrPercentage,
    pub padding_left: LengthOrPercentage,
    pub padding_bottom: LengthOrPercentage,
    pub padding_right: LengthOrPercentage,
}

#[derive(Copy, Clone, Debug)]
pub struct Border {
    pub border_top_width: LineWidth,
    pub border_left_width: LineWidth,
    pub border_bottom_width: LineWidth,
    pub border_right_width: LineWidth,
    pub border_top_style: LineStyle,
    pub border_left_style: LineStyle,
    pub border_bottom_style: LineStyle,
    pub border_right_style: LineStyle,
    pub border_top_color: Color,
    pub border_left_color: Color,
    pub border_bottom_color: Color,
    pub border_right_color: Color,
}

#[derive(Copy, Clone, Debug)]
pub struct Margin {
    pub margin_top: LengthOrPercentageOrAuto,
    pub margin_left: LengthOrPercentageOrAuto,
    pub margin_bottom: LengthOrPercentageOrAuto,
    pub margin_right: LengthOrPercentageOrAuto,
}

#[derive(Copy, Clone, Debug)]
pub struct Background {
    pub background_color: Color,
}

#[derive(Clone, Debug)]
pub struct ComputedValues {
    pub font: FontProperties,
    pub color: ColorGroup,
    pub text_inherited: TextInherited,
    pub line_inherited: LineInherited,
    pub line_reset: LineReset,
    pub writing: Writing,
    pub box_: BoxGroup,
    pub padding: Padding,
    pub border: Border,
    pub margin: Margin,
    pub background: Background,
}

impl ComputedValues {
    pub open spec fn spec_writing_mode(&self) -> (WritingMode, Direction) {
        (self.writing.writing_mode, self.writing.direction)
    }

    /// The padding, by flow-relative side.
    pub open spec fn spec_padding(&self) -> flow_relative::Sides<LengthOrPercentage> {
        (physical::Sides {
            top: self.padding.padding_top,
            left: self.padding.padding_left,
            bottom: self.padding.padding_bottom,
            right: self.padding.padding_right,
        }).spec_to_flow_relative(self.spec_writing_mode())
    }

    /// The border widths, by flow-relative side.
    pub open spec fn spec_border_width(&self) -> flow_relative::Sides<LengthOrPercentage> {
        (physical::Sides {
            top: self.border.border_top_width.0,
            left: self.border.border_left_width.0,
            bottom: self.border.border_bottom_width.0,
            right: self.border.border_right_width.0,
        }).spec_to_flow_relative(self.spec_writing_mode())
    }

    /// The margins, by flow-relative side.
    pub open spec fn spec_margin(&self) -> flow_relative::Sides<LengthOrPercentageOrAuto> {
        (physical::Sides {
            top: self.margin.margin_top,
            left: self.margin.margin_left,
            bottom: self.margin.margin_bottom,
            right: self.margin.margin_right,
        }).spec_to_flow_relative(self.spec_writing_mode())
    }

    /// The offsets of a positioned box, by flow-relative side.
    pub open spec fn spec_box_offsets(&self) -> flow_relative::Sides<LengthOrPercentageOrAuto> {
        (physical::Sides {
            top: self.box_.top,
            left: self.box_.left,
            bottom: self.box_.bottom,
            right: self.box_.right,
        }).spec_to_flow_relative(self.spec_writing_mode())
    }

    /// The color that `color` stands for on this element: `CurrentColor` is
    /// the element's text color.
    pub open spec fn spec_to_rgba(&self, color: Color) -> RGBA {
        match color {
            Color::RGBA(rgba) => rgba,
            Color::CurrentColor => self.color.color,
        }
    }

    /// The initial values: black 16px sans-serif text with a line height of
    /// 1.2, left-aligned and wrapping, written horizontally from left to right;
    /// no padding, border or margin; a transparent background.
    pub open spec fn spec_is_initial(&self) -> bool {
        &&& self.font.font_family is GenericSans
        &&& self.font.font_style == FontStyle::Normal
        &&& self.font.font_weight == FontWeight::Normal
        &&& self.font.font_size == FontSize(Length { units: 1024 })
        &&& self.color.color == RGBA(0, 0, 0, 255)
        &&& self.text_inherited.text_align == TextAlign::Left
        &&& self.text_inherited.white_space == WhiteSpace::Normal
        &&& self.line_inherited.line_height == LengthOrPercentageOrNumber::Number(
            Number { thousandths: 1200 },
        )
        &&& self.line_reset.vertical_align == VerticalAlign::Baseline
        &&& self.writing.writing_mode == WritingMode::HorizontalTb
        &&& self.writing.direction == Direction::Ltr
        &&& self.box_ == (BoxGroup {
            position: Position::Static,
            top: LengthOrPercentageOrAuto::Auto,
            left: LengthOrPercentageOrAuto::Auto,
            bottom: LengthOrPercentageOrAuto::Auto,
            right: LengthOrPercentageOrAuto::Auto,
        })
        &&& self.padding == (Padding {
            padding_top: LengthOrPercentage::Length(Length::spec_zero()),
            padding_left: LengthOrPercentage::Length(Length::spec_zero()),
            padding_bottom: LengthOrPercentage::Length(Length::spec_zero()),
            padding_right: LengthOrPercentage::Length(Length::spec_zero()),
        })
        &&& self.border == (Border {
            border_top_width: LineWidth(LengthOrPercentage::Length(Length::spec_zero())),
            border_left_width: LineWidth(LengthOrPercentage::Length(Length::spec_zero())),
            border_bottom_width: LineWidth(LengthOrPercentage::Length(Length::spec_zero())),
            border_right_width: LineWidth(LengthOrPercentage::Length(Length::spec_zero())),
            border_top_style: LineStyle::NoLine,
            border_left_style: LineStyle::NoLine,
            border_bottom_style: LineStyle::NoLine,
            border_right_style: LineStyle::NoLine,
            border_top_color: Color::CurrentColor,
            border_left_color: Color::CurrentColor,
            border_bottom_color: Color::CurrentColor,
            border_right_color: Color::CurrentColor,
        })
        &&& self.margin == (Margin {
            margin_top: LengthOrPercentageOrAuto::Length(Length::spec_zero()),
            margin_left: LengthOrPercentageOrAuto::Length(Length::spec_zero()),
            margin_bottom: LengthOrPercentageOrAuto::Length(Length::spec_zero()),
            margin_right: LengthOrPercentageOrAuto::Length(Length::spec_zero()),
        })
        &&& self.background.background_color == Color::RGBA(RGBA(0, 0, 0, 0))
    }

    pub fn initial() -> (r: ComputedValues)
        ensures
            r.spec_is_initial(),
    {
        let zero = LengthOrPercentage::Length(Length::zero());
        let no_margin = LengthOrPercentageOrAuto::Length(Length::zero());
        ComputedValues {
            font: FontProperties {
                font_family: FontFamily::GenericSans,
                font_style: FontStyle::Normal,
                font_weight: FontWeight::Normal,
                font_size: FontSize(Length::from_px(16)),
            },
            color: ColorGroup { color: RGBA(0, 0, 0, 255) },
            text_inherited: TextInherited {
                text_align: TextAlign::Left,
                white_space: WhiteSpace::Normal,
            },
            line_inherited: LineInherited {
                line_height: LengthOrPercentageOrNumber::Number(Number { thousandths: 1200 }),
            },
            line_reset: LineReset { vertical_align: VerticalAlign::Baseline },
            writing: Writing {
                writing_mode: WritingMode::HorizontalTb,
                direction: Direction::Ltr,
            },
            box_: BoxGroup {
                position: Position::Static,
                top: LengthOrPercentageOrAuto::Auto,
                left: LengthOrPercentageOrAuto::Auto,
                bottom: LengthOrPercentageOrAuto::Auto,
                right: LengthOrPercentageOrAuto::Auto,
            },
            padding: Padding {
                padding_top: zero,
                padding_left: zero,
                padding_bottom: zero,
                padding_right: zero,
            },
            border: Border {
                border_top_width: LineWidth(zero),
                border_left_width: LineWidth(zero),
                border_bottom_width: LineWidth(zero),
                border_right_width: LineWidth(zero),
                border_top_style: LineStyle::NoLine,
                border_left_style: LineStyle::NoLine,
                border_bottom_style: LineStyle::NoLine,
                border_right_style: LineStyle::NoLine,
                border_top_color: Color::CurrentColor,
                border_left_color: Color::CurrentColor,
                border_bottom_color: Color::CurrentColor,
                border_right_color: Color::CurrentColor,
            },
            margin: Margin {
                margin_top: no_margin,
                margin_left: no_margin,
                margin_bottom: no_margin,
                margin_right: no_margin,
            },
            background: Background { background_color: Color::RGBA(RGBA(0, 0, 0, 0)) },
        }
    }

    pub fn writing_mode(&self) -> (r: (WritingMode, Direction))
        ensures
            r == self.spec_writing_mode(),
    {
        (self.writing.writing_mode, self.writing.direction)
    }

    pub fn padding(&self) -> (r: flow_relative::Sides<LengthOrPercentage>)
        ensures
            r == self.spec_padding(),
    {
        (physical::Sides {
            top: self.padding.padding_top,
            left: self.padding.padding_left,
            bottom: self.padding.padding_bottom,
            right: self.padding.padding_right,
        }).to_flow_relative(self.writing_mode())
    }

    pub fn border_width(&self) -> (r: flow_relative::Sides<LengthOrPercentage>)
        ensures
            r == self.spec_border_width(),
    {
        (physical::Sides {
            top: self.border.border_top_width.0,
            left: self.border.border_left_width.0,
            bottom: self.border.border_bottom_width.0,
            right: self.border.border_right_width.0,
        }).to_flow_relative(self.writing_mode())
    }

    pub fn margin(&self) -> (r: flow_relative::Sides<LengthOrPercentageOrAuto>)
        ensures
            r == self.spec_margin(),
    {
        (physical::Sides {
            top: self.margin.margin_top,
            left: self.margin.margin_left,
            bottom: self.margin.margin_bottom,
            right: self.margin.margin_right,
        }).to_flow_relative(self.writing_mode())
    }

    pub fn box_offsets(&self) -> (r: flow_relative::Sides<LengthOrPercentageOrAuto>)
        ensures
            r == self.spec_box_offsets(),
    {
        (physical::Sides {
            top: self.box_.top,
            left: self.box_.left,
            bottom: self.box_.bottom,
            right: self.box_.right,
        }).to_flow_relative(self.writing_mode())
    }

    pub fn to_rgba(&self, color: Color) -> (r: RGBA)
        ensures
            r == self.spec_to_rgba(color),
    {
        match color {
            Color::RGBA(rgba) => rgba,
            Color::CurrentColor => self.color.color,
        }
    }
}

} // verus!
