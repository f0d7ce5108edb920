//! Border line styles and widths.

use vstd::prelude::*;

use crate::style::errors::PropertyParseError;
use crate::style::values::color::Color;
use crate::style::values::color::css_color;
use crate::style::values::components;
use crate::style::values::css_components;
use crate::style::values::css_tokens;
use crate::style::values::CssToken;
use crate::style::values::CssTokenView;
use crate::style::values::eq_ignore_ascii_case;
use crate::style::values::expect_ident;
use crate::style::values::length::Length;
use crate::style::values::length::LengthOrPercentage;
use crate::style::values::length::SpecifiedLength;
use crate::style::values::length::SpecifiedLengthOrPercentage;
use crate::style::values::spec_eq_ignore_ascii_case;
use crate::style::values::spec_expect_ident;
use crate::style::values::spec_text_views;
use crate::style::values::spec_token_views;
use crate::style::values::tokenize;

verus! {

#[derive(Copy, Clone, Debug, PartialEq, Eq, Structural)]
pub enum LineStyle {
    /// No line at all: the `none` of CSS.
    NoLine,
    Solid,
    Dotted,
    Dashed,
}

#[derive(Copy, Clone, Debug)]
pub struct LineWidth(pub LengthOrPercentage);

/// The width of a border as a style sheet gives it.
#[derive(Copy, Clone, Debug, PartialEq, Eq, Structural)]
pub struct SpecifiedLineWidth(pub SpecifiedLengthOrPercentage);

impl SpecifiedLineWidth {
    /// The width that a keyword names: `thin` is one pixel, `medium` three
    /// and `thick` five, whatever the case of the letters.
    pub open spec fn spec_from_keyword(name: Seq<char>) -> Option<SpecifiedLineWidth> {
        match LineWidth::spec_from_keyword(name) {
            Some(LineWidth(LengthOrPercentage::Length(length))) => Some(
                SpecifiedLineWidth(
                    SpecifiedLengthOrPercentage::Length(SpecifiedLength::Absolute(length)),
                ),
            ),
            _ => None,
        }
    }

    /// The width that `tokens` starts with: one of the keywords, or a
    /// length or a percentage.
    pub open spec fn spec_from_tokens(tokens: Seq<CssTokenView>) -> Result<
        SpecifiedLineWidth,
        PropertyParseError,
    > {
        let named = match spec_expect_ident(tokens) {
            Ok(name) => SpecifiedLineWidth::spec_from_keyword(name),
            Err(_) => None,
        };
        match named {
            Some(width) => Ok(width),
            None => match SpecifiedLengthOrPercentage::spec_from_tokens(tokens) {
                Ok(value) => Ok(SpecifiedLineWidth(value)),
                Err(e) => Err(e),
            },
        }
    }

    pub fn from_tokens(tokens: &Vec<CssToken>) -> (r: Result<
        SpecifiedLineWidth,
        PropertyParseError,
    >)
        ensures
            r == SpecifiedLineWidth::spec_from_tokens(spec_token_views(tokens@)),
    {
        if let Ok(name) = expect_ident(tokens) {
            if let Some(LineWidth(LengthOrPercentage::Length(length))) = LineWidth::from_keyword(
                name,
            ) {
                return Ok(
                    SpecifiedLineWidth(
                        SpecifiedLengthOrPercentage::Length(SpecifiedLength::Absolute(length)),
                    ),
                );
            }
        }
        match SpecifiedLengthOrPercentage::from_tokens(tokens) {
            Ok(value) => Ok(SpecifiedLineWidth(value)),
            Err(e) => Err(e),
        }
    }

    /// Reads the width of a border from CSS text.
    pub fn parse(css: &str) -> (r: Result<SpecifiedLineWidth, PropertyParseError>)
        ensures
            r == SpecifiedLineWidth::spec_from_tokens(css_tokens(css@)),
    {
        let tokens = tokenize(css);
        SpecifiedLineWidth::from_tokens(&tokens)
    }
}

impl LineWidth {
    /// The width of a `medium` border: three pixels.
    pub open spec fn spec_medium() -> LineWidth {
        LineWidth(LengthOrPercentage::Length(Length { units: 192 }))
    }

    /// The width that a border of line style `style` is left with: none
    /// where the style is `NoLine`.
    pub open spec fn spec_fixup(self, style: LineStyle) -> LineWidth {
        if style == LineStyle::NoLine {
            LineWidth(LengthOrPercentage::Length(Length::spec_zero()))
        } else {
            self
        }
    }

    /// The width that a keyword names: `thin` is one pixel, `medium` three
    /// and `thick` five, whatever the case of the letters.
    pub open spec fn spec_from_keyword(name: Seq<char>) -> Option<LineWidth> {
        if spec_eq_ignore_ascii_case(name, "thin"@) {
            Some(LineWidth(LengthOrPercentage::Length(Length { units: 64 })))
        } else if spec_eq_ignore_ascii_case(name, "medium"@) {
            Some(LineWidth(LengthOrPercentage::Length(Length { units: 192 })))
        } else if spec_eq_ignore_ascii_case(name, "thick"@) {
            Some(LineWidth(LengthOrPercentage::Length(Length { units: 320 })))
        } else {
            None
        }
    }

    pub fn from_keyword(name: &str) -> (r: Option<LineWidth>)
        ensures
            r == LineWidth::spec_from_keyword(name@),
    {
        let px: i32 = if eq_ignore_ascii_case(name, "thin") {
            1
        } else if eq_ignore_ascii_case(name, "medium") {
            3
        } else if eq_ignore_ascii_case(name, "thick") {
            5
        } else {
            return None;
        };
        Some(LineWidth(LengthOrPercentage::Length(Length::from_px(px))))
    }

    #[verifier::when_used_as_spec(spec_medium)]
    pub fn medium() -> (r: LineWidth)
        ensures
            r == LineWidth::spec_medium(),
    {
        LineWidth(LengthOrPercentage::Length(Length::from_px(3)))
    }

    pub fn fixup(&mut self, style: LineStyle)
        ensures
            *final(self) == old(self).spec_fixup(style),
    {
        if let LineStyle::NoLine = style {
            self.0 = LengthOrPercentage::Length(Length::zero())
        }
    }
}

impl LineStyle {
    /// The value that the keyword `name` stands for, whatever the case of
    /// its letters.
    pub open spec fn spec_from_keyword(name: Seq<char>) -> Option<LineStyle> {
        if spec_eq_ignore_ascii_case(name, "none"@) {
            Some(LineStyle::NoLine)
        } else if spec_eq_ignore_ascii_case(name, "solid"@) {
            Some(LineStyle::Solid)
        } else if spec_eq_ignore_ascii_case(name, "dotted"@) {
            Some(LineStyle::Dotted)
        } else if spec_eq_ignore_ascii_case(name, "dashed"@) {
            Some(LineStyle::Dashed)
        } else {
            None
        }
    }

    /// The value that `tokens` starts with: one of the keywords `none`, `solid`, `dotted`
    /// and `dashed`.
    /// What follows the keyword is not looked at.
    pub open spec fn spec_from_tokens(tokens: Seq<CssTokenView>) -> Result<
        LineStyle,
        PropertyParseError,
    > {
        match spec_expect_ident(tokens) {
            Ok(name) => match LineStyle::spec_from_keyword(name) {
                Some(value) => Ok(value),
                None => Err(PropertyParseError::UnexpectedToken),
            },
            Err(e) => Err(e),
        }
    }

    pub fn from_keyword(name: &str) -> (r: Option<LineStyle>)
        ensures
            r == LineStyle::spec_from_keyword(name@),
    {
        if eq_ignore_ascii_case(name, "none") {
            Some(LineStyle::NoLine)
        } else if eq_ignore_ascii_case(name, "solid") {
            Some(LineStyle::Solid)
        } else if eq_ignore_ascii_case(name, "dotted") {
            Some(LineStyle::Dotted)
        } else if eq_ignore_ascii_case(name, "dashed") {
            Some(LineStyle::Dashed)
        } else {
            None
        }
    }

    pub fn from_tokens(tokens: &Vec<CssToken>) -> (r: Result<LineStyle, PropertyParseError>)
        ensures
            r == LineStyle::spec_from_tokens(spec_token_views(tokens@)),
    {
        let name = match expect_ident(tokens) {
            Ok(name) => name,
            Err(e) => {
                return Err(e);
            },
        };
        if eq_ignore_ascii_case(name, "none") {
            Ok(LineStyle::NoLine)
        } else if eq_ignore_ascii_case(name, "solid") {
            Ok(LineStyle::Solid)
        } else if eq_ignore_ascii_case(name, "dotted") {
            Ok(LineStyle::Dotted)
        } else if eq_ignore_ascii_case(name, "dashed") {
            Ok(LineStyle::Dashed)
        } else {
            Err(PropertyParseError::UnexpectedToken)
        }
    }

    /// Reads the value from CSS text.
    pub fn parse(css: &str) -> (r: Result<LineStyle, PropertyParseError>)
        ensures
            r == LineStyle::spec_from_tokens(css_tokens(css@)),
    {
        let tokens = tokenize(css);
        LineStyle::from_tokens(&tokens)
    }
}

/// One side of a border as a style sheet gives it in one value: a line
/// style, a color and a width, as far as they are given.
#[derive(Copy, Clone, Debug, PartialEq, Eq, Structural)]
pub struct BorderSide {
    pub style: Option<LineStyle>,
    pub color: Option<Color>,
    pub width: Option<SpecifiedLineWidth>,
}

/// What one component value of a text can be read as: a line style, a
/// color, a width, each if it can.
#[derive(Copy, Clone, Debug, PartialEq, Eq, Structural)]
pub struct ComponentReading {
    pub style: Option<LineStyle>,
    pub color: Option<Color>,
    pub width: Option<SpecifiedLineWidth>,
}

/// The borders of the four sides of a box, as far as they are given.
#[derive(Copy, Clone, Debug, PartialEq, Eq, Structural)]
pub struct BorderFourSides {
    pub style_top: Option<LineStyle>,
    pub style_right: Option<LineStyle>,
    pub style_bottom: Option<LineStyle>,
    pub style_left: Option<LineStyle>,
    pub color_top: Option<Color>,
    pub color_right: Option<Color>,
    pub color_bottom: Option<Color>,
    pub color_left: Option<Color>,
    pub width_top: Option<SpecifiedLineWidth>,
    pub width_right: Option<SpecifiedLineWidth>,
    pub width_bottom: Option<SpecifiedLineWidth>,
    pub width_left: Option<SpecifiedLineWidth>,
}

/// What the component value `part` can be read as.
pub open spec fn spec_read_component(part: Seq<char>) -> ComponentReading {
    ComponentReading {
        style: match LineStyle::spec_from_tokens(css_tokens(part)) {
            Ok(style) => Some(style),
            Err(_) => None,
        },
        color: css_color(part),
        width: match SpecifiedLineWidth::spec_from_tokens(css_tokens(part)) {
            Ok(width) => Some(width),
            Err(_) => None,
        },
    }
}

/// What each of `parts` can be read as, in order.
pub open spec fn spec_read_components(parts: Seq<Seq<char>>) -> Seq<ComponentReading> {
    Seq::new(parts.len(), |i: int| spec_read_component(parts[i]))
}

pub fn read_component(part: &str) -> (r: ComponentReading)
    ensures
        r == spec_read_component(part@),
{
    ComponentReading {
        style: match LineStyle::parse(part) {
            Ok(style) => Some(style),
            Err(_) => None,
        },
        color: match Color::parse(part) {
            Ok(color) => Some(color),
            Err(_) => None,
        },
        width: match SpecifiedLineWidth::parse(part) {
            Ok(width) => Some(width),
            Err(_) => None,
        },
    }
}

impl BorderSide {
    /// A side of which nothing is given.
    pub open spec fn spec_empty() -> BorderSide {
        BorderSide { style: None, color: None, width: None }
    }

    /// The side after the readings from index `from` on are taken in, one
    /// after the other, for as long as each gives something that the side
    /// lacks: its line style first, else its color, else its width. The first
    /// reading that gives nothing new ends it.
    pub open spec fn spec_fill(self, readings: Seq<ComponentReading>, from: int) -> BorderSide
        decreases readings.len() - from,
    {
        if from < 0 || from >= readings.len() {
            self
        } else if self.style is None && readings[from].style is Some {
            (BorderSide { style: readings[from].style, ..self }).spec_fill(readings, from + 1)
        } else if self.color is None && readings[from].color is Some {
            (BorderSide { color: readings[from].color, ..self }).spec_fill(readings, from + 1)
        } else if self.width is None && readings[from].width is Some {
            (BorderSide { width: readings[from].width, ..self }).spec_fill(readings, from + 1)
        } else {
            self
        }
    }

    /// The side that the component values with these readings give: a line
    /// style, a color and a width, each at most once and in any order. It is an
    /// error if the first component value is none of them, or if there is none
    /// at all. What follows the last one that is taken in is not looked at.
    pub open spec fn spec_from_readings(readings: Seq<ComponentReading>) -> Result<
        BorderSide,
        PropertyParseError,
    > {
        let side = BorderSide::spec_empty().spec_fill(readings, 0);
        if side != BorderSide::spec_empty() {
            Ok(side)
        } else if readings.len() == 0 {
            Err(PropertyParseError::EndOfInput)
        } else {
            Err(PropertyParseError::UnexpectedToken)
        }
    }

    /// The border of all four sides that this one side stands for.
    pub open spec fn spec_four_sides(self) -> BorderFourSides {
        BorderFourSides {
            style_top: self.style,
            style_right: self.style,
            style_bottom: self.style,
            style_left: self.style,
            color_top: self.color,
            color_right: self.color,
            color_bottom: self.color,
            color_left: self.color,
            width_top: self.width,
            width_right: self.width,
            width_bottom: self.width,
            width_left: self.width,
        }
    }

    pub fn from_readings(readings: &Vec<ComponentReading>) -> (r: Result<
        BorderSide,
        PropertyParseError,
    >)
        ensures
            r == BorderSide::spec_from_readings(readings@),
    {
        let mut values = BorderSide { style: None, color: None, width: None };
        let mut any = false;
        let mut i: usize = 0;
        let mut open = true;
        while open && i < readings.len()
            invariant
                i <= readings.len(),
                any == (values != BorderSide::spec_empty()),
                open ==> values.spec_fill(readings@, i as int) == BorderSide::spec_empty().spec_fill(
                    readings@,
                    0,
                ),
                !open ==> values == BorderSide::spec_empty().spec_fill(readings@, 0),
            decreases readings.len() - i + (if open { 1int } else { 0int }),
        {
            let reading = readings[i];
            if values.style.is_none() && reading.style.is_some() {
                values.style = reading.style;
                any = true;
                i += 1;
            } else if values.color.is_none() && reading.color.is_some() {
                values.color = reading.color;
                any = true;
                i += 1;
            } else if values.width.is_none() && reading.width.is_some() {
                values.width = reading.width;
                any = true;
                i += 1;
            } else {
                open = false;
            }
        }
        if any {
            Ok(values)
        } else if readings.len() == 0 {
            Err(PropertyParseError::EndOfInput)
        } else {
            Err(PropertyParseError::UnexpectedToken)
        }
    }

    /// Reads one side of a border from CSS text.
    pub fn parse(css: &str) -> (r: Result<BorderSide, PropertyParseError>)
        ensures
            r == BorderSide::spec_from_readings(spec_read_components(css_components(css@))),
    {
        let parts = components(css);
        let mut readings: Vec<ComponentReading> = Vec::new();
        let mut i: usize = 0;
        while i < parts.len()
            invariant
                i <= parts.len(),
                readings@.len() == i,
                forall|k: int|
                    0 <= k < i ==> #[trigger] readings@[k] == spec_read_component(parts@[k]@),
            decreases parts.len() - i,
        {
            readings.push(read_component(parts[i].as_str()));
            i += 1;
        }
        assert(readings@ =~= spec_read_components(spec_text_views(parts@)));
        BorderSide::from_readings(&readings)
    }

    pub fn four_sides(&self) -> (r: BorderFourSides)
        ensures
            r == self.spec_four_sides(),
    {
        BorderFourSides {
            style_top: self.style,
            style_right: self.style,
            style_bottom: self.style,
            style_left: self.style,
            color_top: self.color,
            color_right: self.color,
            color_bottom: self.color,
            color_left: self.color,
            width_top: self.width,
            width_right: self.width,
            width_bottom: self.width,
            width_left: self.width,
        }
    }
}

impl BorderFourSides {
    /// What reading the borders of four sides comes to, given what reading
    /// one side came to: that side on all four sides.
    pub open spec fn spec_from_side(side: Result<BorderSide, PropertyParseError>) -> Result<
        BorderFourSides,
        PropertyParseError,
    > {
        match side {
            Ok(side) => Ok(side.spec_four_sides()),
            Err(e) => Err(e),
        }
    }

    /// Reads the borders of all four sides from CSS text that gives one.
    pub fn parse(css: &str) -> (r: Result<BorderFourSides, PropertyParseError>)
        ensures
            r == BorderFourSides::spec_from_side(
                BorderSide::spec_from_readings(spec_read_components(css_components(css@))),
            ),
    {
        match BorderSide::parse(css) {
            Ok(border) => Ok(border.four_sides()),
            Err(e) => Err(e),
        }
    }
}

} // verus!
