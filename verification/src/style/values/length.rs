//! Lengths, percentages and plain numbers, and the values that mix them.

use vstd::prelude::*;
use vstd::std_specs::convert::FromSpecImpl;
use vstd::std_specs::ops::AddSpecImpl;
use vstd::std_specs::ops::MulSpecImpl;
use vstd::std_specs::ops::SubSpecImpl;

use crate::style::errors::PropertyParseError;
use crate::style::values::css_tokens;
use crate::style::values::CssToken;
use crate::style::values::CssTokenView;
use crate::style::values::eq_ignore_ascii_case;
use crate::style::values::float_bits::from_float_bits;
use crate::style::values::float_bits::spec_from_float_bits;
use crate::style::values::spec_eq_ignore_ascii_case;
use crate::style::values::spec_token_views;
use crate::style::values::tokenize;

verus! {

/// Number of length units in one CSS pixel.
pub const UNITS_PER_PX: i64 = 64;

/// The value of `v` brought into the range of `i64`: values beyond either
/// end stay at that end.
pub open spec fn saturate(v: int) -> int {
    if v < i64::MIN {
        i64::MIN as int
    } else if v > i64::MAX {
        i64::MAX as int
    } else {
        v
    }
}

/// A length in CSS pixels, held as a whole number of sixty-fourths of a pixel.
///
/// Arithmetic on lengths is total: a result beyond the range of the
/// representation stays at the nearest end of the range, much as a
/// floating-point length would reach infinity.
#[derive(Copy, Clone, Debug, PartialEq, Eq, Structural)]
pub struct Length {
    pub units: i64,
}

impl View for Length {
    type V = int;

    open spec fn view(&self) -> int {
        self.units as int
    }
}

impl Length {
    /// The length of `v` units, saturated.
    pub open spec fn of(v: int) -> Length {
        Length { units: saturate(v) as i64 }
    }

    pub open spec fn spec_zero() -> Length {
        Length { units: 0 }
    }

    pub open spec fn spec_max(self, other: Length) -> Length {
        if self.units >= other.units {
            self
        } else {
            other
        }
    }

    pub open spec fn spec_min(self, other: Length) -> Length {
        if self.units <= other.units {
            self
        } else {
            other
        }
    }

    /// The sum of the two lengths, saturated.
    pub open spec fn plus(self, other: Length) -> Length {
        Length::of(self.units + other.units)
    }

    /// The first length less the second, saturated.
    pub open spec fn minus(self, other: Length) -> Length {
        Length::of(self.units - other.units)
    }

    /// The length with its sign changed, saturated.
    pub open spec fn spec_neg(self) -> Length {
        Length::of(-(self.units as int))
    }

    /// Half of the length, rounded towards negative infinity.
    pub open spec fn spec_half(self) -> Length {
        Length { units: (self.units as int / 2) as i64 }
    }

    /// The length scaled by `thousandths / 1000`, rounded towards negative
    /// infinity and saturated.
    pub open spec fn spec_scale(self, thousandths: int) -> Length {
        Length::of((self.units as int * thousandths) / 1000)
    }

    #[verifier::when_used_as_spec(spec_zero)]
    pub fn zero() -> (r: Length)
        ensures
            r == Length::spec_zero(),
    {
        Length { units: 0 }
    }

    /// A length of `px` whole pixels.
    pub fn from_px(px: i32) -> (r: Length)
        ensures
            r@ == px as int * UNITS_PER_PX as int,
    {
        let wide: i64 = px as i64;
        Length { units: wide * UNITS_PER_PX }
    }

    #[verifier::when_used_as_spec(spec_max)]
    pub fn max(self, other: Length) -> (r: Length)
        ensures
            r == self.spec_max(other),
    {
        if self.units >= other.units {
            self
        } else {
            other
        }
    }

    #[verifier::when_used_as_spec(spec_min)]
    pub fn min(self, other: Length) -> (r: Length)
        ensures
            r == self.spec_min(other),
    {
        if self.units <= other.units {
            self
        } else {
            other
        }
    }

    pub fn max_assign(&mut self, other: Length)
        ensures
            *final(self) == old(self).spec_max(other),
    {
        *self = self.max(other)
    }

    #[verifier::when_used_as_spec(spec_neg)]
    pub fn neg(self) -> (r: Length)
        ensures
            r == self.spec_neg(),
    {
        let wide: i128 = -(self.units as i128);
        Length { units: saturate_i128(wide) }
    }

    /// The length of `units` sixty-fourths of a pixel.
    pub fn new(units: i64) -> (r: Length)
        ensures
            r.units == units,
    {
        Length { units }
    }

    pub fn scale(self, thousandths: i32) -> (r: Length)
        ensures
            r == self.spec_scale(thousandths as int),
    {
        assert(-0x4000_0000_0000_0000_0000_0000 <= self.units as int * thousandths as int
            <= 0x4000_0000_0000_0000_0000_0000) by (nonlinear_arith)
            requires
                -0x8000_0000_0000_0000 <= self.units as int <= 0x8000_0000_0000_0000,
                -0x8000_0000 <= thousandths as int <= 0x8000_0000,
        ;
        let product: i128 = self.units as i128 * thousandths as i128;
        let rem: i128 = product % 1000;
        let quotient: i128 = if rem < 0 {
            (product - rem) / 1000 - 1
        } else {
            product / 1000
        };
        Length { units: saturate_i128(quotient) }
    }

    #[verifier::when_used_as_spec(spec_half)]
    pub fn half(self) -> (r: Length)
        ensures
            r == self.spec_half(),
    {
        let rem: i64 = self.units % 2;
        if rem < 0 {
            Length { units: (self.units - 1) / 2 }
        } else {
            Length { units: self.units / 2 }
        }
    }
}

/// A plain number scaled by one thousand: 1200 stands for 1.2.
#[derive(Copy, Clone, Debug, PartialEq, Eq, Structural)]
pub struct Number {
    pub thousandths: i32,
}

/// A percentage, held as thousandths of the whole: 500 stands for 50%.
#[derive(Copy, Clone, Debug, PartialEq, Eq, Structural)]
pub struct Percentage {
    pub thousandths: i32,
}

fn saturate_i128(v: i128) -> (r: i64)
    ensures
        r as int == saturate(v as int),
{
    if v < i64::MIN as i128 {
        i64::MIN
    } else if v > i64::MAX as i128 {
        i64::MAX
    } else {
        v as i64
    }
}

impl core::ops::Add for Length {
    type Output = Length;

    fn add(self, other: Length) -> (r: Length) {
        let wide: i128 = self.units as i128 + other.units as i128;
        Length { units: saturate_i128(wide) }
    }
}

impl AddSpecImpl for Length {
    open spec fn obeys_add_spec() -> bool {
        true
    }

    open spec fn add_req(self, other: Length) -> bool {
        true
    }

    open spec fn add_spec(self, other: Length) -> Length {
        self.plus(other)
    }
}

impl core::ops::Sub for Length {
    type Output = Length;

    fn sub(self, other: Length) -> (r: Length) {
        let wide: i128 = self.units as i128 - other.units as i128;
        Length { units: saturate_i128(wide) }
    }
}

impl SubSpecImpl for Length {
    open spec fn obeys_sub_spec() -> bool {
        true
    }

    open spec fn sub_req(self, other: Length) -> bool {
        true
    }

    open spec fn sub_spec(self, other: Length) -> Length {
        self.minus(other)
    }
}

impl core::ops::Mul<Number> for Length {
    type Output = Length;

    fn mul(self, other: Number) -> (r: Length) {
        self.scale(other.thousandths)
    }
}

impl MulSpecImpl<Number> for Length {
    open spec fn obeys_mul_spec() -> bool {
        true
    }

    open spec fn mul_req(self, other: Number) -> bool {
        true
    }

    open spec fn mul_spec(self, other: Number) -> Length {
        self.spec_scale(other.thousandths as int)
    }
}

impl core::ops::Mul<Percentage> for Length {
    type Output = Length;

    fn mul(self, other: Percentage) -> (r: Length) {
        self.scale(other.thousandths)
    }
}

impl MulSpecImpl<Percentage> for Length {
    open spec fn obeys_mul_spec() -> bool {
        true
    }

    open spec fn mul_req(self, other: Percentage) -> bool {
        true
    }

    open spec fn mul_spec(self, other: Percentage) -> Length {
        self.spec_scale(other.thousandths as int)
    }
}

/// A length as a style sheet gives it: absolute, or in font sizes.
#[derive(Copy, Clone, Debug, PartialEq, Eq, Structural)]
pub enum SpecifiedLength {
    Absolute(Length),
    Em(Number),
}

/// An absolute unit of length as so many length units in so many
/// thousandths of the unit: an inch is 96 pixels, a point the 72nd part of
/// an inch, a pica 12 points, and 2.54 centimeters are an inch.
pub open spec fn spec_unit_ratio(unit: Seq<char>) -> Option<(int, int)> {
    if spec_eq_ignore_ascii_case(unit, "px"@) {
        Some((64, 1000))
    } else if spec_eq_ignore_ascii_case(unit, "pt"@) {
        Some((6144, 72000))
    } else if spec_eq_ignore_ascii_case(unit, "in"@) {
        Some((6144, 1000))
    } else if spec_eq_ignore_ascii_case(unit, "cm"@) {
        Some((614400, 254000))
    } else if spec_eq_ignore_ascii_case(unit, "mm"@) {
        Some((61440, 254000))
    } else if spec_eq_ignore_ascii_case(unit, "pc"@) {
        Some((1024, 1000))
    } else {
        None
    }
}

fn unit_ratio(unit: &str) -> (r: Option<(i64, i64)>)
    ensures
        match spec_unit_ratio(unit@) {
            Some((n, d)) => r is Some && r->Some_0.0 == n && r->Some_0.1 == d,
            None => r is None,
        },
{
    if eq_ignore_ascii_case(unit, "px") {
        Some((64, 1000))
    } else if eq_ignore_ascii_case(unit, "pt") {
        Some((6144, 72000))
    } else if eq_ignore_ascii_case(unit, "in") {
        Some((6144, 1000))
    } else if eq_ignore_ascii_case(unit, "cm") {
        Some((614400, 254000))
    } else if eq_ignore_ascii_case(unit, "mm") {
        Some((61440, 254000))
    } else if eq_ignore_ascii_case(unit, "pc") {
        Some((1024, 1000))
    } else {
        None
    }
}

impl SpecifiedLength {
    /// The length that the number `value` with the unit `unit` is: so many
    /// font sizes for `em`, an absolute length, rounded towards negative
    /// infinity, for `px`, `pt`, `in`, `cm`, `mm` and `pc`, whatever the case of
    /// the letters. Any other unit is an error.
    pub open spec fn spec_from_dimension(value: Number, unit: Seq<char>) -> Result<
        SpecifiedLength,
        PropertyParseError,
    > {
        match spec_unit_ratio(unit) {
            Some((n, d)) => Ok(
                SpecifiedLength::Absolute(Length::of((value.thousandths as int * n) / d)),
            ),
            None => if spec_eq_ignore_ascii_case(unit, "em"@) {
                Ok(SpecifiedLength::Em(value))
            } else {
                Err(PropertyParseError::UnknownUnit)
            },
        }
    }

    /// The length that the number `value` without a unit is: none, which
    /// only zero can be.
    pub open spec fn spec_from_number(value: Number) -> Result<
        SpecifiedLength,
        PropertyParseError,
    > {
        if value.thousandths == 0 {
            Ok(SpecifiedLength::Absolute(Length::spec_zero()))
        } else {
            Err(PropertyParseError::UnexpectedToken)
        }
    }

    /// The length that is meant where the font size is `font_size`.
    pub open spec fn spec_computed(self, font_size: Length) -> Length {
        match self {
            SpecifiedLength::Absolute(length) => length,
            SpecifiedLength::Em(value) => font_size.spec_scale(value.thousandths as int),
        }
    }

    pub fn from_dimension(value: Number, unit: &str) -> (r: Result<
        SpecifiedLength,
        PropertyParseError,
    >)
        ensures
            r == SpecifiedLength::spec_from_dimension(value, unit@),
    {
        match unit_ratio(unit) {
            Some((n, d)) => {
                assert(-0x2000_0000_0000_0000 <= value.thousandths as int * n as int
                    <= 0x2000_0000_0000_0000) by (nonlinear_arith)
                    requires
                        -0x8000_0000 <= value.thousandths as int <= 0x8000_0000,
                        0 <= n as int <= 614400,
                ;
                let product: i128 = value.thousandths as i128 * n as i128;
                let wide: i128 = d as i128;
                let rem: i128 = product % wide;
                let quotient: i128 = if rem < 0 {
                    (product - rem) / wide - 1
                } else {
                    product / wide
                };
                Ok(SpecifiedLength::Absolute(Length { units: saturate_i128(quotient) }))
            },
            None => if eq_ignore_ascii_case(unit, "em") {
                Ok(SpecifiedLength::Em(value))
            } else {
                Err(PropertyParseError::UnknownUnit)
            },
        }
    }

    pub fn from_number(value: Number) -> (r: Result<SpecifiedLength, PropertyParseError>)
        ensures
            r == SpecifiedLength::spec_from_number(value),
    {
        if value.thousandths == 0 {
            Ok(SpecifiedLength::Absolute(Length::zero()))
        } else {
            Err(PropertyParseError::UnexpectedToken)
        }
    }
}

/// What a value starts with where it is to start with a number that can
/// be read: it is an error if there is no token, and if the number is not
/// finite or has more thousandths than 32 bits hold.
pub open spec fn spec_read_bits(bits: u32) -> Result<Number, PropertyParseError> {
    match spec_from_float_bits(bits) {
        Some(number) => Ok(number),
        None => Err(PropertyParseError::UnexpectedToken),
    }
}

pub fn read_bits(bits: u32) -> (r: Result<Number, PropertyParseError>)
    ensures
        r == spec_read_bits(bits),
{
    match from_float_bits(bits) {
        Some(number) => Ok(number),
        None => Err(PropertyParseError::UnexpectedToken),
    }
}

impl Number {
    /// The number that `tokens` starts with, to the nearest thousandth. It
    /// is an error if the first token is no number without a unit.
    pub open spec fn spec_from_tokens(tokens: Seq<CssTokenView>) -> Result<
        Number,
        PropertyParseError,
    > {
        if tokens.len() == 0 {
            Err(PropertyParseError::EndOfInput)
        } else {
            match tokens[0] {
                CssTokenView::Number { bits } => spec_read_bits(bits),
                _ => Err(PropertyParseError::UnexpectedToken),
            }
        }
    }

    pub fn from_tokens(tokens: &Vec<CssToken>) -> (r: Result<Number, PropertyParseError>)
        ensures
            r == Number::spec_from_tokens(spec_token_views(tokens@)),
    {
        if tokens.len() == 0 {
            return Err(PropertyParseError::EndOfInput);
        }
        match &tokens[0] {
            CssToken::Number { bits } => read_bits(*bits),
            _ => Err(PropertyParseError::UnexpectedToken),
        }
    }

    /// Reads a number from CSS text.
    pub fn parse(css: &str) -> (r: Result<Number, PropertyParseError>)
        ensures
            r == Number::spec_from_tokens(css_tokens(css@)),
    {
        let tokens = tokenize(css);
        Number::from_tokens(&tokens)
    }
}

impl Percentage {
    /// The percentage that `tokens` starts with, to the nearest thousandth
    /// of the whole. It is an error if the first token is no percentage.
    pub open spec fn spec_from_tokens(tokens: Seq<CssTokenView>) -> Result<
        Percentage,
        PropertyParseError,
    > {
        if tokens.len() == 0 {
            Err(PropertyParseError::EndOfInput)
        } else {
            match tokens[0] {
                CssTokenView::Percentage { bits } => match spec_read_bits(bits) {
                    Ok(number) => Ok(Percentage { thousandths: number.thousandths }),
                    Err(e) => Err(e),
                },
                _ => Err(PropertyParseError::UnexpectedToken),
            }
        }
    }

    pub fn from_tokens(tokens: &Vec<CssToken>) -> (r: Result<Percentage, PropertyParseError>)
        ensures
            r == Percentage::spec_from_tokens(spec_token_views(tokens@)),
    {
        if tokens.len() == 0 {
            return Err(PropertyParseError::EndOfInput);
        }
        match &tokens[0] {
            CssToken::Percentage { bits } => match read_bits(*bits) {
                Ok(number) => Ok(Percentage { thousandths: number.thousandths }),
                Err(e) => Err(e),
            },
            _ => Err(PropertyParseError::UnexpectedToken),
        }
    }

    /// Reads a percentage from CSS text.
    pub fn parse(css: &str) -> (r: Result<Percentage, PropertyParseError>)
        ensures
            r == Percentage::spec_from_tokens(css_tokens(css@)),
    {
        let tokens = tokenize(css);
        Percentage::from_tokens(&tokens)
    }
}

impl SpecifiedLength {
    /// The length that `tokens` starts with: a number with a unit, or a
    /// zero without one.
    pub open spec fn spec_from_tokens(tokens: Seq<CssTokenView>) -> Result<
        SpecifiedLength,
        PropertyParseError,
    > {
        if tokens.len() == 0 {
            Err(PropertyParseError::EndOfInput)
        } else {
            match tokens[0] {
                CssTokenView::Dimension { bits, unit } => match spec_read_bits(bits) {
                    Ok(value) => SpecifiedLength::spec_from_dimension(value, unit),
                    Err(e) => Err(e),
                },
                CssTokenView::Number { bits } => match spec_read_bits(bits) {
                    Ok(value) => SpecifiedLength::spec_from_number(value),
                    Err(e) => Err(e),
                },
                _ => Err(PropertyParseError::UnexpectedToken),
            }
        }
    }

    pub fn from_tokens(tokens: &Vec<CssToken>) -> (r: Result<SpecifiedLength, PropertyParseError>)
        ensures
            r == SpecifiedLength::spec_from_tokens(spec_token_views(tokens@)),
    {
        if tokens.len() == 0 {
            return Err(PropertyParseError::EndOfInput);
        }
        match &tokens[0] {
            CssToken::Dimension { bits, unit } => match read_bits(*bits) {
                Ok(value) => SpecifiedLength::from_dimension(value, unit.as_str()),
                Err(e) => Err(e),
            },
            CssToken::Number { bits } => match read_bits(*bits) {
                Ok(value) => SpecifiedLength::from_number(value),
                Err(e) => Err(e),
            },
            _ => Err(PropertyParseError::UnexpectedToken),
        }
    }

    /// Reads a length from CSS text.
    pub fn parse(css: &str) -> (r: Result<SpecifiedLength, PropertyParseError>)
        ensures
            r == SpecifiedLength::spec_from_tokens(css_tokens(css@)),
    {
        let tokens = tokenize(css);
        SpecifiedLength::from_tokens(&tokens)
    }
}

/// A length or a percentage as a style sheet gives it.
#[derive(Copy, Clone, Debug, PartialEq, Eq, Structural)]
pub enum SpecifiedLengthOrPercentage {
    Length(SpecifiedLength),
    Percentage(Percentage),
}

impl SpecifiedLengthOrPercentage {
    /// The length that `tokens` starts with, or else the percentage.
    pub open spec fn spec_from_tokens(tokens: Seq<CssTokenView>) -> Result<
        SpecifiedLengthOrPercentage,
        PropertyParseError,
    > {
        match SpecifiedLength::spec_from_tokens(tokens) {
            Ok(length) => Ok(SpecifiedLengthOrPercentage::Length(length)),
            Err(_) => match Percentage::spec_from_tokens(tokens) {
                Ok(percentage) => Ok(SpecifiedLengthOrPercentage::Percentage(percentage)),
                Err(e) => Err(e),
            },
        }
    }

    /// The value that is meant where the font size is `font_size`.
    pub open spec fn spec_computed(self, font_size: Length) -> LengthOrPercentage {
        match self {
            SpecifiedLengthOrPercentage::Length(length) => LengthOrPercentage::Length(
                length.spec_computed(font_size),
            ),
            SpecifiedLengthOrPercentage::Percentage(percentage) => LengthOrPercentage::Percentage(
                percentage,
            ),
        }
    }

    pub fn from_tokens(tokens: &Vec<CssToken>) -> (r: Result<
        SpecifiedLengthOrPercentage,
        PropertyParseError,
    >)
        ensures
            r == SpecifiedLengthOrPercentage::spec_from_tokens(spec_token_views(tokens@)),
    {
        match SpecifiedLength::from_tokens(tokens) {
            Ok(length) => Ok(SpecifiedLengthOrPercentage::Length(length)),
            Err(_) => match Percentage::from_tokens(tokens) {
                Ok(percentage) => Ok(SpecifiedLengthOrPercentage::Percentage(percentage)),
                Err(e) => Err(e),
            },
        }
    }

    /// Reads a length or a percentage from CSS text.
    pub fn parse(css: &str) -> (r: Result<SpecifiedLengthOrPercentage, PropertyParseError>)
        ensures
            r == SpecifiedLengthOrPercentage::spec_from_tokens(css_tokens(css@)),
    {
        let tokens = tokenize(css);
        SpecifiedLengthOrPercentage::from_tokens(&tokens)
    }

    pub fn computed(&self, font_size: Length) -> (r: LengthOrPercentage)
        ensures
            r == self.spec_computed(font_size),
    {
        match *self {
            SpecifiedLengthOrPercentage::Length(length) => LengthOrPercentage::Length(
                Length::from_specified(&length, font_size),
            ),
            SpecifiedLengthOrPercentage::Percentage(percentage) => LengthOrPercentage::Percentage(
                percentage,
            ),
        }
    }
}

impl Length {
    pub fn from_specified(s: &SpecifiedLength, font_size: Length) -> (r: Length)
        ensures
            r == s.spec_computed(font_size),
    {
        match *s {
            SpecifiedLength::Absolute(length) => length,
            SpecifiedLength::Em(value) => font_size * value,
        }
    }
}

#[derive(Copy, Clone, Debug)]
pub enum LengthOrPercentage {
    Length(Length),
    Percentage(Percentage),
}

#[derive(Copy, Clone, Debug)]
pub enum LengthOrPercentageOrAuto {
    Length(Length),
    Percentage(Percentage),
    Auto,
}

#[derive(Copy, Clone, Debug)]
pub enum LengthOrPercentageOrNumber {
    Length(Length),
    Percentage(Percentage),
    Number(Number),
}

#[derive(Copy, Clone, Debug, PartialEq, Eq, Structural)]
pub enum LengthOrAuto {
    Length(Length),
    Auto,
}

impl LengthOrPercentage {
    /// The length itself, or the percentage taken of `reference`.
    pub open spec fn spec_percentage_relative_to(self, reference: Length) -> Length {
        match self {
            LengthOrPercentage::Length(l) => l,
            LengthOrPercentage::Percentage(p) => reference.spec_scale(p.thousandths as int),
        }
    }

    pub fn percentage_relative_to(&self, reference: Length) -> (r: Length)
        ensures
            r == self.spec_percentage_relative_to(reference),
    {
        match *self {
            LengthOrPercentage::Length(l) => l,
            LengthOrPercentage::Percentage(p) => reference * p,
        }
    }
}

impl LengthOrPercentageOrNumber {
    /// The length itself, or the percentage or the number taken of
    /// `reference`.
    pub open spec fn spec_percentage_or_number_relative_to(self, reference: Length) -> Length {
        match self {
            LengthOrPercentageOrNumber::Length(l) => l,
            LengthOrPercentageOrNumber::Percentage(p) => reference.spec_scale(p.thousandths as int),
            LengthOrPercentageOrNumber::Number(n) => reference.spec_scale(n.thousandths as int),
        }
    }

    pub fn percentage_or_number_relative_to(&self, reference: Length) -> (r: Length)
        ensures
            r == self.spec_percentage_or_number_relative_to(reference),
    {
        match *self {
            LengthOrPercentageOrNumber::Length(l) => l,
            LengthOrPercentageOrNumber::Percentage(p) => reference * p,
            LengthOrPercentageOrNumber::Number(number) => reference * number,
        }
    }
}

impl core::convert::From<LengthOrPercentage> for LengthOrPercentageOrAuto {
    fn from(value: LengthOrPercentage) -> (r: LengthOrPercentageOrAuto) {
        match value {
            LengthOrPercentage::Length(l) => LengthOrPercentageOrAuto::Length(l),
            LengthOrPercentage::Percentage(p) => LengthOrPercentageOrAuto::Percentage(p),
        }
    }
}

impl FromSpecImpl<LengthOrPercentage> for LengthOrPercentageOrAuto {
    open spec fn obeys_from_spec() -> bool {
        true
    }

    open spec fn from_spec(value: LengthOrPercentage) -> LengthOrPercentageOrAuto {
        match value {
            LengthOrPercentage::Length(l) => LengthOrPercentageOrAuto::Length(l),
            LengthOrPercentage::Percentage(p) => LengthOrPercentageOrAuto::Percentage(p),
        }
    }
}

impl LengthOrPercentageOrAuto {
    pub open spec fn spec_non_auto(self) -> Option<LengthOrPercentage> {
        match self {
            LengthOrPercentageOrAuto::Length(l) => Some(LengthOrPercentage::Length(l)),
            LengthOrPercentageOrAuto::Percentage(p) => Some(LengthOrPercentage::Percentage(p)),
            LengthOrPercentageOrAuto::Auto => None,
        }
    }

    /// `Auto` stays; anything else becomes the length that it is of
    /// `reference`.
    pub open spec fn spec_percentage_relative_to(self, reference: Length) -> LengthOrAuto {
        match self {
            LengthOrPercentageOrAuto::Length(l) => LengthOrAuto::Length(l),
            LengthOrPercentageOrAuto::Percentage(p) => LengthOrAuto::Length(
                reference.spec_scale(p.thousandths as int),
            ),
            LengthOrPercentageOrAuto::Auto => LengthOrAuto::Auto,
        }
    }

    pub fn non_auto(&self) -> (r: Option<LengthOrPercentage>)
        ensures
            r == self.spec_non_auto(),
    {
        match *self {
            LengthOrPercentageOrAuto::Length(l) => Some(LengthOrPercentage::Length(l)),
            LengthOrPercentageOrAuto::Percentage(p) => Some(LengthOrPercentage::Percentage(p)),
            LengthOrPercentageOrAuto::Auto => None,
        }
    }

    pub fn percentage_relative_to(&self, reference: Length) -> (r: LengthOrAuto)
        ensures
            r == self.spec_percentage_relative_to(reference),
    {
        match *self {
            LengthOrPercentageOrAuto::Length(l) => LengthOrAuto::Length(l),
            LengthOrPercentageOrAuto::Percentage(p) => LengthOrAuto::Length(reference * p),
            LengthOrPercentageOrAuto::Auto => LengthOrAuto::Auto,
        }
    }
}

impl LengthOrAuto {
    /// The length, or zero for `Auto`.
    pub open spec fn spec_auto_is_zero(self) -> Length {
        match self {
            LengthOrAuto::Length(l) => l,
            LengthOrAuto::Auto => Length::spec_zero(),
        }
    }

    /// The length, or what `auto_value` returns for `Auto`.
    pub fn auto_is(&self, auto_value: impl FnOnce() -> Length) -> (r: Length)
        requires
            auto_value.requires(()),
        ensures
            match *self {
                LengthOrAuto::Length(l) => r == l,
                LengthOrAuto::Auto => auto_value.ensures((), r),
            },
    {
        match *self {
            LengthOrAuto::Length(l) => l,
            LengthOrAuto::Auto => auto_value(),
        }
    }

    /// The length sent through `f`; `Auto` stays.
    pub fn map(&self, f: impl FnOnce(Length) -> Length) -> (r: LengthOrAuto)
        requires
            forall|l: Length| f.requires((l,)),
        ensures
            match *self {
                LengthOrAuto::Length(l) => r matches LengthOrAuto::Length(m) && f.ensures((l,), m),
                LengthOrAuto::Auto => r == LengthOrAuto::Auto,
            },
    {
        match *self {
            LengthOrAuto::Length(l) => LengthOrAuto::Length(f(l)),
            LengthOrAuto::Auto => LengthOrAuto::Auto,
        }
    }
}

} // verus!
