//! Writing mode and direction, and how they lay the flow-relative axes onto
//! the physical ones.

use vstd::prelude::*;

use crate::style::errors::PropertyParseError;
use crate::style::values::css_tokens;
use crate::style::values::CssToken;
use crate::style::values::CssTokenView;
use crate::style::values::eq_ignore_ascii_case;
use crate::style::values::expect_ident;
use crate::style::values::spec_eq_ignore_ascii_case;
use crate::style::values::spec_expect_ident;
use crate::style::values::spec_token_views;
use crate::style::values::tokenize;

verus! {

#[derive(Copy, Clone, Debug, PartialEq, Eq, Structural)]
pub enum Direction {
    Ltr,
    Rtl,
}

#[derive(Copy, Clone, Debug, PartialEq, Eq, Structural)]
pub enum WritingMode {
    HorizontalTb,
    VerticalRl,
    VerticalLr,
    SidewaysRl,
    SidewaysLr,
}

/// Whether the inline axis of the mode is the physical x axis.
pub open spec fn spec_is_horizontal(mode: (WritingMode, Direction)) -> bool {
    mode.0 == WritingMode::HorizontalTb
}

/// Whether the inline axis runs with its physical axis: left to right where
/// it is horizontal, top to bottom where it is vertical.
pub open spec fn spec_inline_forward(mode: (WritingMode, Direction)) -> bool {
    if mode.0 == WritingMode::SidewaysLr {
        mode.1 == Direction::Rtl
    } else {
        mode.1 == Direction::Ltr
    }
}

/// Whether the block axis runs with its physical axis: top to bottom where
/// it is vertical, left to right where it is horizontal.
pub open spec fn spec_block_forward(mode: (WritingMode, Direction)) -> bool {
    mode.0 == WritingMode::HorizontalTb || mode.0 == WritingMode::VerticalLr || mode.0
        == WritingMode::SidewaysLr
}

#[verifier::when_used_as_spec(spec_is_horizontal)]
pub fn is_horizontal(mode: (WritingMode, Direction)) -> (r: bool)
    ensures
        r == spec_is_horizontal(mode),
{
    match mode.0 {
        WritingMode::HorizontalTb => true,
        _ => false,
    }
}

#[verifier::when_used_as_spec(spec_inline_forward)]
pub fn inline_forward(mode: (WritingMode, Direction)) -> (r: bool)
    ensures
        r == spec_inline_forward(mode),
{
    match mode {
        (WritingMode::SidewaysLr, Direction::Rtl) => true,
        (WritingMode::SidewaysLr, Direction::Ltr) => false,
        (_, Direction::Ltr) => true,
        (_, Direction::Rtl) => false,
    }
}

#[verifier::when_used_as_spec(spec_block_forward)]
pub fn block_forward(mode: (WritingMode, Direction)) -> (r: bool)
    ensures
        r == spec_block_forward(mode),
{
    match mode.0 {
        WritingMode::HorizontalTb => true,
        WritingMode::VerticalLr => true,
        WritingMode::SidewaysLr => true,
        WritingMode::VerticalRl => false,
        WritingMode::SidewaysRl => false,
    }
}

impl Direction {
    /// The value that the keyword `name` stands for, whatever the case of
    /// its letters.
    pub open spec fn spec_from_keyword(name: Seq<char>) -> Option<Direction> {
        if spec_eq_ignore_ascii_case(name, "ltr"@) {
            Some(Direction::Ltr)
        } else if spec_eq_ignore_ascii_case(name, "rtl"@) {
            Some(Direction::Rtl)
        } else {
            None
        }
    }

    /// The value that `tokens` starts with: one of the keywords `ltr` and `rtl`.
    /// What follows the keyword is not looked at.
    pub open spec fn spec_from_tokens(tokens: Seq<CssTokenView>) -> Result<
        Direction,
        PropertyParseError,
    > {
        match spec_expect_ident(tokens) {
            Ok(name) => match Direction::spec_from_keyword(name) {
                Some(value) => Ok(value),
                None => Err(PropertyParseError::UnexpectedToken),
            },
            Err(e) => Err(e),
        }
    }

    pub fn from_tokens(tokens: &Vec<CssToken>) -> (r: Result<Direction, PropertyParseError>)
        ensures
            r == Direction::spec_from_tokens(spec_token_views(tokens@)),
    {
        let name = match expect_ident(tokens) {
            Ok(name) => name,
            Err(e) => {
                return Err(e);
            },
        };
        if eq_ignore_ascii_case(name, "ltr") {
            Ok(Direction::Ltr)
        } else if eq_ignore_ascii_case(name, "rtl") {
            Ok(Direction::Rtl)
        } else {
            Err(PropertyParseError::UnexpectedToken)
        }
    }

    /// Reads the value from CSS text.
    pub fn parse(css: &str) -> (r: Result<Direction, PropertyParseError>)
        ensures
            r == Direction::spec_from_tokens(css_tokens(css@)),
    {
        let tokens = tokenize(css);
        Direction::from_tokens(&tokens)
    }
}

impl WritingMode {
    /// The value that the keyword `name` stands for, whatever the case of
    /// its letters.
    pub open spec fn spec_from_keyword(name: Seq<char>) -> Option<WritingMode> {
        if spec_eq_ignore_ascii_case(name, "horizontal-tb"@) {
            Some(WritingMode::HorizontalTb)
        } else if spec_eq_ignore_ascii_case(name, "vertical-rl"@) {
            Some(WritingMode::VerticalRl)
        } else if spec_eq_ignore_ascii_case(name, "vertical-lr"@) {
            Some(WritingMode::VerticalLr)
        } else if spec_eq_ignore_ascii_case(name, "sideways-rl"@) {
            Some(WritingMode::SidewaysRl)
        } else if spec_eq_ignore_ascii_case(name, "sideways-lr"@) {
            Some(WritingMode::SidewaysLr)
        } else {
            None
        }
    }

    /// The value that `tokens` starts with: one of the keywords `horizontal-tb`,
    /// `vertical-rl`, `vertical-lr`, `sideways-rl` and `sideways-lr`.
    /// What follows the keyword is not looked at.
    pub open spec fn spec_from_tokens(tokens: Seq<CssTokenView>) -> Result<
        WritingMode,
        PropertyParseError,
    > {
        match spec_expect_ident(tokens) {
            Ok(name) => match WritingMode::spec_from_keyword(name) {
                Some(value) => Ok(value),
                None => Err(PropertyParseError::UnexpectedToken),
            },
            Err(e) => Err(e),
        }
    }

    pub fn from_tokens(tokens: &Vec<CssToken>) -> (r: Result<WritingMode, PropertyParseError>)
        ensures
            r == WritingMode::spec_from_tokens(spec_token_views(tokens@)),
    {
        let name = match expect_ident(tokens) {
            Ok(name) => name,
            Err(e) => {
                return Err(e);
            },
        };
        if eq_ignore_ascii_case(name, "horizontal-tb") {
            Ok(WritingMode::HorizontalTb)
        } else if eq_ignore_ascii_case(name, "vertical-rl") {
            Ok(WritingMode::VerticalRl)
        } else if eq_ignore_ascii_case(name, "vertical-lr") {
            Ok(WritingMode::VerticalLr)
        } else if eq_ignore_ascii_case(name, "sideways-rl") {
            Ok(WritingMode::SidewaysRl)
        } else if eq_ignore_ascii_case(name, "sideways-lr") {
            Ok(WritingMode::SidewaysLr)
        } else {
            Err(PropertyParseError::UnexpectedToken)
        }
    }

    /// Reads the value from CSS text.
    pub fn parse(css: &str) -> (r: Result<WritingMode, PropertyParseError>)
        ensures
            r == WritingMode::spec_from_tokens(css_tokens(css@)),
    {
        let tokens = tokenize(css);
        WritingMode::from_tokens(&tokens)
    }
}

} // verus!
