//! White-space handling and text alignment.

use vstd::prelude::*;

use crate::style::errors::PropertyParseError;
use crate::style::values::css_tokens;
use crate::style::values::CssToken;
use crate::style::values::CssTokenView;
use crate::style::values::eq_ignore_ascii_case;
use crate::style::values::expect_ident;
use crate::style::values::length::Percentage;
use crate::style::values::spec_eq_ignore_ascii_case;
use crate::style::values::spec_expect_ident;
use crate::style::values::spec_token_views;
use crate::style::values::tokenize;

verus! {

#[derive(Copy, Clone, Debug, PartialEq, Eq, Structural)]
pub enum WhiteSpace {
    Normal,
    Nowrap,
    Pre,
    PreWrap,
    PreLine,
    BreakSpaces,
}

#[derive(Copy, Clone, Debug, PartialEq, Eq, Structural)]
pub enum TextAlign {
    Left,
    Right,
    Center,
    Justify,
    /// Finer than the keywords: 0% is left, 50% is center, 100% is right.
    Percentage(Percentage),
}

impl WhiteSpace {
    /// Whether text of this style breaks on newline characters alone.
    pub open spec fn spec_breaks_on_newlines_only(self) -> bool {
        self == WhiteSpace::Nowrap || self == WhiteSpace::Pre
    }

    pub fn breaks_on_newlines_only(&self) -> (r: bool)
        ensures
            r == self.spec_breaks_on_newlines_only(),
    {
        match *self {
            WhiteSpace::Nowrap | WhiteSpace::Pre => true,
            _ => false,
        }
    }
}

impl TextAlign {
    /// The share of a line's free space that goes before its content, in
    /// thousandths. `Justify` aligns as `Left` does.
    pub open spec fn spec_start_share(self) -> int {
        match self {
            TextAlign::Left => 0,
            TextAlign::Right => 1000,
            TextAlign::Center => 500,
            TextAlign::Justify => 0,
            TextAlign::Percentage(p) => p.thousandths as int,
        }
    }

    pub fn start_share(&self) -> (r: i32)
        ensures
            r == self.spec_start_share(),
    {
        match *self {
            TextAlign::Left => 0,
            TextAlign::Right => 1000,
            TextAlign::Center => 500,
            TextAlign::Justify => 0,
            TextAlign::Percentage(p) => p.thousandths,
        }
    }
}

impl WhiteSpace {
    /// The value that the keyword `name` stands for, whatever the case of
    /// its letters.
    pub open spec fn spec_from_keyword(name: Seq<char>) -> Option<WhiteSpace> {
        if spec_eq_ignore_ascii_case(name, "normal"@) {
            Some(WhiteSpace::Normal)
        } else if spec_eq_ignore_ascii_case(name, "nowrap"@) {
            Some(WhiteSpace::Nowrap)
        } else if spec_eq_ignore_ascii_case(name, "pre"@) {
            Some(WhiteSpace::Pre)
        } else if spec_eq_ignore_ascii_case(name, "pre-wrap"@) {
            Some(WhiteSpace::PreWrap)
        } else if spec_eq_ignore_ascii_case(name, "pre-line"@) {
            Some(WhiteSpace::PreLine)
        } else if spec_eq_ignore_ascii_case(name, "break-spaces"@) {
            Some(WhiteSpace::BreakSpaces)
        } else {
            None
        }
    }

    /// The value that `tokens` starts with: one of the keywords `normal`, `nowrap`, `pre`,
    /// `pre-wrap`, `pre-line` and `break-spaces`.
    /// What follows the keyword is not looked at.
    pub open spec fn spec_from_tokens(tokens: Seq<CssTokenView>) -> Result<
        WhiteSpace,
        PropertyParseError,
    > {
        match spec_expect_ident(tokens) {
            Ok(name) => match WhiteSpace::spec_from_keyword(name) {
                Some(value) => Ok(value),
                None => Err(PropertyParseError::UnexpectedToken),
            },
            Err(e) => Err(e),
        }
    }

    pub fn from_tokens(tokens: &Vec<CssToken>) -> (r: Result<WhiteSpace, PropertyParseError>)
        ensures
            r == WhiteSpace::spec_from_tokens(spec_token_views(tokens@)),
    {
        let name = match expect_ident(tokens) {
            Ok(name) => name,
            Err(e) => {
                return Err(e);
            },
        };
        if eq_ignore_ascii_case(name, "normal") {
            Ok(WhiteSpace::Normal)
        } else if eq_ignore_ascii_case(name, "nowrap") {
            Ok(WhiteSpace::Nowrap)
        } else if eq_ignore_ascii_case(name, "pre") {
            Ok(WhiteSpace::Pre)
        } else if eq_ignore_ascii_case(name, "pre-wrap") {
            Ok(WhiteSpace::PreWrap)
        } else if eq_ignore_ascii_case(name, "pre-line") {
            Ok(WhiteSpace::PreLine)
        } else if eq_ignore_ascii_case(name, "break-spaces") {
            Ok(WhiteSpace::BreakSpaces)
        } else {
            Err(PropertyParseError::UnexpectedToken)
        }
    }

    /// Reads the value from CSS text.
    pub fn parse(css: &str) -> (r: Result<WhiteSpace, PropertyParseError>)
        ensures
            r == WhiteSpace::spec_from_tokens(css_tokens(css@)),
    {
        let tokens = tokenize(css);
        WhiteSpace::from_tokens(&tokens)
    }
}

} // verus!
