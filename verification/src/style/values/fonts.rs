//! Font style, weight and size.

use vstd::prelude::*;

use crate::style::errors::PropertyParseError;
use crate::style::values::css_tokens;
use crate::style::values::CssToken;
use crate::style::values::CssTokenView;
use crate::style::values::eq_ignore_ascii_case;
use crate::style::values::expect_ident;
use crate::style::values::length::Length;
use crate::style::values::spec_eq_ignore_ascii_case;
use crate::style::values::spec_expect_ident;
use crate::style::values::spec_token_views;
use crate::style::values::tokenize;

verus! {

#[derive(Copy, Clone, Debug, PartialEq, Eq, Structural)]
pub enum FontStyle {
    Normal,
    Italic,
    Oblique,
}

#[derive(Copy, Clone, Debug, PartialEq, Eq, Structural)]
pub enum FontWeight {
    Normal,
    Bold,
}

#[derive(Copy, Clone, Debug, PartialEq, Eq, Structural)]
pub struct FontSize(pub Length);

impl FontStyle {
    /// The value that the keyword `name` stands for, whatever the case of
    /// its letters.
    pub open spec fn spec_from_keyword(name: Seq<char>) -> Option<FontStyle> {
        if spec_eq_ignore_ascii_case(name, "normal"@) {
            Some(FontStyle::Normal)
        } else if spec_eq_ignore_ascii_case(name, "italic"@) {
            Some(FontStyle::Italic)
        } else if spec_eq_ignore_ascii_case(name, "oblique"@) {
            Some(FontStyle::Oblique)
        } else {
            None
        }
    }

    /// The value that `tokens` starts with: one of the keywords `normal`, `italic` and
    /// `oblique`.
    /// What follows the keyword is not looked at.
    pub open spec fn spec_from_tokens(tokens: Seq<CssTokenView>) -> Result<
        FontStyle,
        PropertyParseError,
    > {
        match spec_expect_ident(tokens) {
            Ok(name) => match FontStyle::spec_from_keyword(name) {
                Some(value) => Ok(value),
                None => Err(PropertyParseError::UnexpectedToken),
            },
            Err(e) => Err(e),
        }
    }

    pub fn from_tokens(tokens: &Vec<CssToken>) -> (r: Result<FontStyle, PropertyParseError>)
        ensures
            r == FontStyle::spec_from_tokens(spec_token_views(tokens@)),
    {
        let name = match expect_ident(tokens) {
            Ok(name) => name,
            Err(e) => {
                return Err(e);
            },
        };
        if eq_ignore_ascii_case(name, "normal") {
            Ok(FontStyle::Normal)
        } else if eq_ignore_ascii_case(name, "italic") {
            Ok(FontStyle::Italic)
        } else if eq_ignore_ascii_case(name, "oblique") {
            Ok(FontStyle::Oblique)
        } else {
            Err(PropertyParseError::UnexpectedToken)
        }
    }

    /// Reads the value from CSS text.
    pub fn parse(css: &str) -> (r: Result<FontStyle, PropertyParseError>)
        ensures
            r == FontStyle::spec_from_tokens(css_tokens(css@)),
    {
        let tokens = tokenize(css);
        FontStyle::from_tokens(&tokens)
    }
}

impl FontWeight {
    /// The value that the keyword `name` stands for, whatever the case of
    /// its letters.
    pub open spec fn spec_from_keyword(name: Seq<char>) -> Option<FontWeight> {
        if spec_eq_ignore_ascii_case(name, "normal"@) {
            Some(FontWeight::Normal)
        } else if spec_eq_ignore_ascii_case(name, "bold"@) {
            Some(FontWeight::Bold)
        } else {
            None
        }
    }

    /// The value that `tokens` starts with: one of the keywords `normal` and `bold`.
    /// What follows the keyword is not looked at.
    pub open spec fn spec_from_tokens(tokens: Seq<CssTokenView>) -> Result<
        FontWeight,
        PropertyParseError,
    > {
        match spec_expect_ident(tokens) {
            Ok(name) => match FontWeight::spec_from_keyword(name) {
                Some(value) => Ok(value),
                None => Err(PropertyParseError::UnexpectedToken),
            },
            Err(e) => Err(e),
        }
    }

    pub fn from_tokens(tokens: &Vec<CssToken>) -> (r: Result<FontWeight, PropertyParseError>)
        ensures
            r == FontWeight::spec_from_tokens(spec_token_views(tokens@)),
    {
        let name = match expect_ident(tokens) {
            Ok(name) => name,
            Err(e) => {
                return Err(e);
            },
        };
        if eq_ignore_ascii_case(name, "normal") {
            Ok(FontWeight::Normal)
        } else if eq_ignore_ascii_case(name, "bold") {
            Ok(FontWeight::Bold)
        } else {
            Err(PropertyParseError::UnexpectedToken)
        }
    }

    /// Reads the value from CSS text.
    pub fn parse(css: &str) -> (r: Result<FontWeight, PropertyParseError>)
        ensures
            r == FontWeight::spec_from_tokens(css_tokens(css@)),
    {
        let tokens = tokenize(css);
        FontWeight::from_tokens(&tokens)
    }
}

} // verus!
