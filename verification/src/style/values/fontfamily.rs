//! Font families.

use vstd::prelude::*;

use crate::style::errors::PropertyParseError;
use crate::style::values::css_tokens;
use crate::style::values::CssToken;
use crate::style::values::CssTokenView;
use crate::style::values::eq_ignore_ascii_case;
use crate::style::values::spec_eq_ignore_ascii_case;
use crate::style::values::spec_token_views;
use crate::style::values::tokenize;

verus! {

#[derive(Clone, Debug)]
pub enum FontFamily {
    FamilyName(String),
    GenericSerif,
    GenericSans,
    GenericCursive,
    GenericFantasy,
    GenericMonospace,
}

/// A font family as a value.
pub enum FontFamilyView {
    FamilyName(Seq<char>),
    GenericSerif,
    GenericSans,
    GenericCursive,
    GenericFantasy,
    GenericMonospace,
}

impl View for FontFamily {
    type V = FontFamilyView;

    open spec fn view(&self) -> FontFamilyView {
        match self {
            FontFamily::FamilyName(name) => FontFamilyView::FamilyName(name@),
            FontFamily::GenericSerif => FontFamilyView::GenericSerif,
            FontFamily::GenericSans => FontFamilyView::GenericSans,
            FontFamily::GenericCursive => FontFamilyView::GenericCursive,
            FontFamily::GenericFantasy => FontFamilyView::GenericFantasy,
            FontFamily::GenericMonospace => FontFamilyView::GenericMonospace,
        }
    }
}

impl FontFamily {
    /// The family that the identifier `name` stands for: a generic family
    /// where it is the keyword of one, whatever the case of its letters, else
    /// the family of that name.
    pub open spec fn spec_from_ident(name: Seq<char>) -> FontFamilyView {
        if spec_eq_ignore_ascii_case(name, "sans-serif"@) {
            FontFamilyView::GenericSans
        } else if spec_eq_ignore_ascii_case(name, "serif"@) {
            FontFamilyView::GenericSerif
        } else if spec_eq_ignore_ascii_case(name, "cursive"@) {
            FontFamilyView::GenericCursive
        } else if spec_eq_ignore_ascii_case(name, "fantasy"@) {
            FontFamilyView::GenericFantasy
        } else if spec_eq_ignore_ascii_case(name, "monospace"@) {
            FontFamilyView::GenericMonospace
        } else {
            FontFamilyView::FamilyName(name)
        }
    }

    /// The family that `tokens` are: one identifier, or one quoted string,
    /// which names a family whatever it says. Anything else is an error, and so
    /// is any token after the first.
    pub open spec fn spec_from_tokens(tokens: Seq<CssTokenView>) -> Result<
        FontFamilyView,
        PropertyParseError,
    > {
        if tokens.len() == 0 {
            Err(PropertyParseError::EndOfInput)
        } else {
            match tokens[0] {
                CssTokenView::Ident(name) => if tokens.len() == 1 {
                    Ok(FontFamily::spec_from_ident(name))
                } else {
                    Err(PropertyParseError::UnexpectedToken)
                },
                CssTokenView::QuotedString(name) => if tokens.len() == 1 {
                    Ok(FontFamilyView::FamilyName(name))
                } else {
                    Err(PropertyParseError::UnexpectedToken)
                },
                _ => Err(PropertyParseError::UnexpectedToken),
            }
        }
    }

    /// Whether `result` is the outcome `expected`.
    pub open spec fn spec_is(
        result: Result<FontFamily, PropertyParseError>,
        expected: Result<FontFamilyView, PropertyParseError>,
    ) -> bool {
        match expected {
            Ok(family) => result is Ok && result->Ok_0@ == family,
            Err(e) => result is Err && result->Err_0 == e,
        }
    }

    pub fn from_tokens(tokens: &Vec<CssToken>) -> (r: Result<FontFamily, PropertyParseError>)
        ensures
            FontFamily::spec_is(r, FontFamily::spec_from_tokens(spec_token_views(tokens@))),
    {
        if tokens.len() == 0 {
            return Err(PropertyParseError::EndOfInput);
        }
        let result = match &tokens[0] {
            CssToken::Ident(s) => {
                let name = s.as_str();
                if eq_ignore_ascii_case(name, "sans-serif") {
                    Ok(FontFamily::GenericSans)
                } else if eq_ignore_ascii_case(name, "serif") {
                    Ok(FontFamily::GenericSerif)
                } else if eq_ignore_ascii_case(name, "cursive") {
                    Ok(FontFamily::GenericCursive)
                } else if eq_ignore_ascii_case(name, "fantasy") {
                    Ok(FontFamily::GenericFantasy)
                } else if eq_ignore_ascii_case(name, "monospace") {
                    Ok(FontFamily::GenericMonospace)
                } else {
                    Ok(FontFamily::FamilyName(s.clone()))
                }
            },
            CssToken::QuotedString(s) => Ok(FontFamily::FamilyName(s.clone())),
            _ => Err(PropertyParseError::UnexpectedToken),
        };
        // Nothing may follow the family.
        if tokens.len() > 1 {
            return Err(PropertyParseError::UnexpectedToken);
        }
        result
    }

    /// Reads a font family from CSS text.
    pub fn parse(css: &str) -> (r: Result<FontFamily, PropertyParseError>)
        ensures
            FontFamily::spec_is(r, FontFamily::spec_from_tokens(css_tokens(css@))),
    {
        let tokens = tokenize(css);
        FontFamily::from_tokens(&tokens)
    }
}

} // verus!
