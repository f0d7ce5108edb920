//! Colors as computed style holds them, and how they are read from CSS
//! text.

use vstd::prelude::*;

use crate::primitives::RGBA;
use crate::style::errors::PropertyParseError;

verus! {

/// A color value: the current text color, or a color of its own.
#[derive(Copy, Clone, Debug, PartialEq, Eq, Structural)]
pub enum Color {
    CurrentColor,
    RGBA(RGBA),
}

/// The color that `cssparser` reads at the start of a CSS text, if it reads
/// one there.
pub uninterp spec fn css_color(css: Seq<char>) -> Option<Color>;

/// `cssparser::Color::parse` on a parser over `css`. The contract gives
/// the color that comes out, or that none does, a name, `css_color`, and
/// claims nothing else of it: which texts are colors, and which, is for
/// `cssparser` to say.
#[verifier::external_body]
fn read_color(css: &str) -> (r: Option<Color>)
    ensures
        r == css_color(css@),
{
    let mut input = cssparser::ParserInput::new(css);
    let mut parser = cssparser::Parser::new(&mut input);
    match cssparser::Color::parse(&mut parser) {
        Ok(cssparser::Color::CurrentColor) => Some(Color::CurrentColor),
        Ok(cssparser::Color::RGBA(c)) => Some(Color::RGBA(RGBA(c.red, c.green, c.blue, c.alpha))),
        Err(_) => None,
    }
}

impl Color {
    /// What reading a color comes to, given what `cssparser` read: that
    /// color, or an error where it read none.
    pub open spec fn spec_from_read(read: Option<Color>) -> Result<Color, PropertyParseError> {
        match read {
            Some(color) => Ok(color),
            None => Err(PropertyParseError::UnexpectedToken),
        }
    }

    pub fn from_read(read: Option<Color>) -> (r: Result<Color, PropertyParseError>)
        ensures
            r == Color::spec_from_read(read),
    {
        match read {
            Some(color) => Ok(color),
            None => Err(PropertyParseError::UnexpectedToken),
        }
    }

    /// Reads a color from the start of a CSS text.
    pub fn parse(css: &str) -> (r: Result<Color, PropertyParseError>)
        ensures
            r == Color::spec_from_read(css_color(css@)),
    {
        Color::from_read(read_color(css))
    }
}

} // verus!
