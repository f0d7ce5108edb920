//! Units and colors shared by layout and painting.

use vstd::prelude::*;
use core::marker::PhantomData;

use crate::style::values::length::Length;

verus! {

/// The unit of page coordinates: origin at the top-left corner, one CSS
/// pixel per step.
#[derive(Copy, Clone, Debug, PartialEq, Eq, Structural)]
pub struct CssPx;

/// A color as red, green, blue and alpha, each from 0 to 255.
#[derive(Copy, Clone, Debug, PartialEq, Eq, Structural)]
pub struct RGBA(pub u8, pub u8, pub u8, pub u8);

/// The hexadecimal digit for `n`, in lower case.
pub open spec fn spec_hex_digit(n: u8) -> Seq<char> {
    if n == 0 {
        "0"@
    } else if n == 1 {
        "1"@
    } else if n == 2 {
        "2"@
    } else if n == 3 {
        "3"@
    } else if n == 4 {
        "4"@
    } else if n == 5 {
        "5"@
    } else if n == 6 {
        "6"@
    } else if n == 7 {
        "7"@
    } else if n == 8 {
        "8"@
    } else if n == 9 {
        "9"@
    } else if n == 10 {
        "a"@
    } else if n == 11 {
        "b"@
    } else if n == 12 {
        "c"@
    } else if n == 13 {
        "d"@
    } else if n == 14 {
        "e"@
    } else {
        "f"@
    }
}

/// The two hexadecimal digits of `byte`.
pub open spec fn spec_hex_byte(byte: u8) -> Seq<char> {
    spec_hex_digit(byte / 16) + spec_hex_digit(byte % 16)
}

pub fn hex_digit(n: u8) -> (r: &'static str)
    ensures
        r@ == spec_hex_digit(n),
{
    if n == 0 {
        "0"
    } else if n == 1 {
        "1"
    } else if n == 2 {
        "2"
    } else if n == 3 {
        "3"
    } else if n == 4 {
        "4"
    } else if n == 5 {
        "5"
    } else if n == 6 {
        "6"
    } else if n == 7 {
        "7"
    } else if n == 8 {
        "8"
    } else if n == 9 {
        "9"
    } else if n == 10 {
        "a"
    } else if n == 11 {
        "b"
    } else if n == 12 {
        "c"
    } else if n == 13 {
        "d"
    } else if n == 14 {
        "e"
    } else {
        "f"
    }
}

fn push_hex_byte(text: &mut String, byte: u8)
    ensures
        final(text)@ == old(text)@ + spec_hex_byte(byte),
{
    text.append(hex_digit(byte / 16));
    text.append(hex_digit(byte % 16));
    assert(text@ =~= old(text)@ + spec_hex_byte(byte));
}

impl RGBA {
    /// The color in the notation of CSS: `#` and two hexadecimal digits
    /// each for red, green and blue, and two more for alpha unless the color is
    /// opaque.
    pub open spec fn spec_to_string(self) -> Seq<char> {
        let opaque = "#"@ + spec_hex_byte(self.0) + spec_hex_byte(self.1) + spec_hex_byte(self.2);
        if self.3 == 255 {
            opaque
        } else {
            opaque + spec_hex_byte(self.3)
        }
    }

    pub fn to_string(&self) -> (r: String)
        ensures
            r@ == self.spec_to_string(),
    {
        let mut text = String::from_str("#");
        push_hex_byte(&mut text, self.0);
        push_hex_byte(&mut text, self.1);
        push_hex_byte(&mut text, self.2);
        if self.3 != 255 {
            // not opaque: with the alpha component
            push_hex_byte(&mut text, self.3);
        }
        text
    }
}

/// A width and a height in the unit `U`.
#[derive(Debug)]
pub struct Size<U> {
    pub width: Length,
    pub height: Length,
    pub unit: PhantomData<U>,
}

impl<U> Size<U> {
    pub fn new(width: Length, height: Length) -> (r: Size<U>)
        ensures
            r.width == width,
            r.height == height,
    {
        Size { width, height, unit: PhantomData }
    }
}

} // verus!
