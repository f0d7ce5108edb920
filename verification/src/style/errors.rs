//! What can go wrong when a value is read from CSS text.

use vstd::prelude::*;

verus! {

#[derive(Copy, Clone, Debug, PartialEq, Eq, Structural)]
pub enum PropertyParseError {
    /// The text ended where a value was expected.
    EndOfInput,
    /// The text holds a token that the value cannot start with, or one
    /// after the value.
    UnexpectedToken,
    /// A number has a unit that is not known.
    UnknownUnit,
}

} // verus!
