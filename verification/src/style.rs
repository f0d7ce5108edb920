//! Computed style: the values that layout and painting read.

pub mod errors;
pub mod properties;
pub mod values;
