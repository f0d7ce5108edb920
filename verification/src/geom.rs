//! Geometry primitives: flow-relative and physical vectors, rectangles and
//! side offsets, and the conversions between the two coordinate systems.

pub mod flow_relative;
pub mod physical;
