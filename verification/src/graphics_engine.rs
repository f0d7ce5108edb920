//! Fonts, shaped text and the render device.

pub mod font;
pub mod renderer;
pub mod shaped_segment;
