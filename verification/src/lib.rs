//! A headless CSS inline layout engine: styled inline-level boxes go in,
//! positioned fragments and draw calls come out.
//!
//! - `style` holds the computed values that layout and painting read, and
//!   reads the simple ones from CSS text.
//! - `geom` holds flow-relative and physical geometry and the conversions
//!   between them.
//! - `graphics_engine` holds fonts, shaped text, graphics contexts and a
//!   render device that records the calls made on it.
//! - `layout` lays inline-level boxes out into lines of fragments;
//!   `layout2` sets words, spaces and line breaks in one row.
//! - `paint` turns fragments into draw calls in physical coordinates.
//!
//! Lengths are whole numbers of sixty-fourths of a CSS pixel, and their
//! arithmetic saturates, so that no function here panics on any input that
//! its contract admits.

pub mod primitives;
pub mod style;
pub mod geom;
pub mod utils;
pub mod graphics_engine;
pub mod layout;
pub mod layout2;
pub mod dom;
pub mod paint;
pub mod markdown;
