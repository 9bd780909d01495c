//! A single-line textual progress bar with exact integer rounding.
//!
//! A [`Bar`] holds two boundary tokens, a glyph for completed cells, a glyph for
//! remaining cells, a width in cells, a maximum, a current value and an optional
//! trailing text. [`Bar::render`] maps that configuration to one line of text: the
//! start token, the completed cells, the remaining cells, the end token and, where
//! there is a text, a space and the text.
//!
//! The number of completed cells is the ratio `width * value / max` rounded up, so
//! that any progress shows; the remaining cells are the rest of the width. Both are
//! computed over the integers, and a count that comes out negative draws no cell.
//!
//! - [`cells`] counts the cells.
//! - [`glyphs`] appends runs of one glyph to a line.
//! - [`bar`] holds the bar, its setters and its rendering.
//! - [`laws`] states what holds of every bar.

pub mod bar;
pub mod cells;
pub mod glyphs;
pub mod laws;

pub use bar::{Bar, BarView};
