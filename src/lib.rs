//! Renders ASCII text as rings of dots: every character becomes its eight
//! bits, every bit a dot on an arc, and the arcs are composed into one SVG
//! document.
//!
//! Lengths and fractions of a turn are fixed-point integers counted in
//! thousandths, so `1500` stands for `1.5`.

pub mod bits;
pub mod number;
pub mod geom;
pub mod svg;
pub mod svg_drawable;
pub mod drawing_style;
pub mod dot;
pub mod text_path;
pub mod diagram;
pub mod state;
pub mod image;
