use crate::dot::Dot;
use crate::text_path::ArcStyle;
use vstd::prelude::*;

verus! {

/// The defaults and colours that every path and dot falls back to.
#[derive(Debug, Clone)]
pub struct DrawingStyle {
    /// Colour of the dots, embedded verbatim in the output.
    pub stroke_color: String,
    /// Colour of the background, embedded verbatim in the output.
    pub background_color: String,
    pub default_zero_dot_style: Dot,
    pub default_one_dot_style: Dot,
    pub default_arc_style: ArcStyle,
}

} // verus!
