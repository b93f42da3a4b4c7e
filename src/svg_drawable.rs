use crate::drawing_style::DrawingStyle;
use vstd::prelude::*;

verus! {

/// Something that renders itself as an SVG fragment under a drawing style.
pub trait SvgDrawable {
    /// The fragment that `as_svg` produces.
    spec fn svg_text(&self, style: &DrawingStyle) -> Seq<char>;

    fn as_svg(&self, style: &DrawingStyle) -> (r: String)
        ensures
            r@ == self.svg_text(style),
    ;
}

} // verus!
