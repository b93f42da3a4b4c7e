use crate::drawing_style::DrawingStyle;
use crate::geom::{max_nat, umax};
use crate::number::{fixed, push_fixed};
use crate::svg_drawable::SvgDrawable;
use vstd::prelude::*;
use vstd::string::*;

verus! {

/// The marker drawn for one bit: a filled circle and a ring around it.
/// Lengths in thousandths.
#[derive(Debug, Clone, Copy, PartialEq, Eq, Structural)]
pub struct Dot {
    pub circle_radius: u32,
    pub ring_radius: u32,
    pub ring_stroke_width: u32,
}

/// The two circles of a dot, centred on the origin, in colour `color`.
pub open spec fn dot_text(dot: Dot, color: Seq<char>) -> Seq<char> {
    "<circle r=\""@ + fixed(dot.circle_radius as nat) + "\" fill=\""@ + color + "\" />"@
        + "<circle r=\""@ + fixed(dot.ring_radius as nat)
        + "\" fill=\"transparent\" stroke=\""@ + color + "\" stroke-width=\""@ + fixed(
        dot.ring_stroke_width as nat,
    ) + "\" />"@
}

impl Dot {
    /// How far the dot reaches from its centre: the circle, or the ring with
    /// half its stroke, whichever is larger (rounded down to a thousandth).
    pub open spec fn bounding_radius(&self) -> nat {
        max_nat(
            self.circle_radius as nat,
            self.ring_radius as nat + self.ring_stroke_width as nat / 2,
        )
    }

    pub fn get_bounding_radius(&self) -> (r: u64)
        ensures
            r == self.bounding_radius(),
    {
        let ring_radius: u64 = self.ring_radius as u64 + self.ring_stroke_width as u64 / 2;
        umax(self.circle_radius as u64, ring_radius)
    }
}

/// Growing any of a dot's three lengths never shrinks its bounding radius.
pub proof fn lemma_dot_radius_monotonic(a: Dot, b: Dot)
    requires
        a.circle_radius <= b.circle_radius,
        a.ring_radius <= b.ring_radius,
        a.ring_stroke_width <= b.ring_stroke_width,
    ensures
        a.bounding_radius() <= b.bounding_radius(),
{
    assert(a.ring_stroke_width as nat / 2 <= b.ring_stroke_width as nat / 2) by (nonlinear_arith)
        requires
            a.ring_stroke_width <= b.ring_stroke_width,
    ;
}

impl SvgDrawable for Dot {
    open spec fn svg_text(&self, style: &DrawingStyle) -> Seq<char> {
        dot_text(*self, style.stroke_color@)
    }

    fn as_svg(&self, style: &DrawingStyle) -> (r: String) {
        let color = style.stroke_color.as_str();
        let mut out = String::new();
        out.append("<circle r=\"");
        push_fixed(&mut out, self.circle_radius as u128);
        out.append("\" fill=\"");
        out.append(color);
        out.append("\" />");
        out.append("<circle r=\"");
        push_fixed(&mut out, self.ring_radius as u128);
        out.append("\" fill=\"transparent\" stroke=\"");
        out.append(color);
        out.append("\" stroke-width=\"");
        push_fixed(&mut out, self.ring_stroke_width as u128);
        out.append("\" />");
        assert(out@ =~= dot_text(*self, style.stroke_color@));
        out
    }
}

} // verus!
