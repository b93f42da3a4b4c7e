use crate::bits::{text_bits, text_to_binary};
use crate::dot::Dot;
use crate::geom::{max_nat, umax};
use crate::drawing_style::DrawingStyle;
use crate::svg::{polar_svg, polar_text};
use crate::svg_drawable::SvgDrawable;
use vstd::prelude::*;
use vstd::string::*;

verus! {

/// Where a path's dots go: at `radius` from the path's origin, spread over
/// `arc_percentage` of a turn starting `arc_offset_percentage` of a turn
/// round. Radius in thousandths of a unit, fractions in thousandths of a turn.
#[derive(Debug, Clone, Copy, PartialEq, Eq, Structural)]
pub struct ArcStyle {
    pub radius: u32,
    pub arc_percentage: u32,
    pub arc_offset_percentage: u32,
}

/// One text drawn as one arc of dots, with styles of its own where given.
#[derive(Debug, Clone)]
pub struct TextPath {
    pub zero_dot_style: Option<Dot>,
    pub one_dot_style: Option<Dot>,
    pub arc_style: Option<ArcStyle>,
    pub text: String,
}

/// An override where there is one, else the default.
pub open spec fn resolve<T>(over: Option<T>, default: T) -> T {
    match over {
        Some(v) => v,
        None => default,
    }
}

/// Picks an override where there is one, else the default.
pub fn resolve_style<'a, T>(over: &'a Option<T>, default: &'a T) -> (r: &'a T)
    ensures
        *r == resolve(*over, *default),
{
    match over {
        Some(v) => v,
        None => default,
    }
}

/// The direction of dot `k` of `n` on an arc, in thousandths of a degree
/// (rounded down): the arc's offset plus `(k + 1) / n` of its range.
pub open spec fn dot_angle(arc: ArcStyle, k: nat, n: nat) -> nat {
    (360 * (arc.arc_offset_percentage * n + arc.arc_percentage * (k + 1)) / n as int) as nat
}

/// The first `k` dots of a bit sequence placed along an arc, each drawn as
/// `one` or `zero` by its bit.
pub open spec fn dots_text(
    bits: Seq<bool>,
    zero: Seq<char>,
    one: Seq<char>,
    arc: ArcStyle,
    k: nat,
) -> Seq<char>
    decreases k,
{
    if k == 0 {
        Seq::empty()
    } else {
        dots_text(bits, zero, one, arc, (k - 1) as nat) + polar_text(
            if bits[k - 1] {
                one
            } else {
                zero
            },
            dot_angle(arc, (k - 1) as nat, bits.len()),
            arc.radius as nat,
        )
    }
}

fn arc_dot_angle(arc: &ArcStyle, k: usize, n: usize) -> (r: u128)
    requires
        k < n,
    ensures
        r == dot_angle(*arc, k as nat, n as nat),
{
    let off = arc.arc_offset_percentage as u128;
    let pct = arc.arc_percentage as u128;
    let count = n as u128;
    let step = k as u128 + 1;
    proof {
        assert(off * count <= 0x1_0000_0000u128 * 0x1_0000_0000_0000_0000u128) by (nonlinear_arith)
            requires
                off < 0x1_0000_0000u128,
                count < 0x1_0000_0000_0000_0000u128,
        ;
        assert(pct * step <= 0x1_0000_0000u128 * 0x1_0000_0000_0000_0000u128) by (nonlinear_arith)
            requires
                pct < 0x1_0000_0000u128,
                step <= 0x1_0000_0000_0000_0000u128,
        ;
    }
    let turns = off * count + pct * step;
    360 * turns / count
}

impl TextPath {
    pub open spec fn spec_arc_style(&self, style: &DrawingStyle) -> ArcStyle {
        resolve(self.arc_style, style.default_arc_style)
    }

    pub open spec fn spec_zero_dot_style(&self, style: &DrawingStyle) -> Dot {
        resolve(self.zero_dot_style, style.default_zero_dot_style)
    }

    pub open spec fn spec_one_dot_style(&self, style: &DrawingStyle) -> Dot {
        resolve(self.one_dot_style, style.default_one_dot_style)
    }

    /// The arc's radius plus half the larger of the two dots' bounding radii.
    pub open spec fn bounding_radius(&self, style: &DrawingStyle) -> nat {
        self.spec_arc_style(style).radius as nat + max_nat(
            self.spec_one_dot_style(style).bounding_radius(),
            self.spec_zero_dot_style(style).bounding_radius(),
        ) / 2
    }

    /// The arc this path is drawn on.
    pub fn get_arc_style<'a>(&'a self, style: &'a DrawingStyle) -> (r: &'a ArcStyle)
        ensures
            *r == self.spec_arc_style(style),
    {
        resolve_style(&self.arc_style, &style.default_arc_style)
    }

    /// The dot drawn for a zero bit.
    pub fn get_zero_dot_style<'a>(&'a self, style: &'a DrawingStyle) -> (r: &'a Dot)
        ensures
            *r == self.spec_zero_dot_style(style),
    {
        resolve_style(&self.zero_dot_style, &style.default_zero_dot_style)
    }

    /// The dot drawn for a one bit.
    pub fn get_one_dot_style<'a>(&'a self, style: &'a DrawingStyle) -> (r: &'a Dot)
        ensures
            *r == self.spec_one_dot_style(style),
    {
        resolve_style(&self.one_dot_style, &style.default_one_dot_style)
    }

    pub fn get_bounding_radius(&self, style: &DrawingStyle) -> (r: u64)
        ensures
            r == self.bounding_radius(style),
    {
        let arc_style = self.get_arc_style(style);
        let one = self.get_one_dot_style(style).get_bounding_radius();
        let zero = self.get_zero_dot_style(style).get_bounding_radius();
        arc_style.radius as u64 + umax(one, zero) / 2
    }
}

/// A path without overrides is drawn entirely with the style's defaults.
pub proof fn lemma_defaults_without_overrides(path: TextPath, style: DrawingStyle)
    requires
        path.zero_dot_style is None,
        path.one_dot_style is None,
        path.arc_style is None,
    ensures
        path.spec_zero_dot_style(&style) == style.default_zero_dot_style,
        path.spec_one_dot_style(&style) == style.default_one_dot_style,
        path.spec_arc_style(&style) == style.default_arc_style,
{
}

impl SvgDrawable for TextPath {
    /// The dots of the path's bits placed along its arc, around the origin;
    /// nothing when the text is not ASCII.
    open spec fn svg_text(&self, style: &DrawingStyle) -> Seq<char> {
        match text_bits(self.text@) {
            Some(bits) => dots_text(
                bits,
                self.spec_zero_dot_style(style).svg_text(style),
                self.spec_one_dot_style(style).svg_text(style),
                self.spec_arc_style(style),
                bits.len(),
            ),
            None => Seq::empty(),
        }
    }

    fn as_svg(&self, style: &DrawingStyle) -> (r: String) {
        let text_binary = match text_to_binary(self.text.as_str()) {
            Some(bits) => bits,
            None => Vec::new(),
        };
        let zero_dot_string = self.get_zero_dot_style(style).as_svg(style);
        let one_dot_string = self.get_one_dot_style(style).as_svg(style);
        let arc_style = self.get_arc_style(style);
        let num_dots = text_binary.len();
        let ghost zero = self.spec_zero_dot_style(style).svg_text(style);
        let ghost one = self.spec_one_dot_style(style).svg_text(style);
        let mut out = String::new();
        let mut index: usize = 0;
        while index < num_dots
            invariant
                num_dots == text_binary@.len(),
                0 <= index <= num_dots,
                zero_dot_string@ == zero,
                one_dot_string@ == one,
                out@ == dots_text(text_binary@, zero, one, *arc_style, index as nat),
            decreases num_dots - index,
        {
            let dot: &str = if text_binary[index] {
                one_dot_string.as_str()
            } else {
                zero_dot_string.as_str()
            };
            let angle = arc_dot_angle(arc_style, index, num_dots);
            let moved_dot = polar_svg(dot, angle, arc_style.radius);
            out.append(moved_dot.as_str());
            index = index + 1;
        }
        out
    }
}

} // verus!
