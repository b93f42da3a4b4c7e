use crate::drawing_style::DrawingStyle;
use crate::geom::{max_nat, umax, Rect, Vector2};
use crate::number::{fixed, push_fixed};
use crate::svg::{rect_svg, rect_text, translate_svg, translate_text};
use crate::svg_drawable::SvgDrawable;
use crate::text_path::TextPath;
use vstd::prelude::*;
use vstd::string::*;

verus! {

/// Several paths drawn about one centre, inside a square with a margin.
#[derive(Debug, Clone)]
pub struct Diagram {
    pub paths: Vec<TextPath>,
    /// The margin on each side, in thousandths.
    pub diagram_padding: u32,
}

/// The smallest radius a diagram is given, `1.0`.
pub const MIN_RADIUS: u64 = 1000;

/// The largest of a sequence of radii, and never below `MIN_RADIUS`.
pub open spec fn max_radius(radii: Seq<nat>) -> nat
    decreases radii.len(),
{
    if radii.len() == 0 {
        MIN_RADIUS as nat
    } else {
        max_nat(max_radius(radii.drop_last()), radii.last())
    }
}

/// The bounding radius of each path, in order.
pub open spec fn path_radii(paths: Seq<TextPath>, style: &DrawingStyle) -> Seq<nat> {
    paths.map_values(|p: TextPath| p.bounding_radius(style))
}

/// The first `k` paths, each rendered and moved to `(center, center)`.
pub open spec fn paths_text(paths: Seq<TextPath>, style: &DrawingStyle, center: nat, k: nat) -> Seq<
    char,
>
    decreases k,
{
    if k == 0 {
        Seq::empty()
    } else {
        paths_text(paths, style, center, (k - 1) as nat) + translate_text(
            paths[k - 1].svg_text(style),
            center,
            center,
        )
    }
}

/// `max_radius` is at least the floor and every radius, and is the floor or
/// one of the radii.
pub proof fn lemma_max_radius(radii: Seq<nat>)
    ensures
        max_radius(radii) >= MIN_RADIUS,
        forall|i: int| 0 <= i < radii.len() ==> radii[i] <= max_radius(radii),
        max_radius(radii) == MIN_RADIUS || radii.contains(max_radius(radii)),
    decreases radii.len(),
{
    if radii.len() > 0 {
        let init = radii.drop_last();
        lemma_max_radius(init);
        assert forall|i: int| 0 <= i < radii.len() implies radii[i] <= max_radius(radii) by {
            if i < radii.len() - 1 {
                assert(radii[i] == init[i]);
            }
        }
        if max_radius(radii) != MIN_RADIUS {
            if max_radius(radii) == radii.last() {
                assert(radii[radii.len() - 1] == radii.last());
            } else {
                let j = choose|j: int| 0 <= j < init.len() && init[j] == max_radius(init);
                assert(radii[j] == init[j]);
            }
        }
    }
}

/// Two sequences of radii that hold the same values give the same maximum.
pub proof fn lemma_max_radius_same_values(a: Seq<nat>, b: Seq<nat>)
    requires
        forall|x: nat| a.contains(x) <==> b.contains(x),
    ensures
        max_radius(a) == max_radius(b),
{
    lemma_max_radius(a);
    lemma_max_radius(b);
    if max_radius(a) != MIN_RADIUS {
        let i = choose|i: int| 0 <= i < a.len() && a[i] == max_radius(a);
        assert(b.contains(a[i]));
    }
    if max_radius(b) != MIN_RADIUS {
        let i = choose|i: int| 0 <= i < b.len() && b[i] == max_radius(b);
        assert(a.contains(b[i]));
    }
}

/// Every path's bounding radius stays below 2^33 thousandths.
proof fn lemma_path_radius_bound(p: TextPath, style: &DrawingStyle)
    ensures
        p.bounding_radius(style) < 0x2_0000_0000,
{
}

proof fn lemma_radii_bound(paths: Seq<TextPath>, style: &DrawingStyle)
    ensures
        max_radius(path_radii(paths, style)) < 0x2_0000_0000,
{
    let radii = path_radii(paths, style);
    lemma_max_radius(radii);
    if max_radius(radii) != MIN_RADIUS {
        let i = choose|i: int| 0 <= i < radii.len() && radii[i] == max_radius(radii);
        lemma_path_radius_bound(paths[i], style);
    }
}

impl Diagram {
    /// The largest bounding radius of the paths, and at least `MIN_RADIUS`.
    pub open spec fn bounding_radius(&self, style: &DrawingStyle) -> nat {
        max_radius(path_radii(self.paths@, style))
    }

    /// The side of the square the diagram is drawn in.
    pub open spec fn side(&self, style: &DrawingStyle) -> nat {
        self.bounding_radius(style) + 2 * (self.diagram_padding as nat)
    }

    /// The square at the origin with side `side`.
    pub open spec fn bounding_rect(&self, style: &DrawingStyle) -> Rect {
        Rect {
            x: 0,
            y: 0,
            width: self.side(style) as u64,
            height: self.side(style) as u64,
        }
    }

    /// The square the diagram is drawn in, at the origin.
    pub fn get_bounding_rect(&self, style: &DrawingStyle) -> (r: Rect)
        ensures
            r.x == 0,
            r.y == 0,
            r.width == self.side(style),
            r.height == self.side(style),
            r == self.bounding_rect(style),
    {
        let mut radius: u64 = MIN_RADIUS;
        let mut i: usize = 0;
        while i < self.paths.len()
            invariant
                0 <= i <= self.paths@.len(),
                radius == max_radius(path_radii(self.paths@.subrange(0, i as int), style)),
            decreases self.paths@.len() - i,
        {
            let ghost before = self.paths@.subrange(0, i as int);
            radius = umax(radius, self.paths[i].get_bounding_radius(style));
            proof {
                let after = self.paths@.subrange(0, i + 1);
                assert(path_radii(after, style).drop_last() =~= path_radii(before, style));
            }
            i = i + 1;
        }
        proof {
            assert(self.paths@.subrange(0, i as int) =~= self.paths@);
            lemma_radii_bound(self.paths@, style);
        }
        let side = radius + 2 * self.diagram_padding as u64;
        Rect { x: 0, y: 0, width: side, height: side }
    }
}

/// A diagram without paths is drawn in a square of side `1.0` plus twice the
/// padding, at the origin.
pub proof fn lemma_empty_diagram_rect(diagram: Diagram, style: DrawingStyle)
    requires
        diagram.paths@.len() == 0,
    ensures
        diagram.bounding_rect(&style).x == 0,
        diagram.bounding_rect(&style).y == 0,
        diagram.side(&style) == MIN_RADIUS + 2 * diagram.diagram_padding,
        diagram.bounding_rect(&style).width == diagram.bounding_rect(&style).height,
{
    assert(path_radii(diagram.paths@, &style) =~= Seq::empty());
}

/// Diagrams with the same padding whose paths' bounding radii are the same
/// values, in whatever order, are drawn in squares of the same size.
pub proof fn lemma_path_order_keeps_rect(a: Diagram, b: Diagram, style: DrawingStyle)
    requires
        a.diagram_padding == b.diagram_padding,
        path_radii(a.paths@, &style).to_multiset() == path_radii(b.paths@, &style).to_multiset(),
    ensures
        a.bounding_rect(&style) == b.bounding_rect(&style),
{
    let ra = path_radii(a.paths@, &style);
    let rb = path_radii(b.paths@, &style);
    assert forall|x: nat| ra.contains(x) <==> rb.contains(x) by {
        ra.to_multiset_ensures();
        rb.to_multiset_ensures();
        assert(ra.contains(x) <==> ra.to_multiset().count(x) > 0);
        assert(rb.contains(x) <==> rb.to_multiset().count(x) > 0);
    }
    lemma_max_radius_same_values(ra, rb);
}

/// Rendering is a function of the diagram and the style alone: two
/// renderings of the same inputs are the same text.
pub proof fn lemma_render_deterministic(
    diagram: Diagram,
    style: DrawingStyle,
    first: Seq<char>,
    second: Seq<char>,
)
    requires
        first == diagram.svg_text(&style),
        second == diagram.svg_text(&style),
    ensures
        first == second,
{
}

impl SvgDrawable for Diagram {
    /// A root SVG element whose view box is the bounding square, holding a
    /// background rectangle and then every path moved to the square's centre.
    open spec fn svg_text(&self, style: &DrawingStyle) -> Seq<char> {
        let side = self.side(style);
        "<svg xmlns='http://www.w3.org/2000/svg' viewBox='"@ + fixed(0) + " "@ + fixed(0) + " "@
            + fixed(side) + " "@ + fixed(side) + "'>"@ + rect_text(
            self.bounding_rect(style),
            style.background_color@,
        ) + paths_text(self.paths@, style, side / 2, self.paths@.len()) + "</svg>"@
    }

    fn as_svg(&self, style: &DrawingStyle) -> (r: String) {
        let diagram_bounds = self.get_bounding_rect(style);
        let diagram_center: Vector2 = diagram_bounds.center();
        let background = rect_svg(&diagram_bounds, style.background_color.as_str());
        let mut parts = String::new();
        let mut i: usize = 0;
        while i < self.paths.len()
            invariant
                0 <= i <= self.paths@.len(),
                diagram_center.x == self.side(style) / 2,
                diagram_center.y == self.side(style) / 2,
                parts@ == paths_text(self.paths@, style, self.side(style) / 2, i as nat),
            decreases self.paths@.len() - i,
        {
            let path_svg = self.paths[i].as_svg(style);
            let moved = translate_svg(path_svg.as_str(), diagram_center.x, diagram_center.y);
            parts.append(moved.as_str());
            i = i + 1;
        }
        let mut out = String::new();
        out.append("<svg xmlns='http://www.w3.org/2000/svg' viewBox='");
        push_fixed(&mut out, diagram_bounds.x as u128);
        out.append(" ");
        push_fixed(&mut out, diagram_bounds.y as u128);
        out.append(" ");
        push_fixed(&mut out, diagram_bounds.width as u128);
        out.append(" ");
        push_fixed(&mut out, diagram_bounds.height as u128);
        out.append("'>");
        out.append(background.as_str());
        out.append(parts.as_str());
        out.append("</svg>");
        assert(out@ =~= self.svg_text(style));
        out
    }
}

} // verus!
