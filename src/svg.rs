use crate::geom::Rect;
use crate::number::{fixed, push_fixed};
use vstd::prelude::*;
use vstd::string::*;

verus! {

/// `content` wrapped in a group moved by `(x, y)`.
pub open spec fn translate_text(content: Seq<char>, x: nat, y: nat) -> Seq<char> {
    "<g transform=\"translate("@ + fixed(x) + ", "@ + fixed(y) + ")\">"@ + content + "</g>"@
}

/// `content` wrapped in a group that turns it by `angle` thousandths of a
/// degree about the origin after moving it `radius` along the x axis, which
/// sets its origin at `(radius·cos(angle), radius·sin(angle))`.
pub open spec fn polar_text(content: Seq<char>, angle: nat, radius: nat) -> Seq<char> {
    "<g transform=\"rotate("@ + fixed(angle) + ") translate("@ + fixed(radius) + ", 0)\">"@
        + content + "</g>"@
}

/// A filled rectangle element.
pub open spec fn rect_text(rect: Rect, fill: Seq<char>) -> Seq<char> {
    "<rect x=\""@ + fixed(rect.x as nat) + "\" y=\""@ + fixed(rect.y as nat) + "\" width=\""@
        + fixed(rect.width as nat) + "\" height=\""@ + fixed(rect.height as nat) + "\" fill=\""@
        + fill + "\"/>"@
}

/// Wraps an SVG fragment in a translation by `(x, y)` thousandths.
pub fn translate_svg(svg_string: &str, x: u64, y: u64) -> (r: String)
    ensures
        r@ == translate_text(svg_string@, x as nat, y as nat),
{
    let mut out = String::new();
    out.append("<g transform=\"translate(");
    push_fixed(&mut out, x as u128);
    out.append(", ");
    push_fixed(&mut out, y as u128);
    out.append(")\">");
    out.append(svg_string);
    out.append("</g>");
    assert(out@ =~= translate_text(svg_string@, x as nat, y as nat));
    out
}

/// Wraps an SVG fragment so that its origin lands at `radius` from the
/// origin, in the direction `angle` (thousandths of a degree).
pub fn polar_svg(svg_string: &str, angle: u128, radius: u32) -> (r: String)
    ensures
        r@ == polar_text(svg_string@, angle as nat, radius as nat),
{
    let mut out = String::new();
    out.append("<g transform=\"rotate(");
    push_fixed(&mut out, angle);
    out.append(") translate(");
    push_fixed(&mut out, radius as u128);
    out.append(", 0)\">");
    out.append(svg_string);
    out.append("</g>");
    assert(out@ =~= polar_text(svg_string@, angle as nat, radius as nat));
    out
}

/// A rectangle element covering `rect`, filled with `fill`.
pub fn rect_svg(rect: &Rect, fill: &str) -> (r: String)
    ensures
        r@ == rect_text(*rect, fill@),
{
    let mut out = String::new();
    out.append("<rect x=\"");
    push_fixed(&mut out, rect.x as u128);
    out.append("\" y=\"");
    push_fixed(&mut out, rect.y as u128);
    out.append("\" width=\"");
    push_fixed(&mut out, rect.width as u128);
    out.append("\" height=\"");
    push_fixed(&mut out, rect.height as u128);
    out.append("\" fill=\"");
    out.append(fill);
    out.append("\"/>");
    assert(out@ =~= rect_text(*rect, fill@));
    out
}

} // verus!
