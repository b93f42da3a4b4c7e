use crate::diagram::Diagram;
use crate::dot::Dot;
use crate::drawing_style::DrawingStyle;
use crate::text_path::{ArcStyle, TextPath};
use vstd::prelude::*;
use vstd::string::*;

verus! {

/// What the host application edits and renders: a style and a diagram.
#[derive(Debug, Clone)]
pub struct FullApplicationState {
    pub style: DrawingStyle,
    pub diagram: Diagram,
}

/// Whether two texts are the same characters.
pub fn str_eq(a: &str, b: &str) -> (r: bool)
    ensures
        r == (a@ == b@),
{
    let n = a.unicode_len();
    if n != b.unicode_len() {
        return false;
    }
    let mut i: usize = 0;
    while i < n
        invariant
            n == a@.len(),
            n == b@.len(),
            0 <= i <= n,
            a@.subrange(0, i as int) == b@.subrange(0, i as int),
        decreases n - i,
    {
        if a.get_char(i) != b.get_char(i) {
            return false;
        }
        assert(a@.subrange(0, i + 1) =~= a@.subrange(0, i as int).push(a@[i as int]));
        assert(b@.subrange(0, i + 1) =~= b@.subrange(0, i as int).push(b@[i as int]));
        i = i + 1;
    }
    assert(a@ =~= a@.subrange(0, n as int));
    assert(b@ =~= b@.subrange(0, n as int));
    true
}

/// `dot` with the length called `name` set to `value`; `None` for an
/// unknown name.
pub open spec fn dot_with(dot: Dot, name: Seq<char>, value: u32) -> Option<Dot> {
    if name == "circle_radius"@ {
        Some(Dot { circle_radius: value, ..dot })
    } else if name == "ring_radius"@ {
        Some(Dot { ring_radius: value, ..dot })
    } else if name == "ring_stroke_width"@ {
        Some(Dot { ring_stroke_width: value, ..dot })
    } else {
        None
    }
}

/// `style` with one length of a default dot replaced, the dot named by
/// `dot_id` and the length by `name`; `None` when either name is unknown.
pub open spec fn style_with(style: DrawingStyle, dot_id: Seq<char>, name: Seq<char>, value: u32) -> Option<
    DrawingStyle,
> {
    if dot_id == "default-one-dot"@ {
        match dot_with(style.default_one_dot_style, name, value) {
            Some(d) => Some(DrawingStyle { default_one_dot_style: d, ..style }),
            None => None,
        }
    } else if dot_id == "default-zero-dot"@ {
        match dot_with(style.default_zero_dot_style, name, value) {
            Some(d) => Some(DrawingStyle { default_zero_dot_style: d, ..style }),
            None => None,
        }
    } else {
        None
    }
}

/// Sets the length `input_name` of the default dot `dot_id` to `new_value`
/// (thousandths). Returns whether both names were known; when one is not,
/// nothing changes.
pub fn action_update_default_dot(
    state: &mut FullApplicationState,
    dot_id: &str,
    input_name: &str,
    new_value: u32,
) -> (r: bool)
    ensures
        r == style_with(old(state).style, dot_id@, input_name@, new_value) is Some,
        r ==> final(state).style == style_with(old(state).style, dot_id@, input_name@, new_value)->0,
        !r ==> final(state).style == old(state).style,
        final(state).diagram == old(state).diagram,
{
    let default_dot: &mut Dot = if str_eq(dot_id, "default-one-dot") {
        &mut state.style.default_one_dot_style
    } else if str_eq(dot_id, "default-zero-dot") {
        &mut state.style.default_zero_dot_style
    } else {
        return false;
    };
    if str_eq(input_name, "circle_radius") {
        default_dot.circle_radius = new_value;
    } else if str_eq(input_name, "ring_radius") {
        default_dot.ring_radius = new_value;
    } else if str_eq(input_name, "ring_stroke_width") {
        default_dot.ring_stroke_width = new_value;
    } else {
        return false;
    }
    true
}

/// Whether `path` draws `text` with no style of its own.
pub open spec fn plain_path(path: TextPath, text: Seq<char>) -> bool {
    &&& path.text@ == text
    &&& path.zero_dot_style is None
    &&& path.one_dot_style is None
    &&& path.arc_style is None
}

fn plain_text_path(text: &str) -> (r: TextPath)
    ensures
        plain_path(r, text@),
{
    TextPath { zero_dot_style: None, one_dot_style: None, arc_style: None, text: String::from_str(text) }
}

/// The state an application starts from: grey dots on a light background,
/// three paths spelling "hello" on full circles of radius 5.
pub fn get_initial_state() -> (r: FullApplicationState)
    ensures
        r.style.stroke_color@ == "#333333"@,
        r.style.background_color@ == "#EEEEEE"@,
        r.style.default_zero_dot_style == (Dot { circle_radius: 1000, ring_radius: 2000, ring_stroke_width: 100 }),
        r.style.default_one_dot_style == (Dot { circle_radius: 500, ring_radius: 2000, ring_stroke_width: 0 }),
        r.style.default_arc_style == (ArcStyle { radius: 5000, arc_percentage: 1000, arc_offset_percentage: 0 }),
        r.diagram.diagram_padding == 5000,
        r.diagram.paths@.len() == 3,
        plain_path(r.diagram.paths@[0], "he"@),
        plain_path(r.diagram.paths@[1], "ll"@),
        plain_path(r.diagram.paths@[2], "o"@),
{
    let style = DrawingStyle {
        stroke_color: String::from_str("#333333"),
        background_color: String::from_str("#EEEEEE"),
        default_zero_dot_style: Dot { circle_radius: 1000, ring_radius: 2000, ring_stroke_width: 100 },
        default_one_dot_style: Dot { circle_radius: 500, ring_radius: 2000, ring_stroke_width: 0 },
        default_arc_style: ArcStyle { radius: 5000, arc_percentage: 1000, arc_offset_percentage: 0 },
    };
    let mut paths: Vec<TextPath> = Vec::new();
    paths.push(plain_text_path("he"));
    paths.push(plain_text_path("ll"));
    paths.push(plain_text_path("o"));
    FullApplicationState { style, diagram: Diagram { paths, diagram_padding: 5000 } }
}

/// The texts of the first `k` paths, one per line.
pub open spec fn joined_texts(paths: Seq<TextPath>, k: nat) -> Seq<char>
    decreases k,
{
    if k == 0 {
        Seq::empty()
    } else if k == 1 {
        paths[0].text@
    } else {
        joined_texts(paths, (k - 1) as nat) + "\n"@ + paths[k - 1].text@
    }
}

/// The texts of all paths, one per line, as an editor shows them.
pub fn get_as_multiline_text(paths: &Vec<TextPath>) -> (r: String)
    ensures
        r@ == joined_texts(paths@, paths@.len()),
{
    let mut out = String::new();
    let mut i: usize = 0;
    while i < paths.len()
        invariant
            0 <= i <= paths@.len(),
            out@ == joined_texts(paths@, i as nat),
        decreases paths@.len() - i,
    {
        if i > 0 {
            out.append("\n");
        }
        out.append(paths[i].text.as_str());
        assert(out@ =~= joined_texts(paths@, (i + 1) as nat));
        i = i + 1;
    }
    out
}

} // verus!
