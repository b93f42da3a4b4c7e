use dot_ring::diagram::Diagram;
use dot_ring::dot::Dot;
use dot_ring::drawing_style::DrawingStyle;
use dot_ring::image::{image_source_from_base64, svg_image_source};
use dot_ring::state::{action_update_default_dot, get_as_multiline_text, get_initial_state};
use dot_ring::svg_drawable::SvgDrawable;
use dot_ring::text_path::{ArcStyle, TextPath};

const ZERO_DOT: &str = "<circle r=\"1.000\" fill=\"#333333\" /><circle r=\"2.000\" fill=\"transparent\" stroke=\"#333333\" stroke-width=\"0.100\" />";
const ONE_DOT: &str = "<circle r=\"0.500\" fill=\"#333333\" /><circle r=\"2.000\" fill=\"transparent\" stroke=\"#333333\" stroke-width=\"0.000\" />";

fn style() -> DrawingStyle {
    DrawingStyle {
        stroke_color: "#333333".to_string(),
        background_color: "#EEEEEE".to_string(),
        default_zero_dot_style: Dot { circle_radius: 1000, ring_radius: 2000, ring_stroke_width: 100 },
        default_one_dot_style: Dot { circle_radius: 500, ring_radius: 2000, ring_stroke_width: 0 },
        default_arc_style: ArcStyle { radius: 5000, arc_percentage: 1000, arc_offset_percentage: 0 },
    }
}

fn plain(text: &str) -> TextPath {
    TextPath { zero_dot_style: None, one_dot_style: None, arc_style: None, text: text.to_string() }
}

#[test]
fn dot_svg_is_circle_and_ring() {
    let s = style();
    assert_eq!(s.default_zero_dot_style.as_svg(&s), ZERO_DOT);
    assert_eq!(s.default_one_dot_style.as_svg(&s), ONE_DOT);
}

#[test]
fn path_without_overrides_uses_defaults() {
    let s = style();
    let p = plain("x");
    assert_eq!(*p.get_zero_dot_style(&s), s.default_zero_dot_style);
    assert_eq!(*p.get_one_dot_style(&s), s.default_one_dot_style);
    assert_eq!(*p.get_arc_style(&s), s.default_arc_style);
}

#[test]
fn path_overrides_win() {
    let s = style();
    let own_dot = Dot { circle_radius: 7000, ring_radius: 0, ring_stroke_width: 0 };
    let own_arc = ArcStyle { radius: 9000, arc_percentage: 500, arc_offset_percentage: 250 };
    let p = TextPath {
        zero_dot_style: Some(own_dot),
        one_dot_style: None,
        arc_style: Some(own_arc),
        text: "x".to_string(),
    };
    assert_eq!(*p.get_zero_dot_style(&s), own_dot);
    assert_eq!(*p.get_one_dot_style(&s), s.default_one_dot_style);
    assert_eq!(*p.get_arc_style(&s), own_arc);
    // 9.0 + max(2.0, 7.0) / 2
    assert_eq!(p.get_bounding_radius(&s), 12500);
}

#[test]
fn path_bounding_radius_from_defaults() {
    let s = style();
    // 5.0 + max(2.0, 2.05) / 2
    assert_eq!(plain("he").get_bounding_radius(&s), 6025);
    // the text does not matter, even when it is not ASCII
    assert_eq!(plain("é").get_bounding_radius(&s), 6025);
    assert_eq!(plain("").get_bounding_radius(&s), 6025);
}

#[test]
fn letter_a_path_places_eight_dots() {
    let s = style();
    let mut expected = String::new();
    let bits = [true, false, false, false, false, false, true, false];
    for k in 0..8 {
        let dot = if bits[k] { ONE_DOT } else { ZERO_DOT };
        expected.push_str(&format!(
            "<g transform=\"rotate({}.000) translate(5.000, 0)\">{}</g>",
            45 * (k + 1),
            dot
        ));
    }
    assert_eq!(plain("A").as_svg(&s), expected);
}

#[test]
fn path_angles_with_offset_and_partial_arc() {
    let s = style();
    let p = TextPath {
        zero_dot_style: None,
        one_dot_style: None,
        arc_style: Some(ArcStyle { radius: 1000, arc_percentage: 500, arc_offset_percentage: 250 }),
        text: "A".to_string(),
    };
    let out = p.as_svg(&s);
    // offset 90 degrees, half a turn over eight dots: 22.5 degrees each
    assert!(out.starts_with("<g transform=\"rotate(112.500) translate(1.000, 0)\">"));
    assert!(out.contains("rotate(270.000)"));
    assert_eq!(out.matches("<g ").count(), 8);
}

#[test]
fn non_ascii_path_renders_nothing() {
    let s = style();
    assert_eq!(plain("aé").as_svg(&s), "");
    assert_eq!(plain("").as_svg(&s), "");
}

#[test]
fn empty_diagram_is_unit_square_plus_padding() {
    let s = style();
    let d = Diagram { paths: vec![], diagram_padding: 5000 };
    let r = d.get_bounding_rect(&s);
    assert_eq!((r.x, r.y, r.width, r.height), (0, 0, 11000, 11000));
    let no_padding = Diagram { paths: vec![], diagram_padding: 0 };
    let r = no_padding.get_bounding_rect(&s);
    assert_eq!((r.width, r.height), (1000, 1000));
    assert_eq!(
        d.as_svg(&s),
        "<svg xmlns='http://www.w3.org/2000/svg' viewBox='0.000 0.000 11.000 11.000'><rect x=\"0.000\" y=\"0.000\" width=\"11.000\" height=\"11.000\" fill=\"#EEEEEE\"/></svg>"
    );
}

#[test]
fn one_path_of_radius_four_point_two() {
    let s = style();
    let p = TextPath {
        zero_dot_style: Some(Dot { circle_radius: 400, ring_radius: 0, ring_stroke_width: 0 }),
        one_dot_style: Some(Dot { circle_radius: 400, ring_radius: 0, ring_stroke_width: 0 }),
        arc_style: Some(ArcStyle { radius: 4000, arc_percentage: 1000, arc_offset_percentage: 0 }),
        text: "hi".to_string(),
    };
    assert_eq!(p.get_bounding_radius(&s), 4200);
    let d = Diagram { paths: vec![p], diagram_padding: 5000 };
    let r = d.get_bounding_rect(&s);
    assert_eq!((r.x, r.y, r.width, r.height), (0, 0, 14200, 14200));
}

#[test]
fn diagram_centres_every_path() {
    let s = style();
    let d = Diagram { paths: vec![plain("A"), plain("é")], diagram_padding: 1000 };
    // 6.025 + 2 * 1.0
    let side = 8025;
    let r = d.get_bounding_rect(&s);
    assert_eq!((r.width, r.height), (side, side));
    let mut expected = String::from(
        "<svg xmlns='http://www.w3.org/2000/svg' viewBox='0.000 0.000 8.025 8.025'><rect x=\"0.000\" y=\"0.000\" width=\"8.025\" height=\"8.025\" fill=\"#EEEEEE\"/>",
    );
    expected.push_str(&format!(
        "<g transform=\"translate(4.012, 4.012)\">{}</g>",
        plain("A").as_svg(&s)
    ));
    expected.push_str("<g transform=\"translate(4.012, 4.012)\"></g>");
    expected.push_str("</svg>");
    assert_eq!(d.as_svg(&s), expected);
}

#[test]
fn rendering_twice_gives_same_text() {
    let state = get_initial_state();
    let first = state.diagram.as_svg(&state.style);
    let second = state.diagram.as_svg(&state.style);
    assert_eq!(first, second);
    assert!(first.starts_with("<svg "));
}

#[test]
fn path_order_keeps_bounding_rect() {
    let s = style();
    let wide = TextPath {
        zero_dot_style: None,
        one_dot_style: None,
        arc_style: Some(ArcStyle { radius: 9000, arc_percentage: 1000, arc_offset_percentage: 0 }),
        text: "ab".to_string(),
    };
    let forward = Diagram { paths: vec![plain("he"), wide.clone(), plain("o")], diagram_padding: 500 };
    let backward = Diagram { paths: vec![plain("o"), wide, plain("he")], diagram_padding: 500 };
    let a = forward.get_bounding_rect(&s);
    let b = backward.get_bounding_rect(&s);
    assert_eq!((a.width, a.height), (b.width, b.height));
    // 9.0 + 2.05 / 2 + 2 * 0.5
    assert_eq!(a.width, 11025);
}

#[test]
fn initial_state_values() {
    let state = get_initial_state();
    assert_eq!(state.style.stroke_color, "#333333");
    assert_eq!(state.style.background_color, "#EEEEEE");
    assert_eq!(state.style.default_zero_dot_style, style().default_zero_dot_style);
    assert_eq!(state.style.default_one_dot_style, style().default_one_dot_style);
    assert_eq!(state.style.default_arc_style, style().default_arc_style);
    assert_eq!(state.diagram.diagram_padding, 5000);
    let texts: Vec<&str> = state.diagram.paths.iter().map(|p| p.text.as_str()).collect();
    assert_eq!(texts, vec!["he", "ll", "o"]);
    assert!(state.diagram.paths.iter().all(|p| p.arc_style.is_none()
        && p.zero_dot_style.is_none()
        && p.one_dot_style.is_none()));
}

#[test]
fn update_default_dot_fields() {
    let mut state = get_initial_state();
    assert!(action_update_default_dot(&mut state, "default-one-dot", "circle_radius", 1500));
    assert_eq!(state.style.default_one_dot_style.circle_radius, 1500);
    assert!(action_update_default_dot(&mut state, "default-zero-dot", "ring_radius", 3000));
    assert_eq!(state.style.default_zero_dot_style.ring_radius, 3000);
    assert!(action_update_default_dot(&mut state, "default-zero-dot", "ring_stroke_width", 200));
    assert_eq!(state.style.default_zero_dot_style.ring_stroke_width, 200);
    assert_eq!(state.style.default_zero_dot_style.circle_radius, 1000);
}

#[test]
fn update_default_dot_rejects_unknown_names() {
    let mut state = get_initial_state();
    assert!(!action_update_default_dot(&mut state, "some-dot", "circle_radius", 1500));
    assert!(!action_update_default_dot(&mut state, "default-one-dot", "radius", 1500));
    assert!(!action_update_default_dot(&mut state, "default-one-do", "circle_radius", 1500));
    assert_eq!(state.style.default_one_dot_style, style().default_one_dot_style);
    assert_eq!(state.style.default_zero_dot_style, style().default_zero_dot_style);
}

#[test]
fn image_source_is_base64_data_url() {
    assert_eq!(svg_image_source("<svg/>"), "data:image/svg+xml;base64,PHN2Zy8+");
    assert_eq!(svg_image_source(""), "data:image/svg+xml;base64,");
    assert_eq!(image_source_from_base64("QQ=="), "data:image/svg+xml;base64,QQ==");
}

#[test]
fn path_texts_one_per_line() {
    let state = get_initial_state();
    assert_eq!(get_as_multiline_text(&state.diagram.paths), "he\nll\no");
    assert_eq!(get_as_multiline_text(&vec![]), "");
    assert_eq!(get_as_multiline_text(&vec![plain("x")]), "x");
}
