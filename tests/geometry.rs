use dot_ring::dot::Dot;
use dot_ring::geom::Rect;
use dot_ring::svg::{polar_svg, rect_svg, translate_svg};

#[test]
fn rect_center_is_half_way() {
    let r = Rect { x: 1000, y: 2000, width: 4000, height: 6000 };
    let c = r.center();
    assert_eq!((c.x, c.y), (3000, 5000));
}

#[test]
fn translate_wraps_content() {
    assert_eq!(
        translate_svg("<x/>", 7100, 250),
        "<g transform=\"translate(7.100, 0.250)\"><x/></g>"
    );
}

#[test]
fn polar_wraps_content() {
    assert_eq!(
        polar_svg("<x/>", 45000, 5000),
        "<g transform=\"rotate(45.000) translate(5.000, 0)\"><x/></g>"
    );
}

#[test]
fn rect_element() {
    let r = Rect { x: 0, y: 0, width: 14200, height: 14200 };
    assert_eq!(
        rect_svg(&r, "#EEEEEE"),
        "<rect x=\"0.000\" y=\"0.000\" width=\"14.200\" height=\"14.200\" fill=\"#EEEEEE\"/>"
    );
}

#[test]
fn dot_bounding_radius_ring_wins() {
    let d = Dot { circle_radius: 1000, ring_radius: 2000, ring_stroke_width: 100 };
    assert_eq!(d.get_bounding_radius(), 2050);
}

#[test]
fn dot_bounding_radius_circle_wins() {
    let d = Dot { circle_radius: 3000, ring_radius: 2000, ring_stroke_width: 100 };
    assert_eq!(d.get_bounding_radius(), 3000);
}

#[test]
fn dot_bounding_radius_grows_with_each_field() {
    let base = Dot { circle_radius: 1000, ring_radius: 1000, ring_stroke_width: 1000 };
    let r = base.get_bounding_radius();
    assert_eq!(r, 1500);
    let bigger_circle = Dot { circle_radius: 2000, ..base };
    let bigger_ring = Dot { ring_radius: 1200, ..base };
    let bigger_stroke = Dot { ring_stroke_width: 1400, ..base };
    assert!(bigger_circle.get_bounding_radius() >= r);
    assert!(bigger_ring.get_bounding_radius() >= r);
    assert!(bigger_stroke.get_bounding_radius() >= r);
    assert_eq!(bigger_circle.get_bounding_radius(), 2000);
    assert_eq!(bigger_ring.get_bounding_radius(), 1700);
    assert_eq!(bigger_stroke.get_bounding_radius(), 1700);
}
