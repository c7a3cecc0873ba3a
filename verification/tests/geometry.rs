use ugui_r_rs::color::Color;
use ugui_r_rs::point::Point;
use ugui_r_rs::rect::Rect;

#[test]
fn point_arithmetic() {
    let a = Point::new_i(3, 4);
    let b = Point::new_i(10, 20);
    assert_eq!(a.add(b), Point::new_i(13, 24));
    assert_eq!(b.sub(a), Point::new_i(7, 16));
}

#[test]
fn point_inside_is_strict() {
    let r = Rect::new(10, 10, 90, 20);
    assert!(Point::new_i(15, 15).inside(r));
    assert!(!Point::new_i(10, 15).inside(r), "the left edge is outside");
    assert!(!Point::new_i(100, 15).inside(r), "the right edge is outside");
    assert!(!Point::new_i(15, 10).inside(r));
    assert!(!Point::new_i(15, 30).inside(r));
    assert!(!Point::new_i(5, 5).inside(r));
}

#[test]
fn rect_corners_and_size() {
    let r = Rect::new(10, 20, 30, 40);
    assert_eq!(r.top_left(), Point::new_i(10, 20));
    assert_eq!(r.top_right(), Point::new_i(40, 20));
    assert_eq!(r.bottom_left(), Point::new_i(10, 60));
    assert_eq!(r.bottom_right(), Point::new_i(40, 60));
    assert_eq!(r.size(), Point::new_i(30, 40));
    assert_eq!(r.right(), 40);
    assert_eq!(r.bottom(), 60);
}

#[test]
fn rect_translation_and_inflate() {
    let r = Rect::new(10, 20, 30, 40);
    assert_eq!(r.add(Rect::new(1, 2, 99, 99)), Rect::new(11, 22, 30, 40));
    assert_eq!(r.sub(Rect::new(1, 2, 99, 99)), Rect::new(9, 18, 30, 40));
    assert_eq!(r.add_pt(Point::new_i(5, 6)), Rect::new(15, 26, 30, 40));
    assert_eq!(r.sub_pt(Point::new_i(5, 6)), Rect::new(5, 14, 30, 40));
    assert_eq!(r.inflate(2), Rect::new(8, 18, 34, 44));
}

#[test]
fn rect_intersection_includes_touching_edges() {
    let a = Rect::new(0, 0, 10, 10);
    assert!(a.intersects(Rect::new(5, 5, 10, 10)));
    assert!(a.intersects(Rect::new(10, 0, 5, 5)), "touching counts");
    assert!(!a.intersects(Rect::new(11, 0, 5, 5)));
    assert!(!a.intersects(Rect::new(0, 11, 5, 5)));
    assert!(a.intersects(Rect::new(-5, -5, 30, 30)), "containment counts");
}

#[test]
fn color_constructors() {
    assert_eq!(Color::rgb(1, 2, 3), Color { r: 1, g: 2, b: 3, a: 255 });
    assert_eq!(Color::rgba(1, 2, 3, 4), Color { r: 1, g: 2, b: 3, a: 4 });
}

#[test]
fn color_hex_parses_channel_pairs() {
    assert_eq!(Color::hex("#E1E1E1"), Color::rgb(225, 225, 225));
    assert_eq!(Color::hex("#0078D7"), Color::rgb(0, 120, 215));
    assert_eq!(Color::hex("#abcdef"), Color::rgb(171, 205, 239));
    assert_eq!(Color::hex("#000000"), Color::rgb(0, 0, 0));
    assert_eq!(Color::hex("#FFFFFF"), Color::rgb(255, 255, 255));
}
