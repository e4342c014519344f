use rtplot::{normalize_coord, normalize_points, Point2D, Ratio, Vertex};

fn ratio_less(a: &Ratio, b: &Ratio) -> bool {
    (a.num as i128) * (b.den as i128) < (b.num as i128) * (a.den as i128)
}

#[test]
fn endpoints_map_to_clip_bounds() {
    let lo = normalize_coord(0, 0, 10);
    let hi = normalize_coord(10, 0, 10);
    assert!(lo.same_value(-3, 4));
    assert!(hi.same_value(3, 4));
}

#[test]
fn midpoint_maps_to_center() {
    let mid = normalize_coord(5, 0, 10);
    assert!(mid.same_value(0, 1));
    assert!(!mid.same_value(1, 4));
}

#[test]
fn normalization_is_strictly_monotonic() {
    let mut prev = normalize_coord(-20, -20, 15);
    for v in -19..=15 {
        let cur = normalize_coord(v, -20, 15);
        assert!(ratio_less(&prev, &cur));
        prev = cur;
    }
}

#[test]
fn degenerate_range_output_is_finite() {
    for v in [-100, -1, 0, 5, 100] {
        let r = normalize_coord(v, 5, 5);
        assert_eq!(r.den, 4);
        assert_eq!(r.num, 6 * (v as i64) - 3);
    }
}

#[test]
fn culling_drops_points_outside_window() {
    let pts = [
        Point2D::new(-1, 0),
        Point2D::new(5, 5),
        Point2D::new(11, 0),
    ];
    let out = normalize_points(&pts, 0, 10, 0, 5, [0, 0, 0]);
    assert_eq!(out.len(), 1);
    assert!(out[0].x.same_value(0, 1));
    assert!(out[0].y.same_value(3, 4));
}

#[test]
fn culling_preserves_order_of_survivors() {
    let pts = [
        Point2D::new(2, 0),
        Point2D::new(50, 50),
        Point2D::new(8, 10),
    ];
    let out = normalize_points(&pts, 0, 10, 0, 10, [9, 9, 9]);
    assert_eq!(out.len(), 2);
    assert!(ratio_less(&out[0].x, &out[1].x));
    assert!(ratio_less(&out[0].y, &out[1].y));
    assert_eq!(out[0].rgb, [9, 9, 9]);
}

#[test]
fn inverted_fixed_window_culls_everything() {
    let pts = [Point2D::new(0, 0), Point2D::new(5, 5)];
    let out = normalize_points(&pts, 10, 0, 0, 10, [0, 0, 0]);
    assert_eq!(out, Vec::<Vertex>::new());
}

#[test]
fn normalized_frame_is_exact() {
    let pts = [Point2D::new(0, 0), Point2D::new(10, 10)];
    let out = normalize_points(&pts, 0, 10, 0, 10, [1, 2, 3]);
    assert_eq!(out.len(), 2);
    assert_eq!(out[0].x, Ratio { num: -30, den: 40 });
    assert_eq!(out[0].y, Ratio { num: -30, den: 40 });
    assert_eq!(out[1].x, Ratio { num: 30, den: 40 });
    assert_eq!(out[1].y, Ratio { num: 30, den: 40 });
}
