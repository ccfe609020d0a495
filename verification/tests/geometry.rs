use wayland_compositor_thing::geometry::{
    round_to_units, sat_add, sat_sub, saturate, slide, trunc_to_units, FixedPoint, Point,
    Rectangle, Size,
};

fn rect(x: i32, y: i32, w: i32, h: i32) -> Rectangle {
    Rectangle::new(Point::new(x, y), Size::new(w, h))
}

#[test]
fn merge_is_the_bounding_box() {
    let a = rect(10, 0, 5, 5);
    let b = rect(-3, 2, 5, 5);
    assert_eq!(a.merge(&b), rect(-3, 0, 18, 7));
    assert_eq!(b.merge(&a), rect(-3, 0, 18, 7));
}

#[test]
fn merge_saturates_at_the_ends_of_the_range() {
    let a = rect(i32::MIN, 0, 10, 10);
    let b = rect(i32::MAX - 5, 0, 10, 10);
    let m = a.merge(&b);
    assert_eq!(m.loc, Point::new(i32::MIN, 0));
    assert_eq!(m.size, Size::new(i32::MAX, 10));
}

#[test]
fn contains_takes_left_and_top_edges_only() {
    let r = rect(10, 20, 30, 40);
    assert!(r.contains_point(Point::new(10, 20)));
    assert!(r.contains_point(Point::new(39, 59)));
    assert!(!r.contains_point(Point::new(40, 20)));
    assert!(!r.contains_point(Point::new(10, 60)));
    assert!(!r.contains_point(Point::new(9, 20)));
}

#[test]
fn contains_fixed_counts_in_256ths() {
    let r = rect(1, 1, 2, 2);
    assert!(r.contains_fixed_point(FixedPoint::new(256, 256)));
    assert!(r.contains_fixed_point(FixedPoint::new(3 * 256 - 1, 3 * 256 - 1)));
    assert!(!r.contains_fixed_point(FixedPoint::new(3 * 256, 256)));
    assert!(!r.contains_fixed_point(FixedPoint::new(255, 256)));
}

#[test]
fn empty_rectangle_contains_nothing() {
    let r = rect(0, 0, 0, 0);
    assert!(!r.contains_point(Point::new(0, 0)));
    assert_eq!(Rectangle::zero(), r);
}

#[test]
fn intersection_of_overlapping_rectangles() {
    let a = rect(0, 0, 10, 10);
    let b = rect(5, 6, 10, 10);
    assert_eq!(a.intersection(&b), Some(rect(5, 6, 5, 4)));
    assert!(a.overlaps_with(&b));
}

#[test]
fn touching_rectangles_do_not_overlap() {
    let a = rect(0, 0, 10, 10);
    let b = rect(10, 0, 10, 10);
    assert!(!a.overlaps_with(&b));
    assert_eq!(a.intersection(&b), None);
}

#[test]
fn rounding_goes_away_from_zero_at_halves() {
    assert_eq!(round_to_units(128), 1);
    assert_eq!(round_to_units(127), 0);
    assert_eq!(round_to_units(-128), -1);
    assert_eq!(round_to_units(-127), 0);
    assert_eq!(round_to_units(256 * 7 + 100), 7);
    assert_eq!(round_to_units(-(256 * 7 + 200)), -8);
}

#[test]
fn truncation_goes_towards_zero() {
    assert_eq!(trunc_to_units(255), 0);
    assert_eq!(trunc_to_units(-255), 0);
    assert_eq!(trunc_to_units(256), 1);
    assert_eq!(trunc_to_units(-257), -1);
}

#[test]
fn saturating_arithmetic_stops_at_the_bounds() {
    assert_eq!(saturate(i64::MAX), i32::MAX);
    assert_eq!(saturate(i64::MIN), i32::MIN);
    assert_eq!(saturate(-5), -5);
    assert_eq!(sat_add(i32::MAX, 1), i32::MAX);
    assert_eq!(sat_sub(i32::MIN, 1), i32::MIN);
    assert_eq!(sat_add(3, 4), 7);
    assert_eq!(Point::new(i32::MAX, 0).add(Point::new(5, 5)), Point::new(i32::MAX, 5));
    assert_eq!(Point::new(1, 2).sub(Point::new(5, 5)), Point::new(-4, -3));
}

#[test]
fn fixed_points_of_whole_positions() {
    assert_eq!(FixedPoint::from_point(Point::new(3, -2)), FixedPoint::new(768, -512));
    assert_eq!(
        FixedPoint::from_point(Point::new(i32::MAX, i32::MIN)),
        FixedPoint::new(i32::MAX, i32::MIN)
    );
    assert_eq!(FixedPoint::new(10, 10).add(FixedPoint::new(-20, 5)), FixedPoint::new(-10, 15));
    assert_eq!(FixedPoint::new(10, 10).sub(FixedPoint::new(-20, 5)), FixedPoint::new(30, 5));
}

#[test]
fn sliding_moves_as_little_as_possible() {
    assert_eq!(slide(5, 10, 0, 100), 5);
    assert_eq!(slide(-5, 10, 0, 100), 0);
    assert_eq!(slide(95, 10, 0, 100), 90);
    assert_eq!(slide(50, 200, 0, 100), 0);
    assert_eq!(slide(50, 100, 0, 100), 0);
}

#[test]
fn clamping_keeps_a_fitting_rectangle_on_the_target() {
    let target = rect(0, 0, 800, 600);
    assert_eq!(rect(790, 590, 50, 50).clamp_into(&target), rect(750, 550, 50, 50));
    assert_eq!(rect(-20, 30, 50, 50).clamp_into(&target), rect(0, 30, 50, 50));
    assert_eq!(rect(10, 10, 50, 50).clamp_into(&target), rect(10, 10, 50, 50));
    assert_eq!(rect(10, 10, 900, 50).clamp_into(&target), rect(0, 10, 900, 50));
}

#[test]
fn shifting_moves_the_corner_only() {
    assert_eq!(rect(1, 2, 3, 4).shift(Point::new(10, -10)), rect(11, -8, 3, 4));
}
