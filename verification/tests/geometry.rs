use pong::geometry::{clamp, magnitude, overlaps, Field, Point, Vector};
use pong::geometry::{COORD_LIMIT, SPEED_LIMIT, UNIT};


#[test]
fn clamp_gives_low_below_the_range() {
    assert_eq!(clamp(-5, 0, 10), 0);
    assert_eq!(clamp(i64::MIN, -3, 3), -3);
}

#[test]
fn clamp_gives_high_above_the_range() {
    assert_eq!(clamp(11, 0, 10), 10);
    assert_eq!(clamp(i64::MAX, -3, 3), 3);
}

#[test]
fn clamp_keeps_a_value_inside_the_range() {
    assert_eq!(clamp(0, 0, 10), 0);
    assert_eq!(clamp(7, 0, 10), 7);
    assert_eq!(clamp(10, 0, 10), 10);
}

#[test]
fn clamp_tests_the_lower_bound_first() {
    // With the bounds crossed, a value under `low` gives `low`, any other
    // value above `high` gives `high`.
    assert_eq!(clamp(40, 50, 0), 50);
    assert_eq!(clamp(60, 50, 0), 0);
    assert_eq!(clamp(50, 50, 0), 0);
}

#[test]
fn magnitude_drops_the_sign() {
    assert_eq!(magnitude(600), 600);
    assert_eq!(magnitude(-600), 600);
    assert_eq!(magnitude(0), 0);
    assert_eq!(magnitude(i64::MIN + 1), i64::MAX);
}

#[test]
fn center_is_half_of_each_side() {
    let field = Field { width: 800 * UNIT, height: 600 * UNIT };
    assert_eq!(field.center(), Point { x: 400 * UNIT, y: 300 * UNIT });
}

#[test]
fn center_of_an_odd_field_is_rounded_down() {
    let field = Field { width: 7, height: 1 };
    assert_eq!(field.center(), Point { x: 3, y: 0 });
}

#[test]
fn boxes_that_share_interior_overlap() {
    let half = Vector { x: 10, y: 10 };
    assert!(overlaps(Point { x: 0, y: 0 }, half, Point { x: 19, y: 19 }, half));
    assert!(overlaps(Point { x: 0, y: 0 }, half, Point { x: -19, y: 19 }, half));
    assert!(overlaps(Point { x: 5, y: 5 }, half, Point { x: 5, y: 5 }, half));
}

#[test]
fn boxes_that_only_touch_do_not_overlap() {
    let half = Vector { x: 10, y: 10 };
    assert!(!overlaps(Point { x: 0, y: 0 }, half, Point { x: 20, y: 0 }, half));
    assert!(!overlaps(Point { x: 0, y: 0 }, half, Point { x: 0, y: -20 }, half));
}

#[test]
fn boxes_apart_on_one_axis_do_not_overlap() {
    let half = Vector { x: 10, y: 10 };
    assert!(!overlaps(Point { x: 0, y: 0 }, half, Point { x: 0, y: 100 }, half));
    assert!(!overlaps(Point { x: 0, y: 0 }, half, Point { x: 100, y: 0 }, half));
}

#[test]
fn overlap_takes_each_axis_by_its_own_extents() {
    let wide = Vector { x: 100, y: 1 };
    let small = Vector { x: 1, y: 1 };
    assert!(overlaps(Point { x: 0, y: 0 }, wide, Point { x: 90, y: 0 }, small));
    assert!(!overlaps(Point { x: 0, y: 0 }, wide, Point { x: 0, y: 90 }, small));
    assert!(overlaps(Point { x: 90, y: 0 }, small, Point { x: 0, y: 0 }, wide));
    assert!(!overlaps(Point { x: 0, y: 90 }, small, Point { x: 0, y: 0 }, wide));
}

#[test]
fn range_tests_include_the_limits() {
    assert!(Point { x: COORD_LIMIT, y: -COORD_LIMIT }.is_in_range());
    assert!(!Point { x: COORD_LIMIT + 1, y: 0 }.is_in_range());
    assert!(!Point { x: 0, y: -COORD_LIMIT - 1 }.is_in_range());
    assert!(Vector { x: SPEED_LIMIT, y: -SPEED_LIMIT }.is_in_range());
    assert!(!Vector { x: 0, y: SPEED_LIMIT + 1 }.is_in_range());
    assert!(!Vector { x: -SPEED_LIMIT - 1, y: 0 }.is_in_range());
}

#[test]
fn a_field_in_range_has_no_negative_side() {
    assert!(Field { width: 0, height: 0 }.is_in_range());
    assert!(Field { width: COORD_LIMIT, height: COORD_LIMIT }.is_in_range());
    assert!(!Field { width: -1, height: 600 * UNIT }.is_in_range());
    assert!(!Field { width: 800 * UNIT, height: -1 }.is_in_range());
    assert!(!Field { width: COORD_LIMIT + 1, height: 0 }.is_in_range());
}
