use restore_windows::scale::same_scale;
use restore_windows::scale::scale_coordinate;
use restore_windows::scale::scale_length;
use restore_windows::scale::SCALE_FACTOR_EPSILON;
use restore_windows::scale::SCALE_UNIT;

#[test]
fn scale_constants() {
    assert_eq!(SCALE_UNIT, 1000);
    assert_eq!(SCALE_FACTOR_EPSILON, 10);
}

#[test]
fn same_scale_is_strict_about_the_epsilon() {
    assert!(same_scale(1000, 1000));
    assert!(same_scale(1000, 1009));
    assert!(same_scale(1009, 1000));
    assert!(!same_scale(1000, 1010));
    assert!(!same_scale(1010, 1000));
    assert!(!same_scale(1000, 2000));
    assert!(!same_scale(0, u32::MAX));
}

#[test]
fn scale_length_multiplies_by_the_ratio() {
    assert_eq!(scale_length(800, 2000, 1000), 1600);
    assert_eq!(scale_length(800, 1000, 2000), 400);
    assert_eq!(scale_length(800, 1500, 1000), 1200);
    assert_eq!(scale_length(800, 1000, 1000), 800);
}

#[test]
fn scale_length_drops_the_fraction() {
    assert_eq!(scale_length(801, 1000, 2000), 400);
    assert_eq!(scale_length(7, 1500, 1250), 8);
    assert_eq!(scale_length(1, 1000, 3000), 0);
    assert_eq!(scale_length(2, 1000, 3000), 0);
    assert_eq!(scale_length(3, 1000, 3000), 1);
}

#[test]
fn scale_length_stops_at_the_largest_length() {
    assert_eq!(scale_length(u32::MAX, 2000, 1000), u32::MAX);
    assert_eq!(scale_length(u32::MAX, u32::MAX, 1), u32::MAX);
    assert_eq!(scale_length(u32::MAX, 1000, 1000), u32::MAX);
}

#[test]
fn scale_length_with_a_zero_scale() {
    assert_eq!(scale_length(5, 1000, 0), u32::MAX);
    assert_eq!(scale_length(0, 1000, 0), 0);
    assert_eq!(scale_length(5, 0, 0), 0);
    assert_eq!(scale_length(5, 0, 1000), 0);
}

#[test]
fn scale_coordinate_multiplies_by_the_ratio() {
    assert_eq!(scale_coordinate(3100, 2000, 1000), 6200);
    assert_eq!(scale_coordinate(100, 2000, 1000), 200);
    assert_eq!(scale_coordinate(-3100, 1000, 2000), -1550);
    assert_eq!(scale_coordinate(0, 2000, 1000), 0);
}

#[test]
fn scale_coordinate_rounds_toward_zero() {
    assert_eq!(scale_coordinate(3, 1000, 2000), 1);
    assert_eq!(scale_coordinate(-3, 1000, 2000), -1);
    assert_eq!(scale_coordinate(-1, 1000, 2000), 0);
    assert_eq!(scale_coordinate(-7, 1500, 1250), -8);
}

#[test]
fn scale_coordinate_stops_at_the_ends_of_the_range() {
    assert_eq!(scale_coordinate(i32::MAX, 2000, 1000), i32::MAX);
    assert_eq!(scale_coordinate(i32::MIN, 2000, 1000), i32::MIN);
    assert_eq!(scale_coordinate(i32::MIN, 1000, 1000), i32::MIN);
    assert_eq!(scale_coordinate(i32::MIN + 1, 1000, 1000), i32::MIN + 1);
    assert_eq!(scale_coordinate(i32::MAX, 1000, 1000), i32::MAX);
    assert_eq!(scale_coordinate(-1_500_000_000, 3000, 2000), i32::MIN);
}

#[test]
fn scale_coordinate_with_a_zero_scale() {
    assert_eq!(scale_coordinate(5, 1000, 0), i32::MAX);
    assert_eq!(scale_coordinate(-5, 1000, 0), i32::MIN);
    assert_eq!(scale_coordinate(0, 1000, 0), 0);
    assert_eq!(scale_coordinate(-5, 0, 0), 0);
    assert_eq!(scale_coordinate(-5, 0, 1000), 0);
}
