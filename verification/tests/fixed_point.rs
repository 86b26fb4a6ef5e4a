use terrain_engine::fixed::{clamp, plus, times, UNIT};

#[test]
fn one_is_a_million_millionths() {
    assert_eq!(UNIT, 1_000_000);
}

#[test]
fn plus_adds() {
    assert_eq!(plus(1_500_000, 2_250_000), 3_750_000);
    assert_eq!(plus(-5, 5), 0);
}

#[test]
fn plus_stops_at_the_ends_of_the_range() {
    assert_eq!(plus(i64::MAX, 1), i64::MAX);
    assert_eq!(plus(i64::MIN, -1), i64::MIN);
    assert_eq!(plus(i64::MAX, i64::MIN), -1);
}

#[test]
fn times_multiplies() {
    // 1.5 * 2.5 = 3.75
    assert_eq!(times(1_500_000, 2_500_000), 3_750_000);
    assert_eq!(times(-1_500_000, 2_500_000), -3_750_000);
    assert_eq!(times(7, UNIT), 7);
    assert_eq!(times(UNIT, -7), -7);
    assert_eq!(times(123_456_789, 0), 0);
}

#[test]
fn times_rounds_towards_zero() {
    // 0.000003 * 0.5 = 0.0000015
    assert_eq!(times(3, 500_000), 1);
    assert_eq!(times(-3, 500_000), -1);
    assert_eq!(times(1, 999_999), 0);
    assert_eq!(times(-1, 999_999), 0);
}

#[test]
fn times_stops_at_the_ends_of_the_range() {
    assert_eq!(times(i64::MAX, i64::MAX), i64::MAX);
    assert_eq!(times(i64::MAX, i64::MIN), i64::MIN);
    assert_eq!(times(i64::MIN, i64::MIN), i64::MAX);
    assert_eq!(times(i64::MIN, -UNIT), i64::MAX);
}

#[test]
fn clamp_holds_within_the_limit() {
    assert_eq!(clamp(5, 10), 5);
    assert_eq!(clamp(11, 10), 10);
    assert_eq!(clamp(-11, 10), -10);
    assert_eq!(clamp(-10, 10), -10);
    assert_eq!(clamp(i64::MIN, 0), 0);
}
