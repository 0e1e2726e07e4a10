use bouncing_ball::fixed::{drift, rebound, saturate, scale, LIMIT, SCALE};

#[test]
fn one_unit_is_a_million_steps() {
    assert_eq!(SCALE, 1_000_000);
    assert_eq!(LIMIT, i64::MAX);
}

#[test]
fn scale_is_exact_where_the_product_is_whole() {
    assert_eq!(scale(40_000_000, 1_000_000), 40_000_000);
    assert_eq!(scale(9_810_000, 100_000), 981_000);
    assert_eq!(scale(-10_000_000, 800_000), -8_000_000);
    assert_eq!(scale(7, 0), 0);
    assert_eq!(scale(0, 7), 0);
}

#[test]
fn scale_cuts_toward_zero_on_both_sides() {
    assert_eq!(scale(1, 1_500_000), 1);
    assert_eq!(scale(-1, 1_500_000), -1);
    assert_eq!(scale(1, 999_999), 0);
    assert_eq!(scale(-1, 999_999), 0);
    assert_eq!(scale(3, 2_999_999), 8);
    assert_eq!(scale(-3, 2_999_999), -8);
}

#[test]
fn scale_takes_the_widest_operands() {
    let widest: i128 = scale(i64::MAX, u64::MAX);
    assert_eq!(widest, (i64::MAX as i128) * (u64::MAX as i128) / 1_000_000);
    let lowest: i128 = scale(i64::MIN, u64::MAX);
    assert_eq!(lowest, -((-(i64::MIN as i128) * (u64::MAX as i128)) / 1_000_000));
}

#[test]
fn saturate_keeps_what_fits() {
    assert_eq!(saturate(0), 0);
    assert_eq!(saturate(-7_019_000), -7_019_000);
    assert_eq!(saturate(LIMIT as i128), LIMIT);
    assert_eq!(saturate(-(LIMIT as i128)), -LIMIT);
}

#[test]
fn saturate_stops_at_the_limit() {
    assert_eq!(saturate(LIMIT as i128 + 1), LIMIT);
    assert_eq!(saturate(-(LIMIT as i128) - 1), -LIMIT);
    assert_eq!(saturate(i128::MAX), LIMIT);
    assert_eq!(saturate(i128::MIN), -LIMIT);
}

#[test]
fn drift_adds_rate_times_time() {
    assert_eq!(drift(320_000_000, 40_000_000, 1_000_000), 360_000_000);
    assert_eq!(drift(449_000_000, 10_000_000, 100_000), 450_000_000);
    assert_eq!(drift(-8_000_000, 9_810_000, 100_000), -7_019_000);
    assert_eq!(drift(5, -3, 2_000_000), -1);
}

#[test]
fn drift_over_no_time_stays() {
    assert_eq!(drift(123, 40_000_000, 0), 123);
    assert_eq!(drift(-123, -40_000_000, 0), -123);
}

#[test]
fn drift_cuts_the_step_not_the_sum() {
    assert_eq!(drift(10, -1, 1_500_000), 9);
    assert_eq!(drift(-10, 1, 1_500_000), -9);
    assert_eq!(drift(0, 1, 8_333), 0);
    assert_eq!(drift(0, 9_810_000, 8_333), 81_746);
}

#[test]
fn drift_stops_at_the_limit() {
    assert_eq!(drift(LIMIT, 1_000_000, 1), LIMIT);
    assert_eq!(drift(-LIMIT, -1_000_000, 1), -LIMIT);
    assert_eq!(drift(0, i64::MAX, u64::MAX), LIMIT);
    assert_eq!(drift(0, i64::MIN, u64::MAX), -LIMIT);
    assert_eq!(drift(i64::MIN, 0, 5), -LIMIT);
}

#[test]
fn drift_saturates_the_sum_only() {
    assert_eq!(drift(-5, i64::MAX, 1_000_010), LIMIT);
    assert_eq!(drift(-LIMIT, i64::MAX, 1_000_000), 0);
}

#[test]
fn rebound_turns_the_speed_around() {
    assert_eq!(rebound(40_000_000, 1_000_000), -40_000_000);
    assert_eq!(rebound(-40_000_000, 1_000_000), 40_000_000);
    assert_eq!(rebound(10_000_000, 800_000), -8_000_000);
    assert_eq!(rebound(-10_000_000, 800_000), 8_000_000);
}

#[test]
fn rebound_cuts_toward_zero() {
    assert_eq!(rebound(3, 500_000), -1);
    assert_eq!(rebound(-3, 500_000), 1);
    assert_eq!(rebound(1, 800_000), 0);
    assert_eq!(rebound(-1, 800_000), 0);
}

#[test]
fn rebound_of_rest_is_rest() {
    assert_eq!(rebound(0, 1_000_000), 0);
    assert_eq!(rebound(0, 800_000), 0);
    assert_eq!(rebound(40_000_000, 0), 0);
}

#[test]
fn rebound_stops_at_the_limit() {
    assert_eq!(rebound(LIMIT, 1_000_000), -LIMIT);
    assert_eq!(rebound(-LIMIT, 1_000_000), LIMIT);
    assert_eq!(rebound(i64::MIN, 1_000_000), LIMIT);
    assert_eq!(rebound(LIMIT, 2_000_000), -LIMIT);
    assert_eq!(rebound(-LIMIT, u64::MAX), LIMIT);
}
