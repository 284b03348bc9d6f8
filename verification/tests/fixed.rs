use raycaster::fixed::{
    fx_abs, fx_add, fx_div, fx_floor, fx_floor_int, fx_frac, fx_from_int, fx_mul, fx_neg,
    fx_round, fx_sub, fx_trunc_int, BOUND, HALF, ONE, QUARTER_TURN, TWO,
};
use raycaster::trig::{fx_cos, fx_sin};

#[test]
fn sums_and_differences_are_exact() {
    assert_eq!(fx_add(1_250_000, 2_500_000), 3_750_000);
    assert_eq!(fx_sub(1_250_000, 2_500_000), -1_250_000);
    assert_eq!(fx_neg(-7), 7);
    assert_eq!(fx_abs(-3_000_001), 3_000_001);
}

#[test]
fn results_stick_at_the_bound() {
    assert_eq!(fx_add(BOUND, 1), BOUND);
    assert_eq!(fx_sub(-BOUND, 1), -BOUND);
    assert_eq!(fx_neg(i64::MIN), BOUND);
    assert_eq!(fx_abs(i64::MIN), BOUND);
    assert_eq!(fx_mul(BOUND, TWO), BOUND);
    assert_eq!(fx_mul(BOUND, -TWO), -BOUND);
    assert_eq!(fx_from_int(i64::MAX), BOUND);
}

#[test]
fn products_round_toward_zero() {
    assert_eq!(fx_mul(1_500_000, 2_000_000), 3_000_000);
    assert_eq!(fx_mul(333_333, 3_000_000), 999_999);
    assert_eq!(fx_mul(1, 1), 0);
    assert_eq!(fx_mul(-1, 1), 0);
    assert_eq!(fx_mul(-1_500_000, 1_500_000), -2_250_000);
    assert_eq!(fx_mul(-1_000_001, 1_000_001), -1_000_002);
}

#[test]
fn quotients_round_toward_zero() {
    assert_eq!(fx_div(ONE, 3_000_000), 333_333);
    assert_eq!(fx_div(-ONE, 3_000_000), -333_333);
    assert_eq!(fx_div(ONE, -3_000_000), -333_333);
    assert_eq!(fx_div(-ONE, -3_000_000), 333_333);
    assert_eq!(fx_div(3_000_000, 1_500_000), 2_000_000);
}

#[test]
fn division_by_zero_gives_the_bound() {
    assert_eq!(fx_div(ONE, 0), BOUND);
    assert_eq!(fx_div(-1, 0), -BOUND);
    assert_eq!(fx_div(0, 0), 0);
}

#[test]
fn floor_and_fraction_split_a_number() {
    assert_eq!(fx_floor(2_750_000), 2_000_000);
    assert_eq!(fx_frac(2_750_000), 750_000);
    assert_eq!(fx_floor(-2_750_000), -3_000_000);
    assert_eq!(fx_frac(-2_750_000), 250_000);
    assert_eq!(fx_floor(3_000_000), 3_000_000);
    assert_eq!(fx_frac(3_000_000), 0);
    assert_eq!(fx_floor_int(-1), -1);
    assert_eq!(fx_floor_int(999_999), 0);
    assert_eq!(fx_trunc_int(-1_999_999), -1);
    assert_eq!(fx_trunc_int(1_999_999), 1);
}

#[test]
fn rounding_takes_halves_away_from_zero() {
    assert_eq!(fx_round(HALF), ONE);
    assert_eq!(fx_round(-HALF), -ONE);
    assert_eq!(fx_round(499_999), 0);
    assert_eq!(fx_round(-499_999), 0);
    assert_eq!(fx_round(1_500_000), 2_000_000);
    assert_eq!(fx_round(0), 0);
}

#[test]
fn sine_and_cosine_are_exact_at_quarter_turns() {
    assert_eq!(fx_sin(0), 0);
    assert_eq!(fx_cos(0), ONE);
    assert_eq!(fx_sin(QUARTER_TURN), ONE);
    assert_eq!(fx_cos(QUARTER_TURN), 0);
    assert_eq!(fx_sin(2 * QUARTER_TURN), 0);
    assert_eq!(fx_cos(2 * QUARTER_TURN), -ONE);
    assert_eq!(fx_sin(3 * QUARTER_TURN), -ONE);
    assert_eq!(fx_cos(3 * QUARTER_TURN), 0);
    assert_eq!(fx_sin(-QUARTER_TURN), -ONE);
    assert_eq!(fx_cos(-QUARTER_TURN), 0);
    assert_eq!(fx_sin(-4 * QUARTER_TURN), 0);
    assert_eq!(fx_cos(-4 * QUARTER_TURN), ONE);
}

#[test]
fn sine_and_cosine_follow_the_real_functions() {
    let mut angle: i64 = -7_000_000;
    while angle <= 7_000_000 {
        let real = angle as f64 / 1e6;
        let s = fx_sin(angle) as f64 / 1e6;
        let c = fx_cos(angle) as f64 / 1e6;
        assert!((s - real.sin()).abs() < 2e-5, "sin({}) = {}", real, s);
        assert!((c - real.cos()).abs() < 2e-5, "cos({}) = {}", real, c);
        angle += 37_003;
    }
}
