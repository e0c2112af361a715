use whitted::fixed::{
    angle_wrap, fx_abs, fx_add, fx_cos, fx_div, fx_mul, fx_neg, fx_pow, fx_sin, fx_sqrt, fx_sub,
    isqrt, FX_HALF_PI, FX_ONE, FX_PI, FX_TWO_PI,
};

#[test]
fn add_and_sub_are_exact_in_range() {
    assert_eq!(fx_add(65536, 65536), 131072);
    assert_eq!(fx_sub(65536, 131072), -65536);
    assert_eq!(fx_neg(-65536), 65536);
}

#[test]
fn add_saturates_at_the_extremes() {
    assert_eq!(fx_add(i64::MAX, 1), i64::MAX);
    assert_eq!(fx_sub(i64::MIN, 1), i64::MIN);
    assert_eq!(fx_neg(i64::MIN), i64::MAX);
}

#[test]
fn mul_rescales_products() {
    // 1.0 * 1.0 == 1.0
    assert_eq!(fx_mul(FX_ONE, FX_ONE), FX_ONE);
    // 3.0 * 0.5 == 1.5
    assert_eq!(fx_mul(3 * FX_ONE, 32768), 98304);
    // signs
    assert_eq!(fx_mul(-3 * FX_ONE, 32768), -98304);
    assert_eq!(fx_mul(-3 * FX_ONE, -32768), 98304);
    // saturation
    assert_eq!(fx_mul(i64::MAX, i64::MAX), i64::MAX);
    assert_eq!(fx_mul(i64::MAX, i64::MIN), i64::MIN);
}

#[test]
fn mul_truncates_toward_zero() {
    // 0.00005 * 0.5 truncates toward zero from both sides
    assert_eq!(fx_mul(3, 32768), 1);
    assert_eq!(fx_mul(-3, 32768), -1);
}

#[test]
fn div_computes_fixed_quotients() {
    // 3.0 / 2.0 == 1.5
    assert_eq!(fx_div(3 * FX_ONE, 2 * FX_ONE), 98304);
    assert_eq!(fx_div(-3 * FX_ONE, 2 * FX_ONE), -98304);
    assert_eq!(fx_div(-3 * FX_ONE, -2 * FX_ONE), 98304);
    // 1.0 / 3.0 truncates
    assert_eq!(fx_div(FX_ONE, 3 * FX_ONE), 21845);
}

#[test]
fn div_by_zero_saturates_by_sign() {
    assert_eq!(fx_div(5, 0), i64::MAX);
    assert_eq!(fx_div(-5, 0), i64::MIN);
    assert_eq!(fx_div(0, 0), 0);
}

#[test]
fn isqrt_is_the_integer_square_root() {
    assert_eq!(isqrt(0), 0);
    assert_eq!(isqrt(3), 1);
    assert_eq!(isqrt(4), 2);
    assert_eq!(isqrt(15), 3);
    assert_eq!(isqrt(16), 4);
    assert_eq!(isqrt(u128::MAX), u64::MAX);
}

#[test]
fn fx_sqrt_matches_exact_squares() {
    // sqrt(4.0) == 2.0
    assert_eq!(fx_sqrt(4 * FX_ONE), 2 * FX_ONE);
    // sqrt(1.0) == 1.0
    assert_eq!(fx_sqrt(FX_ONE), FX_ONE);
    // sqrt(2.0) ~= 1.41421
    let r = fx_sqrt(2 * FX_ONE);
    assert!((92681 - 2..=92681 + 2).contains(&r));
}

#[test]
fn abs_saturates_only_at_the_minimum() {
    assert_eq!(fx_abs(-7), 7);
    assert_eq!(fx_abs(7), 7);
    assert_eq!(fx_abs(i64::MIN), i64::MAX);
}

#[test]
fn pow_is_repeated_fixed_multiplication() {
    assert_eq!(fx_pow(2 * FX_ONE, 0), FX_ONE);
    assert_eq!(fx_pow(2 * FX_ONE, 3), 8 * FX_ONE);
    assert_eq!(fx_pow(32768, 2), 16384);
    assert_eq!(fx_pow(0, 5), 0);
}

#[test]
fn angle_wrap_lands_in_half_open_pi_interval() {
    assert_eq!(angle_wrap(0), 0);
    assert_eq!(angle_wrap(FX_TWO_PI), 0);
    assert_eq!(angle_wrap(-100), -100);
    assert_eq!(angle_wrap(FX_PI), FX_PI);
    assert_eq!(angle_wrap(FX_PI + 1), FX_PI + 1 - FX_TWO_PI);
    assert_eq!(angle_wrap(5 * FX_TWO_PI + 17), 17);
}

#[test]
fn sine_and_cosine_hit_the_axis_points() {
    assert_eq!(fx_sin(0), 0);
    // sin(pi) folds to sin(0)
    assert_eq!(fx_sin(FX_PI), 0);
    // cos(pi/2) folds to sin(pi) == 0 exactly
    assert_eq!(fx_cos(FX_HALF_PI), 0);
    // sin(pi/2) and cos(0) approximate one
    let s = fx_sin(FX_HALF_PI);
    assert!((FX_ONE - 32..=FX_ONE).contains(&s));
    let c = fx_cos(0);
    assert!((FX_ONE - 32..=FX_ONE).contains(&c));
    // odd symmetry
    assert_eq!(fx_sin(-FX_HALF_PI), -s);
}
