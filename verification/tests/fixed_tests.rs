use rasterizer::fixed::{fx_add, fx_div, fx_mul, fx_sub, FX_ONE};

#[test]
fn one_is_the_scale() {
    assert_eq!(FX_ONE, 1024);
}

#[test]
fn add_and_sub_are_exact_in_range() {
    assert_eq!(fx_add(3 * FX_ONE, 2 * FX_ONE), 5 * FX_ONE);
    assert_eq!(fx_sub(3 * FX_ONE, 5 * FX_ONE), -2 * FX_ONE);
}

#[test]
fn add_saturates_at_the_limits() {
    assert_eq!(fx_add(i64::MAX, 1), i64::MAX);
    assert_eq!(fx_sub(i64::MIN, 1), i64::MIN);
}

#[test]
fn mul_truncates_toward_zero() {
    // 1.5 * 2.5 = 3.75; 3.75 in fixed point is exact (3840)
    assert_eq!(fx_mul(FX_ONE + FX_ONE / 2, 2 * FX_ONE + FX_ONE / 2), 3 * FX_ONE + 768);
    // -1.5 * 0.5 = -0.75 exactly
    assert_eq!(fx_mul(-(FX_ONE + FX_ONE / 2), FX_ONE / 2), -768);
}

#[test]
fn div_is_exact_on_powers_of_two() {
    assert_eq!(fx_div(3 * FX_ONE, 2 * FX_ONE), FX_ONE + FX_ONE / 2);
    assert_eq!(fx_div(-3 * FX_ONE, 2 * FX_ONE), -(FX_ONE + FX_ONE / 2));
}

#[test]
fn div_by_zero_is_zero() {
    assert_eq!(fx_div(5 * FX_ONE, 0), 0);
}
