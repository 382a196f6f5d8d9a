use perpetuals::error::PerpetualsError;
use perpetuals::math;

const OVERFLOW: PerpetualsError = PerpetualsError::MathOverflow;

#[test]
fn checked_ops_on_u64() {
    assert_eq!(math::checked_add(2, 3), Ok(5));
    assert_eq!(math::checked_add(u64::MAX, 1), Err(OVERFLOW));
    assert_eq!(math::checked_sub(3, 2), Ok(1));
    assert_eq!(math::checked_sub(2, 3), Err(OVERFLOW));
    assert_eq!(math::checked_mul(1 << 32, 1 << 31), Ok(1 << 63));
    assert_eq!(math::checked_mul(1 << 32, 1 << 32), Err(OVERFLOW));
    assert_eq!(math::checked_div(7, 2), Ok(3));
    assert_eq!(math::checked_div(7, 0), Err(OVERFLOW));
}

#[test]
fn checked_ops_on_u128_and_signed() {
    assert_eq!(math::checked_add_u128(u128::MAX, 1), Err(OVERFLOW));
    assert_eq!(math::checked_add_u128(1, 1), Ok(2));
    assert_eq!(math::checked_sub_u128(1, 2), Err(OVERFLOW));
    assert_eq!(math::checked_mul_u128(1 << 64, 1 << 64), Err(OVERFLOW));
    assert_eq!(math::checked_mul_u128(1 << 64, 1 << 63), Ok(1 << 127));
    assert_eq!(math::checked_div_u128(9, 0), Err(OVERFLOW));
    assert_eq!(math::checked_div_u128(9, 4), Ok(2));
    assert_eq!(math::checked_add_i32(i32::MAX, 1), Err(OVERFLOW));
    assert_eq!(math::checked_add_i32(-5, 3), Ok(-2));
    assert_eq!(math::checked_sub_i32(i32::MIN, 1), Err(OVERFLOW));
    assert_eq!(math::checked_sub_i64(i64::MIN, 1), Err(OVERFLOW));
    assert_eq!(math::checked_sub_i64(10, 25), Ok(-15));
    assert_eq!(math::checked_as_u64(u64::MAX as u128), Ok(u64::MAX));
    assert_eq!(math::checked_as_u64(u64::MAX as u128 + 1), Err(OVERFLOW));
}

#[test]
fn checked_pow_is_exact() {
    assert_eq!(math::checked_pow(10, 0), Ok(1));
    assert_eq!(math::checked_pow(10, 19), Ok(10_000_000_000_000_000_000));
    assert_eq!(math::checked_pow(10, 20), Err(OVERFLOW));
    assert_eq!(math::checked_pow(2, 63), Ok(1 << 63));
    assert_eq!(math::checked_pow(2, 64), Err(OVERFLOW));
    assert_eq!(math::checked_pow(0, 0), Ok(1));
    assert_eq!(math::checked_pow(0, 1_000_000), Ok(0));
    assert_eq!(math::checked_pow(1, usize::MAX), Ok(1));
    assert_eq!(math::checked_pow_u128(10, 38), Ok(10u128.pow(38)));
    assert_eq!(math::checked_pow_u128(10, 39), Err(OVERFLOW));
}

#[test]
fn decimal_mul_rounds_toward_zero() {
    // 1.5 * 2.5 = 3.75, kept with one digit: 3.7
    assert_eq!(math::checked_decimal_mul(15, -1, 25, -1, -1), Ok(37));
    assert_eq!(math::checked_decimal_mul(15, -1, 25, -1, -2), Ok(375));
    assert_eq!(math::checked_decimal_mul(15, -1, 25, -1, -4), Ok(37_500));
    assert_eq!(math::checked_decimal_mul(15, -1, 25, -1, 0), Ok(3));
    assert_eq!(math::checked_decimal_mul(15, -1, 25, -1, 1), Ok(0));
    assert_eq!(math::checked_decimal_mul(0, 5, 25, -1, -30), Ok(0));
}

#[test]
fn decimal_mul_fails_only_when_the_product_is_no_u64() {
    assert_eq!(math::checked_decimal_mul(u64::MAX, 0, u64::MAX, 0, 0), Err(OVERFLOW));
    assert_eq!(
        math::checked_decimal_mul(u64::MAX, 0, u64::MAX, 0, 20),
        Ok(3_402_823_669_209_384_634)
    );
    assert_eq!(math::checked_decimal_mul(1, 0, 1, 0, -19), Ok(10_000_000_000_000_000_000));
    assert_eq!(math::checked_decimal_mul(1, 0, 1, 0, -20), Err(OVERFLOW));
    assert_eq!(math::checked_decimal_mul(1, i32::MAX, 1, i32::MAX, i32::MIN), Err(OVERFLOW));
    assert_eq!(math::checked_decimal_mul(u64::MAX, i32::MIN, u64::MAX, i32::MIN, i32::MAX), Ok(0));
}

#[test]
fn decimal_div_rounds_toward_zero() {
    // 7.0 / 2.0 = 3.5
    assert_eq!(math::checked_decimal_div(70, -1, 20, -1, -1), Ok(35));
    assert_eq!(math::checked_decimal_div(70, -1, 20, -1, 0), Ok(3));
    assert_eq!(math::checked_decimal_div(70, -1, 20, -1, -3), Ok(3_500));
    assert_eq!(math::checked_decimal_div(1, 0, 3, 0, -4), Ok(3_333));
    assert_eq!(math::checked_decimal_div(0, 0, 3, 0, -4), Ok(0));
    assert_eq!(math::checked_decimal_div(5, 0, 0, 0, 0), Err(OVERFLOW));
    assert_eq!(math::checked_decimal_div(0, 0, 0, 0, 0), Err(OVERFLOW));
}

#[test]
fn decimal_div_fails_only_when_the_quotient_is_no_u64() {
    assert_eq!(math::checked_decimal_div(1, 25, 1 << 63, 0, 0), Ok(1_084_202));
    assert_eq!(math::checked_decimal_div(1, 0, 1, 0, -20), Err(OVERFLOW));
    assert_eq!(math::checked_decimal_div(u64::MAX, 0, 1, 0, 30), Ok(0));
    assert_eq!(math::checked_decimal_div(u64::MAX, 38, u64::MAX, 0, 0), Err(OVERFLOW));
    assert_eq!(math::checked_decimal_div(u64::MAX, 19, u64::MAX, 0, 0), Ok(10_000_000_000_000_000_000));
}
