use amm_core::errors::AmmError;
use amm_core::math::safe_mul_div_cast_u64;
use amm_core::math::Rounding;
use amm_core::math::SafeMath;

#[test]
fn safe_add() {
    assert_eq!(u64::MAX.safe_add(u64::MAX).is_err(), true);
    assert_eq!(100u64.safe_add(100u64).is_ok(), true);
    assert_eq!(100u64.safe_add(100u64).unwrap(), 200u64);
}

#[test]
fn safe_sub() {
    assert_eq!(0u64.safe_sub(u64::MAX).is_err(), true);
    assert_eq!(200u64.safe_sub(100u64).is_ok(), true);
    assert_eq!(200u64.safe_sub(100u64).unwrap(), 100u64);
}

#[test]
fn safe_mul() {
    assert_eq!(u64::MAX.safe_mul(u64::MAX).is_err(), true);
    assert_eq!(100u64.safe_mul(100u64).is_ok(), true);
    assert_eq!(100u64.safe_mul(100u64).unwrap(), 10000u64);
}

#[test]
fn safe_div() {
    assert_eq!(100u64.safe_div(0u64).is_err(), true);
    assert_eq!(200u64.safe_div(100u64).is_ok(), true);
    assert_eq!(200u64.safe_div(100u64), Ok(2u64));
}

#[test]
fn safe_shl() {
    assert_eq!(1u128.safe_shl(8).is_ok(), true);
    assert_eq!(100u128.safe_shl(128).is_err(), true);
    assert_eq!(100u128.safe_shl(8), Ok(25600))
}

#[test]
fn safe_shr() {
    assert_eq!(100u128.safe_shr(1).is_ok(), true);
    assert_eq!(200u128.safe_shr(129).is_err(), true);
    assert_eq!(200u128.safe_shr(1), Ok(100))
}

#[test]
fn safe_u128_ops() {
    assert_eq!(u128::MAX.safe_add(1u128), Err(AmmError::MathOverflow));
    assert_eq!(7u128.safe_rem(3u128), Ok(1u128));
    assert_eq!(7u128.safe_rem(0u128), Err(AmmError::MathOverflow));
    assert_eq!(6u64.safe_rem(4u64), Ok(2u64));
}

#[test]
fn mul_div_rounds_down() {
    assert_eq!(
        safe_mul_div_cast_u64(1_000_000, 20, 100_000, Rounding::Down),
        Ok(200)
    );
    assert_eq!(safe_mul_div_cast_u64(7, 3, 2, Rounding::Down), Ok(10));
}

#[test]
fn mul_div_rounds_up() {
    assert_eq!(safe_mul_div_cast_u64(7, 3, 2, Rounding::Up), Ok(11));
    assert_eq!(safe_mul_div_cast_u64(8, 2, 4, Rounding::Up), Ok(4));
}

#[test]
fn mul_div_zero_denominator_is_math_overflow() {
    assert_eq!(
        safe_mul_div_cast_u64(1, 1, 0, Rounding::Down),
        Err(AmmError::MathOverflow)
    );
}

#[test]
fn mul_div_wide_result_is_cast_failure() {
    assert_eq!(
        safe_mul_div_cast_u64(u64::MAX, u64::MAX, 1, Rounding::Down),
        Err(AmmError::TypeCastFailed)
    );
}
