use amm_core::error::{AmmError, MathError, PoolError};
use amm_core::math::{calculate_constant_product, get_amount_out, get_withdraw_amount, quote};
use amm_core::sqrt::isqrt;

#[test]
fn quote_proportional_example() {
    assert_eq!(quote(100_000, 1_000_000, 2_000_000), Ok(200_000));
}

#[test]
fn quote_rounds_down() {
    assert_eq!(quote(1, 3, 2), Ok(0));
    assert_eq!(quote(2, 3, 2), Ok(1));
}

#[test]
fn quote_zero_amount() {
    assert_eq!(
        quote(0, 1_000_000, 2_000_000),
        Err(PoolError::Amm(AmmError::ZeroAmount))
    );
}

#[test]
fn quote_insufficient_liquidity() {
    assert_eq!(
        quote(5, 0, 2_000_000),
        Err(PoolError::Amm(AmmError::InsufficientLiquidity))
    );
    assert_eq!(
        quote(5, 1_000_000, 0),
        Err(PoolError::Amm(AmmError::InsufficientLiquidity))
    );
}

#[test]
fn quote_overflow() {
    assert_eq!(
        quote(u128::MAX, 3, 2),
        Err(PoolError::Math(MathError::Overflow))
    );
}

#[test]
fn quote_monotone_in_amount() {
    let small = quote(100, 1_000_000, 2_000_000).unwrap();
    let large = quote(200, 1_000_000, 2_000_000).unwrap();
    assert!(small <= large);
}

#[test]
fn constant_product_example() {
    assert_eq!(calculate_constant_product(10_000, 10_000), Ok(100_000_000));
}

#[test]
fn constant_product_overflow() {
    assert_eq!(
        calculate_constant_product(u128::MAX, 2),
        Err(PoolError::Math(MathError::Overflow))
    );
}

#[test]
fn amount_out_example() {
    assert_eq!(get_amount_out(997, 1_000_000, 1_000_000), Ok(996));
}

#[test]
fn amount_out_division_by_zero() {
    assert_eq!(
        get_amount_out(0, 0, 5),
        Err(PoolError::Math(MathError::DivisionByZero))
    );
}

#[test]
fn amount_out_overflow() {
    assert_eq!(
        get_amount_out(u128::MAX, 1, 2),
        Err(PoolError::Math(MathError::Overflow))
    );
}

#[test]
fn amount_out_never_exceeds_reserve() {
    let out = get_amount_out(u64::MAX as u128, 1, 500).unwrap();
    assert!(out <= 500);
}

#[test]
fn withdraw_amount_example() {
    assert_eq!(get_withdraw_amount(1_000, 100, 1_000), Ok(100));
    assert_eq!(get_withdraw_amount(1_000, 3, 7), Ok(428));
}

#[test]
fn withdraw_amount_division_by_zero() {
    assert_eq!(
        get_withdraw_amount(1_000, 100, 0),
        Err(PoolError::Math(MathError::DivisionByZero))
    );
}

#[test]
fn withdraw_amount_overflow() {
    assert_eq!(
        get_withdraw_amount(u128::MAX, 2, 1),
        Err(PoolError::Math(MathError::Overflow))
    );
}

#[test]
fn isqrt_small_values() {
    assert_eq!(isqrt(0), 0);
    assert_eq!(isqrt(1), 1);
    assert_eq!(isqrt(3), 1);
    assert_eq!(isqrt(4), 2);
    assert_eq!(isqrt(99), 9);
    assert_eq!(isqrt(100), 10);
    assert_eq!(isqrt(100_000_000), 10_000);
}

#[test]
fn isqrt_extremes() {
    assert_eq!(isqrt(u128::MAX), u64::MAX as u128);
    let exact = (u64::MAX as u128) * (u64::MAX as u128);
    assert_eq!(isqrt(exact), u64::MAX as u128);
    assert_eq!(isqrt(exact - 1), (u64::MAX as u128) - 1);
}
