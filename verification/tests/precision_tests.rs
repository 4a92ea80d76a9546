use amm_core::error::{MathError, PoolError};
use amm_core::precision::{common_precision, normalize};

#[test]
fn common_precision_is_max() {
    assert_eq!(common_precision(6, 9), 9);
    assert_eq!(common_precision(9, 6), 9);
    assert_eq!(common_precision(6, 6), 6);
}

#[test]
fn normalize_scales_lower_precision_up() {
    assert_eq!(normalize(5, 6, 7, 9), Ok((5_000, 7, 9)));
    assert_eq!(normalize(7, 9, 5, 6), Ok((7, 5_000, 9)));
}

#[test]
fn normalize_equal_precisions_unchanged() {
    assert_eq!(normalize(5, 6, 7, 6), Ok((5, 7, 6)));
}

#[test]
fn normalize_widest_spread() {
    assert_eq!(normalize(3, 1, 4, 12), Ok((300_000_000_000, 4, 12)));
}

#[test]
fn normalize_invalid_precision() {
    assert_eq!(
        normalize(5, 0, 7, 9),
        Err(PoolError::Math(MathError::InvalidPrecision))
    );
    assert_eq!(
        normalize(5, 6, 7, 13),
        Err(PoolError::Math(MathError::InvalidPrecision))
    );
}

#[test]
fn normalize_overflow() {
    assert_eq!(
        normalize(u64::MAX, 1, 7, 12),
        Err(PoolError::Math(MathError::Overflow))
    );
}
