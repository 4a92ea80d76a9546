//! Precision normalization: aligning two differently-scaled integer amounts
//! onto a common decimal precision, so that amounts of assets with unequal
//! decimal counts can be compared.

use crate::error::{MathError, PoolError};
use vstd::prelude::*;

verus! {

/// The lowest accepted decimal precision.
pub const MIN_PRECISION: u8 = 1;

/// The highest accepted decimal precision.
pub const MAX_PRECISION: u8 = 12;

/// Ten to the power `e`.
pub open spec fn pow10(e: nat) -> nat
    decreases e,
{
    if e == 0 {
        1
    } else {
        10 * pow10((e - 1) as nat)
    }
}

/// `10^e` is positive.
pub proof fn lemma_pow10_pos(e: nat)
    ensures
        pow10(e) >= 1,
    decreases e,
{
    if e > 0 {
        lemma_pow10_pos((e - 1) as nat);
    }
}

/// `10^e` does not shrink as `e` grows.
pub proof fn lemma_pow10_mono(a: nat, b: nat)
    requires
        a <= b,
    ensures
        pow10(a) <= pow10(b),
    decreases b,
{
    if a < b {
        lemma_pow10_mono(a, (b - 1) as nat);
        lemma_pow10_pos((b - 1) as nat);
    }
}

/// `10^e` fits a `u64` for every exponent a precision difference can reach.
pub proof fn lemma_pow10_le_max(e: nat)
    requires
        e <= 11,
    ensures
        pow10(e) <= 100_000_000_000,
{
    lemma_pow10_mono(e, 11);
    assert(pow10(11) == 100_000_000_000) by {
        reveal_with_fuel(pow10, 12);
    }
}

/// Computes `10^e` for exponents up to the width of a precision difference.
fn pow10_u64(e: u8) -> (r: u64)
    requires
        e <= 11,
    ensures
        r == pow10(e as nat),
{
    let mut i: u8 = 0;
    let mut acc: u64 = 1;
    while i < e
        invariant
            i <= e <= 11,
            acc == pow10(i as nat),
        decreases e - i,
    {
        proof {
            lemma_pow10_le_max(i as nat);
        }
        assert(pow10((i + 1) as nat) == 10 * pow10(i as nat));
        acc = acc * 10;
        i = i + 1;
    }
    acc
}

/// The common precision of two assets: the larger of the two.
pub fn common_precision(precision_a: u8, precision_b: u8) -> (r: u8)
    ensures
        r == if precision_a >= precision_b {
            precision_a as int
        } else {
            precision_b as int
        },
{
    if precision_a >= precision_b {
        precision_a
    } else {
        precision_b
    }
}

/// Whether a decimal precision lies in the accepted range.
pub open spec fn precision_valid(precision: u8) -> bool {
    MIN_PRECISION <= precision <= MAX_PRECISION
}

/// What `normalize` returns on each input: the amount with the smaller
/// precision is scaled up by ten to the precision difference, so both
/// amounts are expressed at the larger precision.
pub open spec fn normalize_spec(
    amount_a: u64,
    precision_a: u8,
    amount_b: u64,
    precision_b: u8,
) -> Result<(u64, u64, u8), PoolError> {
    if !precision_valid(precision_a) || !precision_valid(precision_b) {
        Err(PoolError::Math(MathError::InvalidPrecision))
    } else if precision_a < precision_b {
        let scaled = amount_a * pow10((precision_b - precision_a) as nat);
        if scaled > u64::MAX {
            Err(PoolError::Math(MathError::Overflow))
        } else {
            Ok((scaled as u64, amount_b, precision_b))
        }
    } else {
        let scaled = amount_b * pow10((precision_a - precision_b) as nat);
        if scaled > u64::MAX {
            Err(PoolError::Math(MathError::Overflow))
        } else {
            Ok((amount_a, scaled as u64, precision_a))
        }
    }
}

/// Expresses two amounts at their common decimal precision, scaling the one
/// with the smaller precision up by the appropriate power of ten.
pub fn normalize(amount_a: u64, precision_a: u8, amount_b: u64, precision_b: u8) -> (r: Result<
    (u64, u64, u8),
    PoolError,
>)
    ensures
        r == normalize_spec(amount_a, precision_a, amount_b, precision_b),
{
    if !(MIN_PRECISION <= precision_a && precision_a <= MAX_PRECISION) || !(MIN_PRECISION
        <= precision_b && precision_b <= MAX_PRECISION) {
        return Err(PoolError::Math(MathError::InvalidPrecision));
    }
    if precision_a < precision_b {
        let factor = pow10_u64(precision_b - precision_a);
        match amount_a.checked_mul(factor) {
            None => Err(PoolError::Math(MathError::Overflow)),
            Some(scaled) => Ok((scaled, amount_b, precision_b)),
        }
    } else {
        let factor = pow10_u64(precision_a - precision_b);
        match amount_b.checked_mul(factor) {
            None => Err(PoolError::Math(MathError::Overflow)),
            Some(scaled) => Ok((amount_a, scaled, precision_a)),
        }
    }
}

} // verus!
