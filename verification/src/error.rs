//! The two error families of the pool: arithmetic errors, which signal a
//! numeric precondition violation, and protocol errors, which signal a
//! business-rule violation. Both are fatal to the current operation; no
//! operation retries or partially applies.

use vstd::prelude::*;

verus! {

/// Arithmetic and mathematical operation errors.
#[derive(Clone, Copy, Debug, PartialEq, Eq, Structural)]
pub enum MathError {
    /// An arithmetic operation overflowed its integer width.
    Overflow,
    /// A division was attempted with a zero divisor.
    DivisionByZero,
    /// A token precision lay outside the accepted range of 1 to 12 decimals.
    InvalidPrecision,
}

/// Pool protocol errors.
#[derive(Clone, Copy, Debug, PartialEq, Eq, Structural)]
pub enum AmmError {
    /// An amount that must be greater than zero was zero.
    ZeroAmount,
    /// The two asset mints of a new pool were the same.
    IdenticalMints,
    /// The caller-supplied expiration timestamp has passed.
    DeadlineExceeded,
    /// The pool has insufficient liquidity for the operation.
    InsufficientLiquidity,
    /// The initial deposit would mint no more than the locked minimum of
    /// liquidity shares.
    InsufficientInitialLiquidity,
    /// The minimum locked liquidity shares cannot be withdrawn.
    MinimumLiquidityLocked,
    /// A computed amount fell below the caller-supplied minimum.
    SlippageExceeded,
    /// Neither vault holds tokens beyond the stored reserves.
    NothingToSkim,
    /// An account's mint does not match the pool's record.
    MintMismatch,
}

/// Any failure an operation of this crate can surface: one of the two error
/// families.
#[derive(Clone, Copy, Debug, PartialEq, Eq, Structural)]
pub enum PoolError {
    Math(MathError),
    Amm(AmmError),
}

} // verus!
