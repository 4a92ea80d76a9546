//! The swap operation: constant-product exchange of one pooled asset for
//! the other. The engine is directionless; the caller passes the mints of
//! the sold (token 0) and bought (token 1) sides and the record decides
//! which reserve is which.

use crate::error::{AmmError, MathError, PoolError};
use crate::math::{amount_out_value, get_amount_out, lemma_amount_out_bounds};
use crate::state::{LiquidityPool, MintId};
use vstd::prelude::*;

verus! {

/// The effects a swap asks of the ledger: the transfer of the sold amount
/// into its vault and the payout of the bought amount from the other vault.
#[derive(Clone, Copy, Debug, PartialEq, Eq, Structural)]
pub struct SwapEffects {
    pub token_0_in: u64,
    pub token_1_out: u64,
}

/// What `validate` returns on each input: the checks a swap makes before
/// any arithmetic. The amounts must not both be zero, the deadline must not
/// have passed, the requested minimum must be coverable by the output
/// reserve, and the two mints must be the pool's own pair, in either order.
pub open spec fn validate_spec(
    pool: LiquidityPool,
    token_0_mint: MintId,
    token_1_mint: MintId,
    token_0_amount: u64,
    token_1_min_amount: u64,
    now: i64,
    expiration: i64,
) -> Result<(), PoolError> {
    let is_token_a = token_0_mint == pool.token_a_mint;
    let reserve_out = if is_token_a {
        pool.token_b_reserves
    } else {
        pool.token_a_reserves
    };
    if !(token_0_amount > 0 || token_1_min_amount > 0) {
        Err(PoolError::Amm(AmmError::ZeroAmount))
    } else if expiration <= now {
        Err(PoolError::Amm(AmmError::DeadlineExceeded))
    } else if !(token_1_min_amount < reserve_out) {
        Err(PoolError::Amm(AmmError::InsufficientLiquidity))
    } else if is_token_a && token_1_mint != pool.token_b_mint {
        Err(PoolError::Amm(AmmError::MintMismatch))
    } else if !is_token_a && !(token_0_mint == pool.token_b_mint && token_1_mint
        == pool.token_a_mint) {
        Err(PoolError::Amm(AmmError::MintMismatch))
    } else {
        Ok(())
    }
}

/// Checks a swap's inputs against the record before any arithmetic.
pub fn validate(
    pool: &LiquidityPool,
    token_0_mint: MintId,
    token_1_mint: MintId,
    token_0_amount: u64,
    token_1_min_amount: u64,
    now: i64,
    expiration: i64,
) -> (r: Result<(), PoolError>)
    ensures
        r == validate_spec(
            *pool,
            token_0_mint,
            token_1_mint,
            token_0_amount,
            token_1_min_amount,
            now,
            expiration,
        ),
{
    let is_token_a = token_0_mint == pool.token_a_mint;
    let reserve_out = if is_token_a {
        pool.token_b_reserves
    } else {
        pool.token_a_reserves
    };
    if !(token_0_amount > 0 || token_1_min_amount > 0) {
        return Err(PoolError::Amm(AmmError::ZeroAmount));
    }
    if expiration <= now {
        return Err(PoolError::Amm(AmmError::DeadlineExceeded));
    }
    if !(token_1_min_amount < reserve_out) {
        return Err(PoolError::Amm(AmmError::InsufficientLiquidity));
    }
    if is_token_a {
        if token_1_mint != pool.token_b_mint {
            return Err(PoolError::Amm(AmmError::MintMismatch));
        }
    } else {
        if !(token_0_mint == pool.token_b_mint && token_1_mint == pool.token_a_mint) {
            return Err(PoolError::Amm(AmmError::MintMismatch));
        }
    }
    Ok(())
}

/// What `swap` does on each input.
///
/// The fee is subtracted from the input before quoting: only
/// `token_0_amount * fee_numerator / fee_denominator` takes part in the
/// constant-product formula, while the full input amount enters the
/// reserves, which is what makes the invariant grow. The fee-accrual
/// checkpoint `k_last` is deliberately untouched: it moves only at
/// liquidity-changing events, so the growth a swap causes is captured by
/// the next protocol-fee accrual.
pub open spec fn swap_spec(
    pool: LiquidityPool,
    token_0_mint: MintId,
    token_1_mint: MintId,
    token_0_amount: u64,
    token_1_min_amount: u64,
    fee_numerator: u64,
    fee_denominator: u64,
    now: i64,
    expiration: i64,
) -> Result<(LiquidityPool, SwapEffects), PoolError> {
    let is_token_a = token_0_mint == pool.token_a_mint;
    let reserve_in = if is_token_a {
        pool.token_a_reserves
    } else {
        pool.token_b_reserves
    };
    let reserve_out = if is_token_a {
        pool.token_b_reserves
    } else {
        pool.token_a_reserves
    };
    match validate_spec(
        pool,
        token_0_mint,
        token_1_mint,
        token_0_amount,
        token_1_min_amount,
        now,
        expiration,
    ) {
        Err(e) => Err(e),
        Ok(accepted) => if fee_denominator == 0 {
            Err(PoolError::Math(MathError::DivisionByZero))
        } else {
            let net_in = token_0_amount * fee_numerator / (fee_denominator as int);
            if reserve_out * net_in > u128::MAX {
                Err(PoolError::Math(MathError::Overflow))
            } else if reserve_in + net_in == 0 {
                Err(PoolError::Math(MathError::DivisionByZero))
            } else {
                let token_1_out = amount_out_value(net_in, reserve_in as int, reserve_out as int);
                if token_1_out < token_1_min_amount {
                    Err(PoolError::Amm(AmmError::SlippageExceeded))
                } else if reserve_in + token_0_amount > u64::MAX {
                    Err(PoolError::Math(MathError::Overflow))
                } else {
                    let new_reserve_in = (reserve_in + token_0_amount) as u64;
                    let new_reserve_out = (reserve_out - token_1_out) as u64;
                    Ok(
                        (
                            LiquidityPool {
                                token_a_reserves: if is_token_a {
                                    new_reserve_in
                                } else {
                                    new_reserve_out
                                },
                                token_b_reserves: if is_token_a {
                                    new_reserve_out
                                } else {
                                    new_reserve_in
                                },
                                ..pool
                            },
                            SwapEffects {
                                token_0_in: token_0_amount,
                                token_1_out: token_1_out as u64,
                            },
                        ),
                    )
                }
            }
        },
    }
}

/// Swaps `token_0_amount` of the sold asset for the bought asset: one
/// atomic state transition.
///
/// `token_0_mint` and `token_1_mint` are the mints of the caller's sold and
/// bought accounts, validated against the record. The returned effects are
/// the two transfers the ledger must apply; the stored reserves already
/// reflect them. On any error the record is left untouched.
pub fn swap(
    pool: &mut LiquidityPool,
    token_0_mint: MintId,
    token_1_mint: MintId,
    token_0_amount: u64,
    token_1_min_amount: u64,
    fee_numerator: u64,
    fee_denominator: u64,
    now: i64,
    expiration: i64,
) -> (r: Result<SwapEffects, PoolError>)
    ensures
        (match swap_spec(
            *old(pool),
            token_0_mint,
            token_1_mint,
            token_0_amount,
            token_1_min_amount,
            fee_numerator,
            fee_denominator,
            now,
            expiration,
        ) {
            Ok(outcome) => r == Ok::<SwapEffects, PoolError>(outcome.1) && *final(pool)
                == outcome.0,
            Err(e) => r == Err::<SwapEffects, PoolError>(e) && *final(pool) == *old(pool),
        }),
{
    let is_token_a = token_0_mint == pool.token_a_mint;
    let reserve_in = if is_token_a {
        pool.token_a_reserves
    } else {
        pool.token_b_reserves
    };
    let reserve_out = if is_token_a {
        pool.token_b_reserves
    } else {
        pool.token_a_reserves
    };
    match validate(
        pool,
        token_0_mint,
        token_1_mint,
        token_0_amount,
        token_1_min_amount,
        now,
        expiration,
    ) {
        Err(e) => {
            return Err(e);
        },
        Ok(accepted) => accepted,
    }
    if fee_denominator == 0 {
        return Err(PoolError::Math(MathError::DivisionByZero));
    }
    proof {
        assert((token_0_amount as int) * (fee_numerator as int) <= u128::MAX) by (nonlinear_arith)
            requires
                token_0_amount <= u64::MAX,
                fee_numerator <= u64::MAX,
        ;
    }
    let net_in = (token_0_amount as u128) * (fee_numerator as u128) / (fee_denominator as u128);
    proof {
        vstd::arithmetic::div_mod::lemma_div_nonincreasing(
            (token_0_amount as int) * (fee_numerator as int),
            fee_denominator as int,
        );
        assert((token_0_amount as int) * (fee_numerator as int) <= (u64::MAX as int) * (
        u64::MAX as int)) by (nonlinear_arith)
            requires
                token_0_amount <= u64::MAX,
                fee_numerator <= u64::MAX,
        ;
        assert((u64::MAX as int) * (u64::MAX as int) + u64::MAX <= u128::MAX) by (nonlinear_arith);
    }
    let token_1_out_wide = match get_amount_out(net_in, reserve_in as u128, reserve_out as u128) {
        Err(e) => {
            return Err(e);
        },
        Ok(amount) => amount,
    };
    proof {
        lemma_amount_out_bounds(net_in as int, reserve_in as int, reserve_out as int);
    }
    let token_1_out = token_1_out_wide as u64;
    if token_1_out < token_1_min_amount {
        return Err(PoolError::Amm(AmmError::SlippageExceeded));
    }
    let new_reserve_in = match reserve_in.checked_add(token_0_amount) {
        None => {
            return Err(PoolError::Math(MathError::Overflow));
        },
        Some(sum) => sum,
    };
    let new_reserve_out = reserve_out - token_1_out;
    if is_token_a {
        pool.token_a_reserves = new_reserve_in;
        pool.token_b_reserves = new_reserve_out;
    } else {
        pool.token_a_reserves = new_reserve_out;
        pool.token_b_reserves = new_reserve_in;
    }
    Ok(SwapEffects { token_0_in: token_0_amount, token_1_out })
}

} // verus!
