//! The pool's quoting and swap formulas: proportional quoting, the constant
//! product, the constant-product swap output, and the proportional
//! withdrawal payout. All arithmetic is done in `u128`, wide enough that no
//! intermediate product of two native `u64` amounts can overflow; each
//! function states exactly on which inputs it succeeds and which error each
//! other input surfaces.

use crate::error::{AmmError, MathError, PoolError};
use vstd::prelude::*;

verus! {

/// The proportional counter-amount: `floor(amount_a * reserve_b / reserve_a)`.
pub open spec fn quote_value(token_a_amount: int, token_a_reserves: int, token_b_reserves: int) -> int {
    token_a_amount * token_b_reserves / token_a_reserves
}

/// The constant-product swap output: `floor(reserve_out * amount_in / (reserve_in + amount_in))`,
/// derived from `(x + dx) * (y - dy) == x * y`.
pub open spec fn amount_out_value(amount_in: int, reserve_in: int, reserve_out: int) -> int {
    reserve_out * amount_in / (reserve_in + amount_in)
}

/// The proportional withdrawal payout: `floor(reserves * lp_amount / lp_supply)`.
pub open spec fn withdraw_value(reserves: int, lp_amount: int, lp_supply: int) -> int {
    reserves * lp_amount / lp_supply
}

/// The swap output is never negative and never exceeds the output reserve:
/// a swap cannot pay out more than the pool holds.
pub proof fn lemma_amount_out_bounds(amount_in: int, reserve_in: int, reserve_out: int)
    requires
        amount_in >= 0,
        reserve_in >= 0,
        reserve_out >= 0,
        reserve_in + amount_in > 0,
    ensures
        0 <= amount_out_value(amount_in, reserve_in, reserve_out) <= reserve_out,
{
    let denominator = reserve_in + amount_in;
    vstd::arithmetic::mul::lemma_mul_nonnegative(reserve_out, amount_in);
    vstd::arithmetic::div_mod::lemma_div_pos_is_pos(reserve_out * amount_in, denominator);
    vstd::arithmetic::mul::lemma_mul_inequality(amount_in, denominator, reserve_out);
    vstd::arithmetic::mul::lemma_mul_is_commutative(amount_in, reserve_out);
    vstd::arithmetic::mul::lemma_mul_is_commutative(denominator, reserve_out);
    vstd::arithmetic::div_mod::lemma_div_is_ordered(
        reserve_out * amount_in,
        reserve_out * denominator,
        denominator,
    );
    vstd::arithmetic::div_mod::lemma_div_multiples_vanish(reserve_out, denominator);
    vstd::arithmetic::mul::lemma_mul_is_commutative(reserve_out, denominator);
}

/// What `quote` returns on each input.
pub open spec fn quote_spec(token_a_amount: u128, token_a_reserves: u128, token_b_reserves: u128) -> Result<
    u128,
    PoolError,
> {
    if token_a_amount == 0 {
        Err(PoolError::Amm(AmmError::ZeroAmount))
    } else if token_a_reserves == 0 || token_b_reserves == 0 {
        Err(PoolError::Amm(AmmError::InsufficientLiquidity))
    } else if token_a_amount * token_b_reserves > u128::MAX {
        Err(PoolError::Math(MathError::Overflow))
    } else {
        Ok(quote_value(token_a_amount as int, token_a_reserves as int, token_b_reserves as int) as u128)
    }
}

/// Calculates the equivalent amount of token B for a given amount of token A,
/// based on current pool reserves; used for ratio-preserving deposits.
///
/// Truncating division systematically favors the pool over the depositor.
pub fn quote(token_a_amount: u128, token_a_reserves: u128, token_b_reserves: u128) -> (r: Result<
    u128,
    PoolError,
>)
    ensures
        r == quote_spec(token_a_amount, token_a_reserves, token_b_reserves),
{
    if token_a_amount == 0 {
        return Err(PoolError::Amm(AmmError::ZeroAmount));
    }
    if !(token_a_reserves > 0 && token_b_reserves > 0) {
        return Err(PoolError::Amm(AmmError::InsufficientLiquidity));
    }
    match token_a_amount.checked_mul(token_b_reserves) {
        None => Err(PoolError::Math(MathError::Overflow)),
        Some(product) => Ok(product / token_a_reserves),
    }
}

/// What `calculate_constant_product` returns on each input.
pub open spec fn constant_product_spec(token_a_amount: u128, token_b_amount: u128) -> Result<
    u128,
    PoolError,
> {
    if token_a_amount * token_b_amount > u128::MAX {
        Err(PoolError::Math(MathError::Overflow))
    } else {
        Ok((token_a_amount * token_b_amount) as u128)
    }
}

/// The pool invariant `k`: the product of the two amounts.
pub fn calculate_constant_product(token_a_amount: u128, token_b_amount: u128) -> (r: Result<
    u128,
    PoolError,
>)
    ensures
        r == constant_product_spec(token_a_amount, token_b_amount),
{
    match token_a_amount.checked_mul(token_b_amount) {
        None => Err(PoolError::Math(MathError::Overflow)),
        Some(product) => Ok(product),
    }
}

/// What `get_amount_out` returns on each input.
pub open spec fn amount_out_spec(amount_in: u128, reserve_in: u128, reserve_out: u128) -> Result<
    u128,
    PoolError,
> {
    if reserve_out * amount_in > u128::MAX {
        Err(PoolError::Math(MathError::Overflow))
    } else if reserve_in + amount_in > u128::MAX {
        Err(PoolError::Math(MathError::Overflow))
    } else if reserve_in + amount_in == 0 {
        Err(PoolError::Math(MathError::DivisionByZero))
    } else {
        Ok(amount_out_value(amount_in as int, reserve_in as int, reserve_out as int) as u128)
    }
}

/// Calculates the output amount for a constant-product swap.
///
/// The formula `dy = y * dx / (x + dx)` is derived from the constant-product
/// invariant `x * y == k`: after the swap `(x + dx) * (y - dy) == k`.
pub fn get_amount_out(amount_in: u128, reserve_in: u128, reserve_out: u128) -> (r: Result<
    u128,
    PoolError,
>)
    ensures
        r == amount_out_spec(amount_in, reserve_in, reserve_out),
{
    let numerator = match reserve_out.checked_mul(amount_in) {
        None => {
            return Err(PoolError::Math(MathError::Overflow));
        },
        Some(product) => product,
    };
    let denominator = match reserve_in.checked_add(amount_in) {
        None => {
            return Err(PoolError::Math(MathError::Overflow));
        },
        Some(sum) => sum,
    };
    if denominator == 0 {
        return Err(PoolError::Math(MathError::DivisionByZero));
    }
    Ok(numerator / denominator)
}

/// What `get_withdraw_amount` returns on each input.
pub open spec fn withdraw_amount_spec(reserves: u128, lp_amount: u128, lp_supply: u128) -> Result<
    u128,
    PoolError,
> {
    if reserves * lp_amount > u128::MAX {
        Err(PoolError::Math(MathError::Overflow))
    } else if lp_supply == 0 {
        Err(PoolError::Math(MathError::DivisionByZero))
    } else {
        Ok(withdraw_value(reserves as int, lp_amount as int, lp_supply as int) as u128)
    }
}

/// Calculates the tokens received for burning `lp_amount` shares: the
/// proportional share of `reserves` for the fraction of `lp_supply` burned.
pub fn get_withdraw_amount(reserves: u128, lp_amount: u128, lp_supply: u128) -> (r: Result<
    u128,
    PoolError,
>)
    ensures
        r == withdraw_amount_spec(reserves, lp_amount, lp_supply),
{
    let numerator = match reserves.checked_mul(lp_amount) {
        None => {
            return Err(PoolError::Math(MathError::Overflow));
        },
        Some(product) => product,
    };
    if lp_supply == 0 {
        return Err(PoolError::Math(MathError::DivisionByZero));
    }
    Ok(numerator / lp_supply)
}

} // verus!
