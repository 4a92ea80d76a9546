//! The economic laws of the pool, proved once and for all inputs: the
//! constant-product invariant never decreases across a swap, quoting is
//! monotone, a withdrawal re-deposited never mints more shares than were
//! burned, and a skim of perfectly synced vaults does nothing.

use crate::error::{AmmError, PoolError};
use crate::math::{amount_out_value, lemma_amount_out_bounds, quote_value, withdraw_value};
use crate::state::LiquidityPool;
use crate::sync::skim_spec;
use vstd::arithmetic::div_mod::{
    lemma_div_is_ordered,
    lemma_div_multiples_vanish,
    lemma_div_pos_is_pos,
    lemma_fundamental_div_mod,
    lemma_mod_bound,
};
use vstd::arithmetic::mul::{lemma_mul_inequality, lemma_mul_is_commutative};
use vstd::prelude::*;

verus! {

/// Taking a fee of `fee_numerator / fee_denominator` from an amount never
/// enlarges it.
pub proof fn lemma_net_in_le_amount(amount_in: int, fee_numerator: int, fee_denominator: int)
    requires
        amount_in >= 0,
        0 <= fee_numerator <= fee_denominator,
        fee_denominator > 0,
    ensures
        0 <= amount_in * fee_numerator / fee_denominator <= amount_in,
{
    lemma_mul_inequality(fee_numerator, fee_denominator, amount_in);
    lemma_mul_is_commutative(fee_numerator, amount_in);
    lemma_mul_is_commutative(fee_denominator, amount_in);
    vstd::arithmetic::mul::lemma_mul_nonnegative(amount_in, fee_numerator);
    lemma_div_pos_is_pos(amount_in * fee_numerator, fee_denominator);
    lemma_div_is_ordered(
        amount_in * fee_numerator,
        amount_in * fee_denominator,
        fee_denominator,
    );
    lemma_mul_is_commutative(amount_in, fee_denominator);
    lemma_div_multiples_vanish(amount_in, fee_denominator);
}

/// The constant-product invariant never decreases across a swap: for
/// reserves `x, y > 0` and input `dx > 0` of which only `net_in <= dx`
/// takes part in the quote (the fee), the post-swap products satisfy
/// `(x + dx) * (y - dy) >= x * y`.
pub proof fn lemma_swap_preserves_product(x: int, y: int, dx: int, net_in: int)
    requires
        x > 0,
        y > 0,
        dx > 0,
        0 <= net_in <= dx,
    ensures
        (x + dx) * (y - amount_out_value(net_in, x, y)) >= x * y,
{
    let dy = amount_out_value(net_in, x, y);
    lemma_fundamental_div_mod(y * net_in, x + net_in);
    lemma_mod_bound(y * net_in, x + net_in);
    vstd::arithmetic::mul::lemma_mul_nonnegative(y, net_in);
    lemma_div_pos_is_pos(y * net_in, x + net_in);
    let rem = (y * net_in) % (x + net_in);
    assert(dy * (x + net_in) <= y * net_in) by (nonlinear_arith)
        requires
            y * net_in == (x + net_in) * dy + rem,
            rem >= 0,
    ;
    assert(dy <= y) by (nonlinear_arith)
        requires
            dy * (x + net_in) <= y * net_in,
            0 <= net_in,
            x > 0,
            y > 0,
            dy >= 0,
    ;
    assert(dy * (x + dx) <= y * dx) by (nonlinear_arith)
        requires
            dy * (x + net_in) <= y * net_in,
            dy <= y,
            0 <= net_in <= dx,
            x > 0,
            y >= 0,
            dy >= 0,
    ;
    assert((x + dx) * (y - dy) >= x * y) by (nonlinear_arith)
        requires
            dy * (x + dx) <= y * dx,
    ;
}

/// The constant-product invariant never decreases across a swap whose fee
/// fraction is at most one: the form the swap operation uses, with
/// `net_in == dx * fee_numerator / fee_denominator`.
pub proof fn lemma_swap_fee_preserves_product(
    x: int,
    y: int,
    dx: int,
    fee_numerator: int,
    fee_denominator: int,
)
    requires
        x > 0,
        y > 0,
        dx > 0,
        0 <= fee_numerator <= fee_denominator,
        fee_denominator > 0,
    ensures
        (x + dx) * (y - amount_out_value(dx * fee_numerator / fee_denominator, x, y)) >= x * y,
{
    lemma_net_in_le_amount(dx, fee_numerator, fee_denominator);
    lemma_swap_preserves_product(x, y, dx, dx * fee_numerator / fee_denominator);
}

/// The swap operation never decreases the stored constant product: whenever
/// `swap` succeeds with a fee fraction of at most one, the product of the
/// new reserves is at least the product of the old ones.
pub proof fn lemma_swap_spec_preserves_k(
    pool: LiquidityPool,
    token_0_mint: crate::state::MintId,
    token_1_mint: crate::state::MintId,
    token_0_amount: u64,
    token_1_min_amount: u64,
    fee_numerator: u64,
    fee_denominator: u64,
    now: i64,
    expiration: i64,
)
    requires
        fee_numerator <= fee_denominator,
        crate::swap::swap_spec(
            pool,
            token_0_mint,
            token_1_mint,
            token_0_amount,
            token_1_min_amount,
            fee_numerator,
            fee_denominator,
            now,
            expiration,
        ) is Ok,
    ensures
        ({
            let new_pool = crate::swap::swap_spec(
                pool,
                token_0_mint,
                token_1_mint,
                token_0_amount,
                token_1_min_amount,
                fee_numerator,
                fee_denominator,
                now,
                expiration,
            )->Ok_0.0;
            new_pool.token_a_reserves * new_pool.token_b_reserves >= pool.token_a_reserves
                * pool.token_b_reserves
        }),
{
    let is_token_a = token_0_mint == pool.token_a_mint;
    let reserve_in = if is_token_a {
        pool.token_a_reserves as int
    } else {
        pool.token_b_reserves as int
    };
    let reserve_out = if is_token_a {
        pool.token_b_reserves as int
    } else {
        pool.token_a_reserves as int
    };
    let dx = token_0_amount as int;
    let net_in = dx * fee_numerator / (fee_denominator as int);
    let dy = amount_out_value(net_in, reserve_in, reserve_out);
    lemma_net_in_le_amount(dx, fee_numerator as int, fee_denominator as int);
    if reserve_in > 0 {
        if dx == 0 {
            // A zero input cannot succeed: it either fails the zero-amount
            // check or quotes to zero and fails the positive minimum.
            assert(net_in == 0);
            assert(dy == 0) by {
                vstd::arithmetic::mul::lemma_mul_by_zero_is_zero(reserve_out);
                vstd::arithmetic::div_mod::lemma_div_of0(reserve_in);
            }
            assert(false);
        }
        lemma_swap_preserves_product(reserve_in, reserve_out, dx, net_in);
        lemma_amount_out_bounds(net_in, reserve_in, reserve_out);
        vstd::arithmetic::mul::lemma_mul_is_commutative(reserve_in + dx, reserve_out - dy);
        vstd::arithmetic::mul::lemma_mul_is_commutative(reserve_in, reserve_out);
    } else {
        // With an empty input reserve the old product is zero and any
        // product of unsigned reserves is at least that. A successful swap
        // with an empty input reserve must have a positive net input, or
        // the division-by-zero guard would have rejected it.
        assert(net_in > 0);
        lemma_amount_out_bounds(net_in, reserve_in, reserve_out);
        vstd::arithmetic::mul::lemma_mul_nonnegative(reserve_in + dx, reserve_out - dy);
        vstd::arithmetic::mul::lemma_mul_is_commutative(reserve_in + dx, reserve_out - dy);
        vstd::arithmetic::mul::lemma_mul_by_zero_is_zero(reserve_out);
    }
}

/// Quoting is monotone: for fixed reserves, a larger input amount never
/// quotes to a smaller counter-amount.
pub proof fn lemma_quote_monotone(
    amount_1: int,
    amount_2: int,
    reserve_in: int,
    reserve_out: int,
)
    requires
        0 <= amount_1 <= amount_2,
        reserve_in > 0,
        reserve_out >= 0,
    ensures
        quote_value(amount_1, reserve_in, reserve_out) <= quote_value(
            amount_2,
            reserve_in,
            reserve_out,
        ),
{
    lemma_mul_inequality(amount_1, amount_2, reserve_out);
    lemma_mul_is_commutative(amount_1, reserve_out);
    lemma_mul_is_commutative(amount_2, reserve_out);
    lemma_div_is_ordered(amount_1 * reserve_out, amount_2 * reserve_out, reserve_in);
}

/// A withdrawal re-deposited never over-mints: burning `shares` of
/// `supply` pays out `out` of `reserve`, and depositing exactly `out` back
/// into the shrunken pool mints at most the `shares` that were burned, so
/// the round trip returns the reserve-to-supply ratio to its pre-withdraw
/// value within integer-truncation tolerance, in the pool's favor.
pub proof fn lemma_withdraw_deposit_round_trip(reserve: int, shares: int, supply: int)
    requires
        0 < shares < supply,
        reserve > 0,
    ensures
        ({
            let out = withdraw_value(reserve, shares, supply);
            let minted = out * (supply - shares) / (reserve - out);
            0 <= out < reserve && 0 <= minted <= shares
        }),
{
    let out = withdraw_value(reserve, shares, supply);
    vstd::arithmetic::mul::lemma_mul_nonnegative(reserve, shares);
    lemma_div_pos_is_pos(reserve * shares, supply);
    lemma_fundamental_div_mod(reserve * shares, supply);
    lemma_mod_bound(reserve * shares, supply);
    let rem_1 = (reserve * shares) % supply;
    assert(out * supply <= reserve * shares) by (nonlinear_arith)
        requires
            reserve * shares == supply * out + rem_1,
            rem_1 >= 0,
    ;
    assert(out < reserve) by (nonlinear_arith)
        requires
            out * supply <= reserve * shares,
            0 < shares < supply,
            reserve > 0,
            out >= 0,
    ;
    let minted = out * (supply - shares) / (reserve - out);
    vstd::arithmetic::mul::lemma_mul_nonnegative(out, supply - shares);
    lemma_div_pos_is_pos(out * (supply - shares), reserve - out);
    lemma_fundamental_div_mod(out * (supply - shares), reserve - out);
    lemma_mod_bound(out * (supply - shares), reserve - out);
    let rem_2 = (out * (supply - shares)) % (reserve - out);
    assert(minted * (reserve - out) <= out * (supply - shares)) by (nonlinear_arith)
        requires
            out * (supply - shares) == (reserve - out) * minted + rem_2,
            rem_2 >= 0,
    ;
    assert(minted <= shares) by (nonlinear_arith)
        requires
            minted * (reserve - out) <= out * (supply - shares),
            out * supply <= reserve * shares,
            0 <= out < reserve,
            0 < shares < supply,
            minted >= 0,
    ;
}

/// A skim of perfectly synced vaults is a no-op: when both observed
/// balances equal the stored reserves exactly, `skim` surfaces
/// `NothingToSkim` and asks nothing of the ledger.
pub proof fn lemma_skim_noop(pool: LiquidityPool, token_a_balance: u64, token_b_balance: u64)
    requires
        token_a_balance == pool.token_a_reserves,
        token_b_balance == pool.token_b_reserves,
    ensures
        skim_spec(pool, token_a_balance, token_b_balance) == Err::<
            crate::sync::SkimEffects,
            PoolError,
        >(PoolError::Amm(AmmError::NothingToSkim)),
{
}

} // verus!
