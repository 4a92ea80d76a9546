//! The withdraw operation: burning liquidity shares for a proportional
//! payout of both reserves.

use crate::error::{AmmError, MathError, PoolError};
use crate::fees::{protocol_fee_shares, protocol_fee_value};
use crate::math::{get_withdraw_amount, withdraw_value};
use crate::state::LiquidityPool;
use vstd::prelude::*;

verus! {

/// The effects a withdrawal asks of the ledger: the payouts from the two
/// vaults, the share burn, and the protocol fee mint.
#[derive(Clone, Copy, Debug, PartialEq, Eq, Structural)]
pub struct WithdrawEffects {
    pub token_a_out: u64,
    pub token_b_out: u64,
    pub lp_burned: u64,
    pub lp_to_protocol: u64,
}

/// What `withdraw` does on each input.
///
/// Protocol fees accrue first, diluting the share supply, so the payout is
/// proportional against the diluted supply. Both payouts must clear the
/// caller's minimums and be positive, and cannot exceed the stored
/// reserves. A successful withdrawal is a liquidity-changing event: the
/// checkpoint `k_last` is reset to the product of the new reserves.
pub open spec fn withdraw_spec(
    pool: LiquidityPool,
    lp_supply: u64,
    lp_amount_to_burn: u64,
    amount_a_min: u64,
    amount_b_min: u64,
    now: i64,
    expiration: i64,
) -> Result<(LiquidityPool, WithdrawEffects), PoolError> {
    if lp_amount_to_burn == 0 {
        Err(PoolError::Amm(AmmError::ZeroAmount))
    } else if expiration <= now {
        Err(PoolError::Amm(AmmError::DeadlineExceeded))
    } else {
        let fee = protocol_fee_value(
            pool.token_a_reserves as nat,
            pool.token_b_reserves as nat,
            pool.k_last as nat,
            lp_supply as nat,
        );
        if lp_supply + fee > u64::MAX {
            Err(PoolError::Math(MathError::Overflow))
        } else {
            let diluted_supply = lp_supply + fee;
            if diluted_supply == 0 {
                Err(PoolError::Math(MathError::DivisionByZero))
            } else {
                let token_a_out = withdraw_value(
                    pool.token_a_reserves as int,
                    lp_amount_to_burn as int,
                    diluted_supply as int,
                );
                let token_b_out = withdraw_value(
                    pool.token_b_reserves as int,
                    lp_amount_to_burn as int,
                    diluted_supply as int,
                );
                if token_a_out > u64::MAX || token_b_out > u64::MAX {
                    Err(PoolError::Math(MathError::Overflow))
                } else if !(token_a_out >= amount_a_min && token_b_out >= amount_b_min) {
                    Err(PoolError::Amm(AmmError::SlippageExceeded))
                } else if !(token_a_out > 0 && token_b_out > 0) {
                    Err(PoolError::Amm(AmmError::InsufficientLiquidity))
                } else if !(token_a_out <= pool.token_a_reserves && token_b_out
                    <= pool.token_b_reserves) {
                    Err(PoolError::Amm(AmmError::InsufficientLiquidity))
                } else {
                    let new_reserve_a = (pool.token_a_reserves - token_a_out) as u64;
                    let new_reserve_b = (pool.token_b_reserves - token_b_out) as u64;
                    Ok(
                        (
                            LiquidityPool {
                                token_a_reserves: new_reserve_a,
                                token_b_reserves: new_reserve_b,
                                k_last: (new_reserve_a * new_reserve_b) as u128,
                                ..pool
                            },
                            WithdrawEffects {
                                token_a_out: token_a_out as u64,
                                token_b_out: token_b_out as u64,
                                lp_burned: lp_amount_to_burn,
                                lp_to_protocol: fee as u64,
                            },
                        ),
                    )
                }
            }
        }
    }
}

/// Burns `lp_amount_to_burn` shares for a proportional payout of both
/// reserves: one atomic state transition.
///
/// `lp_supply` is the externally observed share supply and `now` the
/// current time; the returned effects are the payouts, the burn, and the
/// protocol fee mint the ledger must apply. On any error the record is
/// left untouched.
pub fn withdraw(
    pool: &mut LiquidityPool,
    lp_supply: u64,
    lp_amount_to_burn: u64,
    amount_a_min: u64,
    amount_b_min: u64,
    now: i64,
    expiration: i64,
) -> (r: Result<WithdrawEffects, PoolError>)
    ensures
        (match withdraw_spec(
            *old(pool),
            lp_supply,
            lp_amount_to_burn,
            amount_a_min,
            amount_b_min,
            now,
            expiration,
        ) {
            Ok(outcome) => r == Ok::<WithdrawEffects, PoolError>(outcome.1) && *final(pool)
                == outcome.0,
            Err(e) => r == Err::<WithdrawEffects, PoolError>(e) && *final(pool) == *old(pool),
        }),
{
    if lp_amount_to_burn == 0 {
        return Err(PoolError::Amm(AmmError::ZeroAmount));
    }
    if expiration <= now {
        return Err(PoolError::Amm(AmmError::DeadlineExceeded));
    }
    let fee = protocol_fee_shares(
        pool.token_a_reserves,
        pool.token_b_reserves,
        pool.k_last,
        lp_supply,
    );
    let diluted_supply = match lp_supply.checked_add(fee) {
        None => {
            return Err(PoolError::Math(MathError::Overflow));
        },
        Some(sum) => sum,
    };
    proof {
        assert((pool.token_a_reserves as int) * (lp_amount_to_burn as int) <= u128::MAX)
            by (nonlinear_arith)
            requires
                pool.token_a_reserves <= u64::MAX,
                lp_amount_to_burn <= u64::MAX,
        ;
        assert((pool.token_b_reserves as int) * (lp_amount_to_burn as int) <= u128::MAX)
            by (nonlinear_arith)
            requires
                pool.token_b_reserves <= u64::MAX,
                lp_amount_to_burn <= u64::MAX,
        ;
    }
    let token_a_out_wide = match get_withdraw_amount(
        pool.token_a_reserves as u128,
        lp_amount_to_burn as u128,
        diluted_supply as u128,
    ) {
        Err(e) => {
            return Err(e);
        },
        Ok(amount) => amount,
    };
    let token_b_out_wide = match get_withdraw_amount(
        pool.token_b_reserves as u128,
        lp_amount_to_burn as u128,
        diluted_supply as u128,
    ) {
        Err(e) => {
            return Err(e);
        },
        Ok(amount) => amount,
    };
    if token_a_out_wide > u64::MAX as u128 || token_b_out_wide > u64::MAX as u128 {
        return Err(PoolError::Math(MathError::Overflow));
    }
    let token_a_out = token_a_out_wide as u64;
    let token_b_out = token_b_out_wide as u64;
    if !(token_a_out >= amount_a_min && token_b_out >= amount_b_min) {
        return Err(PoolError::Amm(AmmError::SlippageExceeded));
    }
    if !(token_a_out > 0 && token_b_out > 0) {
        return Err(PoolError::Amm(AmmError::InsufficientLiquidity));
    }
    if !(token_a_out <= pool.token_a_reserves && token_b_out <= pool.token_b_reserves) {
        return Err(PoolError::Amm(AmmError::InsufficientLiquidity));
    }
    let new_reserve_a = pool.token_a_reserves - token_a_out;
    let new_reserve_b = pool.token_b_reserves - token_b_out;
    proof {
        assert((new_reserve_a as int) * (new_reserve_b as int) <= u128::MAX) by (nonlinear_arith)
            requires
                new_reserve_a <= u64::MAX,
                new_reserve_b <= u64::MAX,
        ;
    }
    pool.token_a_reserves = new_reserve_a;
    pool.token_b_reserves = new_reserve_b;
    pool.k_last = (new_reserve_a as u128) * (new_reserve_b as u128);
    Ok(
        WithdrawEffects {
            token_a_out,
            token_b_out,
            lp_burned: lp_amount_to_burn,
            lp_to_protocol: fee,
        },
    )
}

} // verus!
