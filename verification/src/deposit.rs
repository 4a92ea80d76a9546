//! Deposits: the ratio-preserving deposit optimizer and the deposit
//! operation itself, covering both the first deposit into an empty pool and
//! deposits into an active one.

use crate::error::{AmmError, MathError, PoolError};
use crate::fees::{protocol_fee_shares, protocol_fee_value};
use crate::math::{quote, quote_spec, quote_value};
use crate::sqrt::{isqrt, lemma_sqrt_floor_bound, sqrt_floor};
use crate::state::LiquidityPool;
use vstd::prelude::*;

verus! {

/// Liquidity shares minted by the first deposit that are locked forever in
/// an unspendable sink, so the pool can never be drained to a degenerate
/// state.
pub const MINIMUM_LIQUIDITY: u64 = 1000;

/// The effects a deposit asks of the ledger: the transfers into the two
/// vaults and the share mints to the depositor, to the unspendable sink,
/// and to the protocol's fee account.
#[derive(Clone, Copy, Debug, PartialEq, Eq, Structural)]
pub struct DepositEffects {
    pub token_a_deposit: u64,
    pub token_b_deposit: u64,
    pub lp_to_depositor: u64,
    pub lp_to_lock: u64,
    pub lp_to_protocol: u64,
}

/// What `optimize_deposit_amounts` returns on each input: the greedy
/// two-branch policy. First assume all of `token_a_amount_desired` is
/// deposited and quote the matching amount of token B; if that fits under
/// the desired B it is taken, else the computation is flipped.
pub open spec fn optimize_deposit_spec(
    token_a_amount_desired: u128,
    token_b_amount_desired: u128,
    token_a_amount_min: u128,
    token_b_amount_min: u128,
    token_a_reserves: u128,
    token_b_reserves: u128,
) -> Result<(u128, u128), PoolError> {
    match quote_spec(token_a_amount_desired, token_a_reserves, token_b_reserves) {
        Err(e) => Err(e),
        Ok(token_b_optimal_amount) => if token_b_optimal_amount <= token_b_amount_desired {
            if token_b_optimal_amount >= token_b_amount_min {
                Ok((token_a_amount_desired, token_b_optimal_amount))
            } else {
                Err(PoolError::Amm(AmmError::SlippageExceeded))
            }
        } else {
            match quote_spec(token_b_amount_desired, token_b_reserves, token_a_reserves) {
                Err(e) => Err(e),
                Ok(token_a_optimal_amount) => if token_a_optimal_amount >= token_a_amount_min {
                    Ok((token_a_optimal_amount, token_b_amount_desired))
                } else {
                    Err(PoolError::Amm(AmmError::SlippageExceeded))
                },
            }
        },
    }
}

/// When quoting all of the desired A overshoots the desired B, the flipped
/// quote stays within the desired A: the optimizer never exceeds either
/// desired amount.
proof fn lemma_flip_quote_bounded(
    token_a_amount_desired: int,
    token_b_amount_desired: int,
    token_a_reserves: int,
    token_b_reserves: int,
)
    requires
        token_a_reserves > 0,
        token_b_reserves > 0,
        token_a_amount_desired >= 0,
        token_b_amount_desired >= 0,
        quote_value(token_a_amount_desired, token_a_reserves, token_b_reserves)
            > token_b_amount_desired,
    ensures
        quote_value(token_b_amount_desired, token_b_reserves, token_a_reserves)
            <= token_a_amount_desired,
{
    let da = token_a_amount_desired;
    let db = token_b_amount_desired;
    let ra = token_a_reserves;
    let rb = token_b_reserves;
    let q1 = da * rb / ra;
    let q2 = db * ra / rb;
    vstd::arithmetic::div_mod::lemma_fundamental_div_mod(da * rb, ra);
    vstd::arithmetic::div_mod::lemma_mod_bound(da * rb, ra);
    vstd::arithmetic::div_mod::lemma_fundamental_div_mod(db * ra, rb);
    vstd::arithmetic::div_mod::lemma_mod_bound(db * ra, rb);
    assert(q2 <= da) by (nonlinear_arith)
        requires
            ra > 0,
            rb > 0,
            da >= 0,
            db >= 0,
            q1 > db,
            da * rb == ra * q1 + (da * rb) % ra,
            0 <= (da * rb) % ra < ra,
            db * ra == rb * q2 + (db * ra) % rb,
            0 <= (db * ra) % rb < rb,
    ;
}

/// Calculates deposit amounts that keep the pool's current reserve ratio
/// (up to integer truncation) while maximizing the deposit within the
/// caller's desired and minimum amounts. One side of the result is always a
/// desired amount and the other its quoted counterpart, so the deposit
/// never exceeds either desired amount.
pub fn optimize_deposit_amounts(
    token_a_amount_desired: u128,
    token_b_amount_desired: u128,
    token_a_amount_min: u128,
    token_b_amount_min: u128,
    token_a_reserves: u128,
    token_b_reserves: u128,
) -> (r: Result<(u128, u128), PoolError>)
    ensures
        r == optimize_deposit_spec(
            token_a_amount_desired,
            token_b_amount_desired,
            token_a_amount_min,
            token_b_amount_min,
            token_a_reserves,
            token_b_reserves,
        ),
        r matches Ok(amounts) ==> amounts.0 <= token_a_amount_desired && amounts.1
            <= token_b_amount_desired,
        r matches Ok(amounts) ==> token_a_reserves > 0 && token_b_reserves > 0,
        r matches Ok(amounts) ==> amounts.1 == quote_value(
            amounts.0 as int,
            token_a_reserves as int,
            token_b_reserves as int,
        ) || amounts.0 == quote_value(
            amounts.1 as int,
            token_b_reserves as int,
            token_a_reserves as int,
        ),
{
    let token_b_optimal_amount = match quote(
        token_a_amount_desired,
        token_a_reserves,
        token_b_reserves,
    ) {
        Err(e) => {
            return Err(e);
        },
        Ok(amount) => amount,
    };
    if token_b_optimal_amount <= token_b_amount_desired {
        if token_b_optimal_amount >= token_b_amount_min {
            Ok((token_a_amount_desired, token_b_optimal_amount))
        } else {
            Err(PoolError::Amm(AmmError::SlippageExceeded))
        }
    } else {
        let token_a_optimal_amount = match quote(
            token_b_amount_desired,
            token_b_reserves,
            token_a_reserves,
        ) {
            Err(e) => {
                return Err(e);
            },
            Ok(amount) => amount,
        };
        proof {
            lemma_flip_quote_bounded(
                token_a_amount_desired as int,
                token_b_amount_desired as int,
                token_a_reserves as int,
                token_b_reserves as int,
            );
        }
        if token_a_optimal_amount >= token_a_amount_min {
            Ok((token_a_optimal_amount, token_b_amount_desired))
        } else {
            Err(PoolError::Amm(AmmError::SlippageExceeded))
        }
    }
}

/// The first deposit into an empty pool: ratio preservation is undefined,
/// so the full desired amounts are accepted as-is. The initial share mint
/// is the integer square root of the deposited product; it must exceed the
/// minimum-liquidity floor, which is minted to the unspendable sink.
pub open spec fn deposit_seed_spec(
    pool: LiquidityPool,
    token_a_amount_desired: u64,
    token_b_amount_desired: u64,
) -> Result<(LiquidityPool, DepositEffects), PoolError> {
    let shares = sqrt_floor((token_a_amount_desired * token_b_amount_desired) as nat);
    if shares <= MINIMUM_LIQUIDITY {
        Err(PoolError::Amm(AmmError::InsufficientInitialLiquidity))
    } else if pool.token_a_reserves + token_a_amount_desired > u64::MAX {
        Err(PoolError::Math(MathError::Overflow))
    } else if pool.token_b_reserves + token_b_amount_desired > u64::MAX {
        Err(PoolError::Math(MathError::Overflow))
    } else {
        let new_reserve_a = (pool.token_a_reserves + token_a_amount_desired) as u64;
        let new_reserve_b = (pool.token_b_reserves + token_b_amount_desired) as u64;
        Ok(
            (
                LiquidityPool {
                    token_a_reserves: new_reserve_a,
                    token_b_reserves: new_reserve_b,
                    k_last: (new_reserve_a * new_reserve_b) as u128,
                    ..pool
                },
                DepositEffects {
                    token_a_deposit: token_a_amount_desired,
                    token_b_deposit: token_b_amount_desired,
                    lp_to_depositor: (shares - MINIMUM_LIQUIDITY) as u64,
                    lp_to_lock: MINIMUM_LIQUIDITY,
                    lp_to_protocol: 0,
                },
            ),
        )
    }
}

/// A deposit into an active pool: protocol fees accrue first (they dilute
/// the share supply), then the optimizer picks ratio-preserving amounts,
/// and the depositor is minted shares in proportion to the token A amount
/// against the token A reserve.
pub open spec fn deposit_active_spec(
    pool: LiquidityPool,
    lp_supply: u64,
    token_a_amount_desired: u64,
    token_b_amount_desired: u64,
    token_a_amount_min: u64,
    token_b_amount_min: u64,
) -> Result<(LiquidityPool, DepositEffects), PoolError> {
    let fee = protocol_fee_value(
        pool.token_a_reserves as nat,
        pool.token_b_reserves as nat,
        pool.k_last as nat,
        lp_supply as nat,
    );
    if lp_supply + fee > u64::MAX {
        Err(PoolError::Math(MathError::Overflow))
    } else {
        let diluted_supply = lp_supply + fee;
        match optimize_deposit_spec(
            token_a_amount_desired as u128,
            token_b_amount_desired as u128,
            token_a_amount_min as u128,
            token_b_amount_min as u128,
            pool.token_a_reserves as u128,
            pool.token_b_reserves as u128,
        ) {
            Err(e) => Err(e),
            Ok(amounts) => {
                let token_a_deposit = amounts.0;
                let token_b_deposit = amounts.1;
                if token_a_deposit > u64::MAX || token_b_deposit > u64::MAX {
                    Err(PoolError::Math(MathError::Overflow))
                } else {
                    let minted = token_a_deposit * diluted_supply / (
                    pool.token_a_reserves as int);
                    if minted > u64::MAX {
                        Err(PoolError::Math(MathError::Overflow))
                    } else if pool.token_a_reserves + token_a_deposit > u64::MAX {
                        Err(PoolError::Math(MathError::Overflow))
                    } else if pool.token_b_reserves + token_b_deposit > u64::MAX {
                        Err(PoolError::Math(MathError::Overflow))
                    } else {
                        let new_reserve_a = (pool.token_a_reserves + token_a_deposit) as u64;
                        let new_reserve_b = (pool.token_b_reserves + token_b_deposit) as u64;
                        Ok(
                            (
                                LiquidityPool {
                                    token_a_reserves: new_reserve_a,
                                    token_b_reserves: new_reserve_b,
                                    k_last: (new_reserve_a * new_reserve_b) as u128,
                                    ..pool
                                },
                                DepositEffects {
                                    token_a_deposit: token_a_deposit as u64,
                                    token_b_deposit: token_b_deposit as u64,
                                    lp_to_depositor: minted as u64,
                                    lp_to_lock: 0,
                                    lp_to_protocol: fee as u64,
                                },
                            ),
                        )
                    }
                }
            },
        }
    }
}

/// What `deposit` does on each input.
pub open spec fn deposit_spec(
    pool: LiquidityPool,
    lp_supply: u64,
    token_a_amount_desired: u64,
    token_b_amount_desired: u64,
    token_a_amount_min: u64,
    token_b_amount_min: u64,
    now: i64,
    expiration: i64,
) -> Result<(LiquidityPool, DepositEffects), PoolError> {
    if token_a_amount_desired == 0 || token_b_amount_desired == 0 {
        Err(PoolError::Amm(AmmError::ZeroAmount))
    } else if expiration <= now {
        Err(PoolError::Amm(AmmError::DeadlineExceeded))
    } else if lp_supply == 0 {
        deposit_seed_spec(pool, token_a_amount_desired, token_b_amount_desired)
    } else {
        deposit_active_spec(
            pool,
            lp_supply,
            token_a_amount_desired,
            token_b_amount_desired,
            token_a_amount_min,
            token_b_amount_min,
        )
    }
}

/// Deposits paired assets into the pool: one atomic state transition.
///
/// `lp_supply` is the externally observed share supply and `now` the
/// current time; the returned effects are the transfers and mints the
/// ledger must apply. On any error the record is left untouched.
pub fn deposit(
    pool: &mut LiquidityPool,
    lp_supply: u64,
    token_a_amount_desired: u64,
    token_b_amount_desired: u64,
    token_a_amount_min: u64,
    token_b_amount_min: u64,
    now: i64,
    expiration: i64,
) -> (r: Result<DepositEffects, PoolError>)
    ensures
        (match deposit_spec(
            *old(pool),
            lp_supply,
            token_a_amount_desired,
            token_b_amount_desired,
            token_a_amount_min,
            token_b_amount_min,
            now,
            expiration,
        ) {
            Ok(outcome) => r == Ok::<DepositEffects, PoolError>(outcome.1) && *final(pool)
                == outcome.0,
            Err(e) => r == Err::<DepositEffects, PoolError>(e) && *final(pool) == *old(pool),
        }),
{
    if token_a_amount_desired == 0 || token_b_amount_desired == 0 {
        return Err(PoolError::Amm(AmmError::ZeroAmount));
    }
    if expiration <= now {
        return Err(PoolError::Amm(AmmError::DeadlineExceeded));
    }
    if lp_supply == 0 {
        proof {
            assert((token_a_amount_desired as int) * (token_b_amount_desired as int) <= u128::MAX)
                by (nonlinear_arith)
                requires
                    token_a_amount_desired <= u64::MAX,
                    token_b_amount_desired <= u64::MAX,
            ;
        }
        let product = (token_a_amount_desired as u128) * (token_b_amount_desired as u128);
        let shares = isqrt(product);
        proof {
            assert(0x1_0000_0000_0000_0000int * 0x1_0000_0000_0000_0000int > u128::MAX);
            lemma_sqrt_floor_bound(product as nat, 0x1_0000_0000_0000_0000nat);
        }
        if shares <= MINIMUM_LIQUIDITY as u128 {
            return Err(PoolError::Amm(AmmError::InsufficientInitialLiquidity));
        }
        let new_reserve_a = match pool.token_a_reserves.checked_add(token_a_amount_desired) {
            None => {
                return Err(PoolError::Math(MathError::Overflow));
            },
            Some(sum) => sum,
        };
        let new_reserve_b = match pool.token_b_reserves.checked_add(token_b_amount_desired) {
            None => {
                return Err(PoolError::Math(MathError::Overflow));
            },
            Some(sum) => sum,
        };
        proof {
            assert((new_reserve_a as int) * (new_reserve_b as int) <= u128::MAX)
                by (nonlinear_arith)
                requires
                    new_reserve_a <= u64::MAX,
                    new_reserve_b <= u64::MAX,
            ;
        }
        pool.token_a_reserves = new_reserve_a;
        pool.token_b_reserves = new_reserve_b;
        pool.k_last = (new_reserve_a as u128) * (new_reserve_b as u128);
        return Ok(
            DepositEffects {
                token_a_deposit: token_a_amount_desired,
                token_b_deposit: token_b_amount_desired,
                lp_to_depositor: (shares as u64) - MINIMUM_LIQUIDITY,
                lp_to_lock: MINIMUM_LIQUIDITY,
                lp_to_protocol: 0,
            },
        );
    }
    let fee = protocol_fee_shares(
        pool.token_a_reserves,
        pool.token_b_reserves,
        pool.k_last,
        lp_supply,
    );
    let diluted_supply = match lp_supply.checked_add(fee) {
        None => {
            return Err(PoolError::Math(MathError::Overflow));
        },
        Some(sum) => sum,
    };
    let amounts = match optimize_deposit_amounts(
        token_a_amount_desired as u128,
        token_b_amount_desired as u128,
        token_a_amount_min as u128,
        token_b_amount_min as u128,
        pool.token_a_reserves as u128,
        pool.token_b_reserves as u128,
    ) {
        Err(e) => {
            return Err(e);
        },
        Ok(amounts) => amounts,
    };
    let (token_a_deposit, token_b_deposit) = amounts;
    if token_a_deposit > u64::MAX as u128 || token_b_deposit > u64::MAX as u128 {
        return Err(PoolError::Math(MathError::Overflow));
    }
    proof {
        assert((token_a_deposit as int) * (diluted_supply as int) <= u128::MAX)
            by (nonlinear_arith)
            requires
                token_a_deposit <= u64::MAX,
                diluted_supply <= u64::MAX,
        ;
    }
    let minted = token_a_deposit * (diluted_supply as u128) / (pool.token_a_reserves as u128);
    if minted > u64::MAX as u128 {
        return Err(PoolError::Math(MathError::Overflow));
    }
    let new_reserve_a = match pool.token_a_reserves.checked_add(token_a_deposit as u64) {
        None => {
            return Err(PoolError::Math(MathError::Overflow));
        },
        Some(sum) => sum,
    };
    let new_reserve_b = match pool.token_b_reserves.checked_add(token_b_deposit as u64) {
        None => {
            return Err(PoolError::Math(MathError::Overflow));
        },
        Some(sum) => sum,
    };
    proof {
        assert((new_reserve_a as int) * (new_reserve_b as int) <= u128::MAX)
            by (nonlinear_arith)
            requires
                new_reserve_a <= u64::MAX,
                new_reserve_b <= u64::MAX,
        ;
    }
    pool.token_a_reserves = new_reserve_a;
    pool.token_b_reserves = new_reserve_b;
    pool.k_last = (new_reserve_a as u128) * (new_reserve_b as u128);
    Ok(
        DepositEffects {
            token_a_deposit: token_a_deposit as u64,
            token_b_deposit: token_b_deposit as u64,
            lp_to_depositor: minted as u64,
            lp_to_lock: 0,
            lp_to_protocol: fee,
        },
    )
}

} // verus!
