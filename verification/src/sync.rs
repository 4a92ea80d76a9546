//! Reserve synchronization: reconciling the stored reserve figures with the
//! externally observed vault balances. `sync` overwrites unconditionally;
//! `skim` computes the excess a caller may withdraw without touching the
//! share supply.

use crate::error::{AmmError, PoolError};
use crate::state::LiquidityPool;
use vstd::prelude::*;

verus! {

/// The effects a skim asks of the ledger: the excess of each vault over the
/// stored reserve, to be transferred to the caller's destination.
#[derive(Clone, Copy, Debug, PartialEq, Eq, Structural)]
pub struct SkimEffects {
    pub token_a_excess: u64,
    pub token_b_excess: u64,
}

/// Overwrites the stored reserves with the externally observed vault
/// balances, eliminating any drift. Idempotent; never fails.
pub fn sync(pool: &mut LiquidityPool, token_a_balance: u64, token_b_balance: u64)
    ensures
        *final(pool) == (LiquidityPool {
            token_a_reserves: token_a_balance,
            token_b_reserves: token_b_balance,
            ..*old(pool)
        }),
{
    pool.token_a_reserves = token_a_balance;
    pool.token_b_reserves = token_b_balance;
}

/// The excess of an observed balance over a stored reserve; zero when the
/// balance does not exceed the reserve.
pub open spec fn excess_value(reserve: int, balance: int) -> int {
    if balance > reserve {
        balance - reserve
    } else {
        0
    }
}

/// What `skim` returns on each input: the two excesses, or `NothingToSkim`
/// when neither vault holds anything beyond its stored reserve.
pub open spec fn skim_spec(pool: LiquidityPool, token_a_balance: u64, token_b_balance: u64) -> Result<
    SkimEffects,
    PoolError,
> {
    if token_a_balance <= pool.token_a_reserves && token_b_balance <= pool.token_b_reserves {
        Err(PoolError::Amm(AmmError::NothingToSkim))
    } else {
        Ok(
            SkimEffects {
                token_a_excess: excess_value(
                    pool.token_a_reserves as int,
                    token_a_balance as int,
                ) as u64,
                token_b_excess: excess_value(
                    pool.token_b_reserves as int,
                    token_b_balance as int,
                ) as u64,
            },
        )
    }
}

/// Computes the excess of each vault balance over the stored reserve. The
/// ledger withdraws exactly these amounts to the caller's destination; the
/// record itself is untouched, so a skim never changes the share supply or
/// the reserves.
pub fn skim(pool: &LiquidityPool, token_a_balance: u64, token_b_balance: u64) -> (r: Result<
    SkimEffects,
    PoolError,
>)
    ensures
        r == skim_spec(*pool, token_a_balance, token_b_balance),
{
    let token_a_excess = if token_a_balance > pool.token_a_reserves {
        token_a_balance - pool.token_a_reserves
    } else {
        0
    };
    let token_b_excess = if token_b_balance > pool.token_b_reserves {
        token_b_balance - pool.token_b_reserves
    } else {
        0
    };
    if !(token_a_excess > 0 || token_b_excess > 0) {
        return Err(PoolError::Amm(AmmError::NothingToSkim));
    }
    Ok(SkimEffects { token_a_excess, token_b_excess })
}

} // verus!
