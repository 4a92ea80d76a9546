//! Pool creation: the one operation that writes the asset identifiers and
//! the authority metadata. A fresh pool starts with zero reserves and no
//! fee-accrual baseline; the first deposit seeds it.

use crate::error::{AmmError, PoolError};
use crate::state::{LiquidityPool, MintId};
use vstd::prelude::*;

verus! {

/// What `initialize_pool` returns on each input.
pub open spec fn initialize_pool_spec(token_a_mint: MintId, token_b_mint: MintId, bump: u8) -> Result<
    LiquidityPool,
    PoolError,
> {
    if token_a_mint == token_b_mint {
        Err(PoolError::Amm(AmmError::IdenticalMints))
    } else {
        Ok(
            LiquidityPool {
                token_a_mint,
                token_b_mint,
                token_a_reserves: 0,
                token_b_reserves: 0,
                k_last: 0,
                bump,
            },
        )
    }
}

/// Creates the record of a new pool over two distinct assets. `bump` is the
/// opaque value the ledger needs to re-derive the pool's signing authority.
pub fn initialize_pool(token_a_mint: MintId, token_b_mint: MintId, bump: u8) -> (r: Result<
    LiquidityPool,
    PoolError,
>)
    ensures
        r == initialize_pool_spec(token_a_mint, token_b_mint, bump),
        r matches Ok(pool) ==> pool.wf(),
{
    if token_a_mint == token_b_mint {
        return Err(PoolError::Amm(AmmError::IdenticalMints));
    }
    Ok(
        LiquidityPool {
            token_a_mint,
            token_b_mint,
            token_a_reserves: 0,
            token_b_reserves: 0,
            k_last: 0,
            bump,
        },
    )
}

} // verus!
