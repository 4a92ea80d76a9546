//! The persistent pool record: the pool's belief about its reserves, the
//! fee-accrual checkpoint, and the metadata the ledger needs to re-derive
//! the pool's signing authority.

use vstd::prelude::*;

verus! {

/// An opaque identifier of a pooled asset type, as the ledger names it.
pub type MintId = u128;

/// The persistent record of one two-asset liquidity pool.
///
/// The reserves are denominated in each asset's native, non-normalized
/// unit. They track, but may transiently lag, the externally observed vault
/// balances. `k_last` is the value of `reserve_a * reserve_b` recorded at
/// the most recent liquidity-changing event, the checkpoint for protocol
/// fee accrual; zero means no baseline has been recorded yet.
#[derive(Clone, Copy, Debug, PartialEq, Eq, Structural)]
pub struct LiquidityPool {
    pub token_a_mint: MintId,
    pub token_b_mint: MintId,
    pub token_a_reserves: u64,
    pub token_b_reserves: u64,
    pub k_last: u128,
    pub bump: u8,
}

impl LiquidityPool {
    /// The record's invariant: the two asset mints are distinct. It is
    /// established at pool creation and no operation touches the mints.
    pub open spec fn wf(self) -> bool {
        self.token_a_mint != self.token_b_mint
    }
}

} // verus!
