//! Invariant-preserving arithmetic core of a constant-product automated
//! market maker: a two-asset liquidity pool that lets parties deposit paired
//! assets, withdraw proportional shares, and swap one asset for another,
//! while the protocol accrues a small fee.
//!
//! The crate holds the pool's pure mathematics and state transitions; moving
//! value between holding accounts, minting and burning the share token, and
//! reading vault balances or the clock are left to the ledger around it.
//! Each operation takes the externally observed values (share supply, vault
//! balances, the time) as plain arguments and returns the effects the ledger
//! must apply.

pub mod deposit;
pub mod error;
pub mod fees;
pub mod initialize;
pub mod laws;
pub mod math;
pub mod precision;
pub mod sqrt;
pub mod state;
pub mod swap;
pub mod sync;
pub mod withdraw;
