//! Protocol fee accrual: the checkpointed fee-capture scheme. On every
//! liquidity-changing event a fraction of the swap fees accumulated since
//! the last checkpoint is minted as new shares to the protocol, diluting
//! the other holders instead of transferring reserves.

use crate::sqrt::{isqrt, lemma_sqrt_floor_bound, sqrt_floor};
use vstd::arithmetic::div_mod::*;
use vstd::arithmetic::mul::*;
use vstd::prelude::*;

verus! {

/// The protocol shares owed since the last checkpoint: zero when no
/// baseline is recorded or the invariant did not grow, else
/// `floor(lp_supply * (root_k - root_k_last) / (5 * root_k + root_k_last))`,
/// which captures one sixth of the fee-driven growth in `sqrt(k)`.
pub open spec fn protocol_fee_value(
    token_a_reserves: nat,
    token_b_reserves: nat,
    k_last: nat,
    lp_supply: nat,
) -> nat {
    if k_last == 0 {
        0
    } else {
        let root_k = sqrt_floor(token_a_reserves * token_b_reserves);
        let root_k_last = sqrt_floor(k_last);
        if root_k <= root_k_last {
            0
        } else {
            ((lp_supply * (root_k - root_k_last)) / (5 * root_k + root_k_last) as int) as nat
        }
    }
}

/// The accrued fee shares never reach the pre-accrual supply.
pub proof fn lemma_protocol_fee_bounded(
    token_a_reserves: nat,
    token_b_reserves: nat,
    k_last: nat,
    lp_supply: nat,
)
    ensures
        protocol_fee_value(token_a_reserves, token_b_reserves, k_last, lp_supply) <= lp_supply,
{
    if k_last != 0 {
        let root_k = sqrt_floor(token_a_reserves * token_b_reserves) as int;
        let root_k_last = sqrt_floor(k_last) as int;
        if root_k > root_k_last {
            let supply = lp_supply as int;
            let diff = root_k - root_k_last;
            let denominator = 5 * root_k + root_k_last;
            assert(diff <= denominator);
            lemma_mul_inequality(diff, denominator, supply);
            assert(supply * diff == diff * supply) by (nonlinear_arith);
            assert(denominator * supply == supply * denominator) by (nonlinear_arith);
            lemma_div_is_ordered(supply * diff, supply * denominator, denominator);
            lemma_div_multiples_vanish(supply, denominator);
        }
    }
}

/// Computes the protocol fee shares owed for the growth of the invariant
/// `token_a_reserves * token_b_reserves` over the checkpoint `k_last`,
/// given the current share supply.
///
/// The result is always below `lp_supply`, so no arithmetic here can
/// overflow and no error is surfaced.
pub fn protocol_fee_shares(
    token_a_reserves: u64,
    token_b_reserves: u64,
    k_last: u128,
    lp_supply: u64,
) -> (r: u64)
    ensures
        r == protocol_fee_value(
            token_a_reserves as nat,
            token_b_reserves as nat,
            k_last as nat,
            lp_supply as nat,
        ),
{
    if k_last == 0 {
        return 0;
    }
    proof {
        assert((token_a_reserves as int) * (token_b_reserves as int) <= u128::MAX)
            by (nonlinear_arith)
            requires
                token_a_reserves <= u64::MAX,
                token_b_reserves <= u64::MAX,
        ;
    }
    let k = (token_a_reserves as u128) * (token_b_reserves as u128);
    let root_k = isqrt(k);
    let root_k_last = isqrt(k_last);
    if root_k <= root_k_last {
        return 0;
    }
    proof {
        assert(0x1_0000_0000_0000_0000int * 0x1_0000_0000_0000_0000int > u128::MAX);
        lemma_sqrt_floor_bound(k as nat, 0x1_0000_0000_0000_0000nat);
        lemma_sqrt_floor_bound(k_last as nat, 0x1_0000_0000_0000_0000nat);
        assert((lp_supply as int) * ((root_k - root_k_last) as int) <= u128::MAX)
            by (nonlinear_arith)
            requires
                lp_supply <= u64::MAX,
                0 <= root_k - root_k_last < 0x1_0000_0000_0000_0000int,
        ;
    }
    let numerator = (lp_supply as u128) * (root_k - root_k_last);
    let denominator = 5 * root_k + root_k_last;
    let liquidity = numerator / denominator;
    proof {
        lemma_protocol_fee_bounded(
            token_a_reserves as nat,
            token_b_reserves as nat,
            k_last as nat,
            lp_supply as nat,
        );
    }
    liquidity as u64
}

} // verus!
