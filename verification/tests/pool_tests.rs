use amm_core::deposit::{deposit, optimize_deposit_amounts, DepositEffects};
use amm_core::error::{AmmError, MathError, PoolError};
use amm_core::fees::protocol_fee_shares;
use amm_core::initialize::initialize_pool;
use amm_core::state::LiquidityPool;
use amm_core::swap::{swap, SwapEffects};
use amm_core::sync::{skim, sync, SkimEffects};
use amm_core::withdraw::{withdraw, WithdrawEffects};

fn pool_with(reserve_a: u64, reserve_b: u64, k_last: u128) -> LiquidityPool {
    LiquidityPool {
        token_a_mint: 1,
        token_b_mint: 2,
        token_a_reserves: reserve_a,
        token_b_reserves: reserve_b,
        k_last,
        bump: 255,
    }
}

#[test]
fn initialize_rejects_identical_mints() {
    assert_eq!(
        initialize_pool(7, 7, 255),
        Err(PoolError::Amm(AmmError::IdenticalMints))
    );
}

#[test]
fn initialize_starts_empty() {
    let pool = initialize_pool(1, 2, 255).unwrap();
    assert_eq!(pool.token_a_mint, 1);
    assert_eq!(pool.token_b_mint, 2);
    assert_eq!(pool.token_a_reserves, 0);
    assert_eq!(pool.token_b_reserves, 0);
    assert_eq!(pool.k_last, 0);
    assert_eq!(pool.bump, 255);
}

#[test]
fn optimizer_binds_to_token_a() {
    assert_eq!(
        optimize_deposit_amounts(100_000, 300_000, 0, 0, 1_000_000, 2_000_000),
        Ok((100_000, 200_000))
    );
}

#[test]
fn optimizer_flips_to_token_b() {
    assert_eq!(
        optimize_deposit_amounts(300_000, 100_000, 0, 0, 1_000_000, 2_000_000),
        Ok((50_000, 100_000))
    );
}

#[test]
fn optimizer_slippage_on_token_b_minimum() {
    assert_eq!(
        optimize_deposit_amounts(100_000, 300_000, 0, 200_001, 1_000_000, 2_000_000),
        Err(PoolError::Amm(AmmError::SlippageExceeded))
    );
}

#[test]
fn optimizer_slippage_on_token_a_minimum() {
    assert_eq!(
        optimize_deposit_amounts(300_000, 100_000, 50_001, 0, 1_000_000, 2_000_000),
        Err(PoolError::Amm(AmmError::SlippageExceeded))
    );
}

#[test]
fn seed_deposit_locks_minimum_liquidity() {
    let mut pool = initialize_pool(1, 2, 255).unwrap();
    let effects = deposit(&mut pool, 0, 10_000, 10_000, 0, 0, 0, 1).unwrap();
    assert_eq!(
        effects,
        DepositEffects {
            token_a_deposit: 10_000,
            token_b_deposit: 10_000,
            lp_to_depositor: 9_000,
            lp_to_lock: 1_000,
            lp_to_protocol: 0,
        }
    );
    assert_eq!(pool.token_a_reserves, 10_000);
    assert_eq!(pool.token_b_reserves, 10_000);
    assert_eq!(pool.k_last, 100_000_000);
}

#[test]
fn seed_deposit_rejects_low_liquidity() {
    let mut pool = initialize_pool(1, 2, 255).unwrap();
    let before = pool;
    assert_eq!(
        deposit(&mut pool, 0, 1_000, 1_000, 0, 0, 0, 1),
        Err(PoolError::Amm(AmmError::InsufficientInitialLiquidity))
    );
    assert_eq!(pool, before);
}

#[test]
fn deposit_zero_amount() {
    let mut pool = pool_with(1_000_000, 2_000_000, 0);
    assert_eq!(
        deposit(&mut pool, 1_000_000, 0, 5, 0, 0, 0, 1),
        Err(PoolError::Amm(AmmError::ZeroAmount))
    );
}

#[test]
fn deposit_deadline_exceeded() {
    let mut pool = pool_with(1_000_000, 2_000_000, 0);
    assert_eq!(
        deposit(&mut pool, 1_000_000, 5, 5, 0, 0, 10, 10),
        Err(PoolError::Amm(AmmError::DeadlineExceeded))
    );
}

#[test]
fn active_deposit_preserves_ratio() {
    let mut pool = pool_with(1_000_000, 2_000_000, 0);
    let effects = deposit(&mut pool, 1_000_000, 100_000, 300_000, 0, 0, 0, 1).unwrap();
    assert_eq!(
        effects,
        DepositEffects {
            token_a_deposit: 100_000,
            token_b_deposit: 200_000,
            lp_to_depositor: 100_000,
            lp_to_lock: 0,
            lp_to_protocol: 0,
        }
    );
    assert_eq!(pool.token_a_reserves, 1_100_000);
    assert_eq!(pool.token_b_reserves, 2_200_000);
    assert_eq!(pool.k_last, 1_100_000u128 * 2_200_000u128);
}

#[test]
fn fee_accrual_example() {
    assert_eq!(protocol_fee_shares(32, 32, 900, 1_000), 10);
}

#[test]
fn fee_accrual_without_baseline() {
    assert_eq!(protocol_fee_shares(32, 32, 0, 1_000), 0);
}

#[test]
fn fee_accrual_without_growth() {
    assert_eq!(protocol_fee_shares(30, 30, 900, 1_000), 0);
}

#[test]
fn deposit_accrues_protocol_fee() {
    let mut pool = pool_with(32, 32, 900);
    let effects = deposit(&mut pool, 1_000, 10, 10, 0, 0, 0, 1).unwrap();
    assert_eq!(effects.lp_to_protocol, 10);
    assert_eq!(effects.token_a_deposit, 10);
    assert_eq!(effects.token_b_deposit, 10);
    // The depositor's shares are diluted: 10 * (1000 + 10) / 32.
    assert_eq!(effects.lp_to_depositor, 315);
    assert_eq!(pool.token_a_reserves, 42);
    assert_eq!(pool.token_b_reserves, 42);
    assert_eq!(pool.k_last, 42 * 42);
}

#[test]
fn swap_example_with_standard_fee() {
    let mut pool = pool_with(1_000_000, 1_000_000, 0);
    let effects = swap(&mut pool, 1, 2, 1_000, 900, 997, 1_000, 0, 1).unwrap();
    assert_eq!(
        effects,
        SwapEffects {
            token_0_in: 1_000,
            token_1_out: 996,
        }
    );
    assert_eq!(pool.token_a_reserves, 1_001_000);
    assert_eq!(pool.token_b_reserves, 999_004);
    let old_product = 1_000_000u128 * 1_000_000u128;
    let new_product = pool.token_a_reserves as u128 * pool.token_b_reserves as u128;
    assert!(new_product >= old_product);
}

#[test]
fn swap_opposite_direction() {
    let mut pool = pool_with(1_000_000, 2_000_000, 0);
    let effects = swap(&mut pool, 2, 1, 1_000, 0, 997, 1_000, 0, 1).unwrap();
    assert_eq!(effects.token_1_out, 498);
    assert_eq!(pool.token_a_reserves, 999_502);
    assert_eq!(pool.token_b_reserves, 2_001_000);
}

#[test]
fn swap_accepts_exact_minimum() {
    let mut pool = pool_with(1_000_000, 1_000_000, 0);
    let effects = swap(&mut pool, 1, 2, 1_000, 996, 997, 1_000, 0, 1).unwrap();
    assert_eq!(effects.token_1_out, 996);
}

#[test]
fn swap_slippage_exceeded() {
    let mut pool = pool_with(1_000_000, 1_000_000, 0);
    let before = pool;
    assert_eq!(
        swap(&mut pool, 1, 2, 1_000, 997, 997, 1_000, 0, 1),
        Err(PoolError::Amm(AmmError::SlippageExceeded))
    );
    assert_eq!(pool, before);
}

#[test]
fn swap_zero_amount() {
    let mut pool = pool_with(1_000_000, 1_000_000, 0);
    assert_eq!(
        swap(&mut pool, 1, 2, 0, 0, 997, 1_000, 0, 1),
        Err(PoolError::Amm(AmmError::ZeroAmount))
    );
}

#[test]
fn swap_deadline_exceeded() {
    let mut pool = pool_with(1_000_000, 1_000_000, 0);
    assert_eq!(
        swap(&mut pool, 1, 2, 1_000, 0, 997, 1_000, 5, 5),
        Err(PoolError::Amm(AmmError::DeadlineExceeded))
    );
}

#[test]
fn swap_insufficient_liquidity() {
    let mut pool = pool_with(1_000_000, 1_000_000, 0);
    assert_eq!(
        swap(&mut pool, 1, 2, 1_000, 1_000_000, 997, 1_000, 0, 1),
        Err(PoolError::Amm(AmmError::InsufficientLiquidity))
    );
}

#[test]
fn swap_mint_mismatch() {
    let mut pool = pool_with(1_000_000, 1_000_000, 0);
    assert_eq!(
        swap(&mut pool, 1, 1, 1_000, 0, 997, 1_000, 0, 1),
        Err(PoolError::Amm(AmmError::MintMismatch))
    );
    assert_eq!(
        swap(&mut pool, 9, 1, 1_000, 0, 997, 1_000, 0, 1),
        Err(PoolError::Amm(AmmError::MintMismatch))
    );
}

#[test]
fn swap_zero_fee_denominator() {
    let mut pool = pool_with(1_000_000, 1_000_000, 0);
    assert_eq!(
        swap(&mut pool, 1, 2, 1_000, 0, 997, 0, 0, 1),
        Err(PoolError::Math(MathError::DivisionByZero))
    );
}

#[test]
fn withdraw_proportional_payout() {
    let mut pool = pool_with(10_000, 10_000, 0);
    let effects = withdraw(&mut pool, 10_000, 1_000, 1_000, 1_000, 0, 1).unwrap();
    assert_eq!(
        effects,
        WithdrawEffects {
            token_a_out: 1_000,
            token_b_out: 1_000,
            lp_burned: 1_000,
            lp_to_protocol: 0,
        }
    );
    assert_eq!(pool.token_a_reserves, 9_000);
    assert_eq!(pool.token_b_reserves, 9_000);
    assert_eq!(pool.k_last, 81_000_000);
}

#[test]
fn withdraw_zero_amount() {
    let mut pool = pool_with(10_000, 10_000, 0);
    assert_eq!(
        withdraw(&mut pool, 10_000, 0, 0, 0, 0, 1),
        Err(PoolError::Amm(AmmError::ZeroAmount))
    );
}

#[test]
fn withdraw_deadline_exceeded() {
    let mut pool = pool_with(10_000, 10_000, 0);
    assert_eq!(
        withdraw(&mut pool, 10_000, 1_000, 0, 0, 7, 7),
        Err(PoolError::Amm(AmmError::DeadlineExceeded))
    );
}

#[test]
fn withdraw_slippage_exceeded() {
    let mut pool = pool_with(10_000, 10_000, 0);
    assert_eq!(
        withdraw(&mut pool, 10_000, 1_000, 1_001, 0, 0, 1),
        Err(PoolError::Amm(AmmError::SlippageExceeded))
    );
}

#[test]
fn withdraw_insufficient_liquidity_on_zero_payout() {
    let mut pool = pool_with(10_000, 5, 0);
    assert_eq!(
        withdraw(&mut pool, 10_000, 1_000, 0, 0, 0, 1),
        Err(PoolError::Amm(AmmError::InsufficientLiquidity))
    );
}

#[test]
fn withdraw_division_by_zero_on_empty_supply() {
    let mut pool = pool_with(10_000, 10_000, 0);
    assert_eq!(
        withdraw(&mut pool, 0, 1_000, 0, 0, 0, 1),
        Err(PoolError::Math(MathError::DivisionByZero))
    );
}

#[test]
fn withdraw_accrues_protocol_fee() {
    let mut pool = pool_with(32, 32, 900);
    let effects = withdraw(&mut pool, 1_000, 101, 0, 0, 0, 1).unwrap();
    assert_eq!(effects.lp_to_protocol, 10);
    // Payout against the diluted supply: 32 * 101 / (1000 + 10).
    assert_eq!(effects.token_a_out, 3);
    assert_eq!(effects.token_b_out, 3);
    assert_eq!(pool.token_a_reserves, 29);
    assert_eq!(pool.token_b_reserves, 29);
    assert_eq!(pool.k_last, 841);
}

#[test]
fn withdraw_then_deposit_restores_ratio() {
    let mut pool = pool_with(1_000_000, 2_000_000, 0);
    let burned: u64 = 100_000;
    let out = withdraw(&mut pool, 1_000_000, burned, 0, 0, 0, 1).unwrap();
    assert_eq!(out.token_a_out, 100_000);
    assert_eq!(out.token_b_out, 200_000);
    let supply_after_burn = 1_000_000 - burned;
    let redeposit = deposit(
        &mut pool,
        supply_after_burn,
        out.token_a_out,
        out.token_b_out,
        0,
        0,
        0,
        1,
    )
    .unwrap();
    assert!(redeposit.lp_to_depositor <= burned);
    assert_eq!(redeposit.lp_to_depositor, 100_000);
    assert_eq!(pool.token_a_reserves, 1_000_000);
    assert_eq!(pool.token_b_reserves, 2_000_000);
}

#[test]
fn sync_overwrites_reserves() {
    let mut pool = pool_with(5, 5, 25);
    sync(&mut pool, 7, 9);
    assert_eq!(pool.token_a_reserves, 7);
    assert_eq!(pool.token_b_reserves, 9);
    assert_eq!(pool.k_last, 25);
}

#[test]
fn skim_nothing_when_balances_match() {
    let pool = pool_with(10, 9, 0);
    assert_eq!(
        skim(&pool, 10, 9),
        Err(PoolError::Amm(AmmError::NothingToSkim))
    );
}

#[test]
fn skim_nothing_when_balances_below_reserves() {
    let pool = pool_with(10, 9, 0);
    assert_eq!(
        skim(&pool, 3, 9),
        Err(PoolError::Amm(AmmError::NothingToSkim))
    );
}

#[test]
fn skim_returns_excess() {
    let pool = pool_with(10, 9, 0);
    assert_eq!(
        skim(&pool, 15, 9),
        Ok(SkimEffects {
            token_a_excess: 5,
            token_b_excess: 0,
        })
    );
}
