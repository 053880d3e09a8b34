use jex_sc_pair::fees::FeeConfig;
use jex_sc_pair::liquidity::{
    add_initial_liquidity, add_liquidity, add_liquidity_single, remove_liquidity, zap_swap_amount,
};
use jex_sc_pair::pool::PoolState;
use jex_sc_pair::swap::{estimate_amount_out, swap_fixed_input, swap_fixed_output};
use jex_sc_pair::Error;

fn no_fees() -> FeeConfig {
    FeeConfig { lp_fee_bps: 0, platform_fee_bps: 0, platform_fee_receiver: 0 }
}

fn standard_fees() -> FeeConfig {
    FeeConfig { lp_fee_bps: 30, platform_fee_bps: 10, platform_fee_receiver: 7 }
}

fn seeded_pool() -> PoolState {
    PoolState { reserve_a: 1_000_000, reserve_b: 2_000_000, share_supply: 1_414_213 }
}

#[test]
fn seed_mints_geometric_mean() {
    let mut pool = PoolState { reserve_a: 0, reserve_b: 0, share_supply: 0 };
    let shares: u64 = add_initial_liquidity(&mut pool, 1_000_000, 2_000_000).unwrap();
    assert_eq!(shares, 1_414_213);
    assert_eq!(pool, seeded_pool());
}

#[test]
fn seed_rejects_zero_amounts() {
    let mut pool = PoolState { reserve_a: 0, reserve_b: 0, share_supply: 0 };
    assert_eq!(add_initial_liquidity(&mut pool, 0, 5), Err(Error::InvalidAmount));
    assert_eq!(add_initial_liquidity(&mut pool, 5, 0), Err(Error::InvalidAmount));
    assert_eq!(pool.share_supply, 0);
}

#[test]
fn seed_rejects_reseeding() {
    let mut pool = seeded_pool();
    assert_eq!(add_initial_liquidity(&mut pool, 1, 1), Err(Error::AlreadyInitialized));
    assert_eq!(pool, seeded_pool());
}

#[test]
fn deposit_consumes_matching_amount() {
    let mut pool = seeded_pool();
    let outcome = add_liquidity(&mut pool, 500_000, 1_100_000).unwrap();
    assert_eq!(outcome.amount_b_used, 1_000_000);
    assert_eq!(outcome.amount_b_refund, 100_000);
    assert_eq!(outcome.shares_minted, 707_106);
    assert_eq!(pool.reserve_a, 1_500_000);
    assert_eq!(pool.reserve_b, 3_000_000);
    assert_eq!(pool.share_supply, 1_414_213 + 707_106);
}

#[test]
fn deposit_rejects_short_second_payment() {
    let mut pool = seeded_pool();
    assert_eq!(add_liquidity(&mut pool, 500_000, 999_999), Err(Error::SlippageExceeded));
    assert_eq!(pool, seeded_pool());
}

#[test]
fn deposit_rejects_empty_pool() {
    let mut pool = PoolState { reserve_a: 0, reserve_b: 0, share_supply: 0 };
    assert_eq!(add_liquidity(&mut pool, 10, 10), Err(Error::PoolNotInitialized));
}

#[test]
fn withdrawal_pays_pro_rata() {
    let mut pool = PoolState { reserve_a: 100, reserve_b: 200, share_supply: 10 };
    let pair = remove_liquidity(&mut pool, 5).unwrap();
    assert_eq!((pair.amount_a, pair.amount_b), (50, 100));
    assert_eq!(pool, PoolState { reserve_a: 50, reserve_b: 100, share_supply: 5 });
}

#[test]
fn withdrawal_of_whole_supply_empties_pool() {
    let mut pool = seeded_pool();
    let pair = remove_liquidity(&mut pool, 1_414_213).unwrap();
    assert_eq!((pair.amount_a, pair.amount_b), (1_000_000, 2_000_000));
    assert_eq!(pool, PoolState { reserve_a: 0, reserve_b: 0, share_supply: 0 });
}

#[test]
fn withdrawal_rejects_excess_shares() {
    let mut pool = seeded_pool();
    assert_eq!(remove_liquidity(&mut pool, 1_414_214), Err(Error::InsufficientLiquidity));
    assert_eq!(remove_liquidity(&mut pool, 0), Err(Error::InvalidAmount));
    assert_eq!(pool, seeded_pool());
}

#[test]
fn remove_then_add_restores_supply_when_exact() {
    // 100*5 and 200*5 both divide by 10: no rounding anywhere, so the
    // round trip restores the pool exactly
    let mut pool = PoolState { reserve_a: 100, reserve_b: 200, share_supply: 10 };
    let pair = remove_liquidity(&mut pool, 5).unwrap();
    let outcome = add_liquidity(&mut pool, pair.amount_a, pair.amount_b).unwrap();
    assert_eq!(outcome.shares_minted, 5);
    assert_eq!(outcome.amount_b_refund, 0);
    assert_eq!(pool, PoolState { reserve_a: 100, reserve_b: 200, share_supply: 10 });
}

#[test]
fn remove_then_add_never_mints_more() {
    let mut pool = PoolState { reserve_a: 1_000_003, reserve_b: 777_777, share_supply: 881_916 };
    let burned: u64 = 123_457;
    let pair = remove_liquidity(&mut pool, burned).unwrap();
    if let Ok(outcome) = add_liquidity(&mut pool, pair.amount_a, pair.amount_b) {
        assert!(outcome.shares_minted <= burned);
    }
}

#[test]
fn swap_input_moves_reserves_exactly() {
    let mut pool = PoolState { reserve_a: 500_000, reserve_b: 500_000, share_supply: 500_000 };
    let outcome = swap_fixed_input(&mut pool, &standard_fees(), 10_000, true).unwrap();
    assert_eq!(outcome.platform_fee_amount, 10);
    assert_eq!(outcome.lp_fee_amount, 40);
    assert_eq!(outcome.amount_out, 9755);
    assert_eq!(pool.reserve_a, 509_990);
    assert_eq!(pool.reserve_b, 490_245);
    assert_eq!(pool.share_supply, 500_000);
}

#[test]
fn swap_grows_reserve_product() {
    let mut pool = PoolState { reserve_a: 500_000, reserve_b: 500_000, share_supply: 500_000 };
    let before: u128 = (pool.reserve_a as u128) * (pool.reserve_b as u128);
    swap_fixed_input(&mut pool, &standard_fees(), 10_000, true).unwrap();
    let after: u128 = (pool.reserve_a as u128) * (pool.reserve_b as u128);
    assert!(after >= before);
}

#[test]
fn swap_never_drains_outgoing_reserve() {
    let mut pool = PoolState { reserve_a: 1, reserve_b: 1, share_supply: 1 };
    swap_fixed_input(&mut pool, &no_fees(), 1_000_000, true).unwrap();
    assert!(pool.reserve_b > 0);
}

#[test]
fn swap_rejects_zero_and_unseeded() {
    let mut empty = PoolState { reserve_a: 0, reserve_b: 0, share_supply: 0 };
    assert_eq!(swap_fixed_input(&mut empty, &no_fees(), 10, true), Err(Error::PoolNotInitialized));
    let mut pool = seeded_pool();
    assert_eq!(swap_fixed_input(&mut pool, &no_fees(), 0, true), Err(Error::InvalidAmount));
    assert_eq!(pool, seeded_pool());
}

#[test]
fn swap_output_charges_gross_input() {
    let mut pool = PoolState { reserve_a: 500_000, reserve_b: 500_000, share_supply: 500_000 };
    let outcome = swap_fixed_output(&mut pool, &standard_fees(), 1000, true).unwrap();
    assert_eq!(outcome.amount_in_required, 1008);
    assert_eq!(outcome.platform_fee_amount, 1);
    assert_eq!(pool.reserve_a, 501_007);
    assert_eq!(pool.reserve_b, 499_000);
}

#[test]
fn swap_output_rejects_reserve_sized_output() {
    let mut pool = seeded_pool();
    assert_eq!(
        swap_fixed_output(&mut pool, &no_fees(), 2_000_000, true),
        Err(Error::InsufficientLiquidity)
    );
    assert_eq!(pool, seeded_pool());
}

#[test]
fn estimate_matches_swap_without_mutating() {
    let pool = PoolState { reserve_a: 500_000, reserve_b: 500_000, share_supply: 500_000 };
    let est = estimate_amount_out(&pool, &standard_fees(), 10_000, true).unwrap();
    let mut scratch = pool;
    let outcome = swap_fixed_input(&mut scratch, &standard_fees(), 10_000, true).unwrap();
    assert_eq!(est.net_amount_out, outcome.amount_out);
    assert_eq!(est.platform_fee_amount, outcome.platform_fee_amount);
    assert_eq!(est.lp_fee_amount, outcome.lp_fee_amount);
    assert_eq!(pool, PoolState { reserve_a: 500_000, reserve_b: 500_000, share_supply: 500_000 });
}

#[test]
fn zap_at_pool_ratio_swaps_zero() {
    // a one-unit deposit rounds the analytic split to zero: no internal
    // swap, and the same shares as the equivalent two-sided deposit
    let mut pool = seeded_pool();
    let outcome = add_liquidity_single(&mut pool, &no_fees(), 1, true).unwrap();
    assert_eq!(outcome.swap_amount_in, 0);
    assert_eq!(outcome.swap_amount_out, 0);
    assert_eq!(outcome.shares_minted, 1);

    let mut two_sided = seeded_pool();
    let reference = add_liquidity(&mut two_sided, 1, 2).unwrap();
    assert_eq!(reference.shares_minted, outcome.shares_minted);
}

#[test]
fn zap_splits_large_deposit() {
    let mut pool = seeded_pool();
    let outcome = add_liquidity_single(&mut pool, &standard_fees(), 100_000, true).unwrap();
    assert_eq!(outcome.swap_amount_in, 48_906);
    assert_eq!(outcome.platform_fee_amount, 48);
    assert_eq!(outcome.swap_amount_out, 92_807);
    assert_eq!(outcome.shares_minted, 68_891);
    assert_eq!(pool.reserve_a, 1_099_952);
    assert_eq!(pool.reserve_b, 2_000_000);
    assert_eq!(pool.share_supply, 1_414_213 + 68_891);
}

#[test]
fn zap_amount_stays_within_deposit() {
    let x: u64 = zap_swap_amount(100_000, 1_000_000, 40).unwrap();
    assert!(x <= 100_000);
    assert_eq!(x, 48_906);
}

#[test]
fn pool_invariant_reserves_and_supply_zero_together() {
    let mut pool = PoolState { reserve_a: 0, reserve_b: 0, share_supply: 0 };
    add_initial_liquidity(&mut pool, 123, 456).unwrap();
    assert!(pool.reserve_a > 0 && pool.reserve_b > 0 && pool.share_supply > 0);
    let supply: u64 = pool.share_supply;
    remove_liquidity(&mut pool, supply).unwrap();
    assert!(pool.reserve_a == 0 && pool.reserve_b == 0 && pool.share_supply == 0);
}
