use jex_sc_pair::contract::{JexScPair, JexScPairContract};
use jex_sc_pair::lifecycle::LpTokenState;
use jex_sc_pair::pool::PoolState;
use jex_sc_pair::{Error, Payment};

const TOKEN_A: u64 = 1;
const TOKEN_B: u64 = 2;
const LP_TOKEN: u64 = 77;
const OWNER: u64 = 9;
const FEE_RECEIVER: u64 = 99;

fn ready_contract() -> JexScPair {
    let mut c = JexScPair::init(TOKEN_A, TOKEN_B);
    c.issue_lp_token(OWNER, 5).unwrap();
    let refund = c.lp_token_issue_callback(true, LP_TOKEN);
    assert!(refund.is_none());
    c
}

fn seeded_contract() -> JexScPair {
    let mut c = ready_contract();
    c.add_initial_liquidity(1_000_000, 2_000_000).unwrap();
    c
}

#[test]
fn issuance_happy_path() {
    let mut c = JexScPair::init(TOKEN_A, TOKEN_B);
    assert!(matches!(c.lp_token, LpTokenState::NotIssued));
    c.issue_lp_token(OWNER, 5).unwrap();
    assert!(matches!(c.lp_token, LpTokenState::Pending { .. }));
    assert_eq!(c.issue_lp_token(OWNER, 5), Err(Error::AlreadyInitialized));
    assert!(c.lp_token_issue_callback(true, LP_TOKEN).is_none());
    assert_eq!(c.lp_token, LpTokenState::Issued { token: LP_TOKEN });
    assert_eq!(c.issue_lp_token(OWNER, 5), Err(Error::AlreadyInitialized));
}

#[test]
fn issuance_failure_refunds_payment() {
    let mut c = JexScPair::init(TOKEN_A, TOKEN_B);
    c.issue_lp_token(OWNER, 5).unwrap();
    let refund = c.lp_token_issue_callback(false, 0);
    assert_eq!(refund, Some((OWNER, 5)));
    assert_eq!(c.lp_token, LpTokenState::NotIssued);
    // a failed issuance can be retried
    c.issue_lp_token(OWNER, 0).unwrap();
    let no_refund = c.lp_token_issue_callback(false, 0);
    assert!(no_refund.is_none());
}

#[test]
fn seeding_requires_issued_token() {
    let mut c = JexScPair::init(TOKEN_A, TOKEN_B);
    assert_eq!(c.add_initial_liquidity(1, 1), Err(Error::PoolNotInitialized));
    let mut ready = ready_contract();
    let lp = ready.add_initial_liquidity(1_000_000, 2_000_000).unwrap();
    assert_eq!(lp, Payment { token: LP_TOKEN, amount: 1_414_213 });
    assert_eq!(ready.add_initial_liquidity(1, 1), Err(Error::AlreadyInitialized));
}

#[test]
fn small_swap_without_fees_exact() {
    // seeded with (1_000_000, 2_000_000), no fees: paying 1000 of asset A
    // buys exactly 1000 * 2_000_000 / 1_001_000 truncated
    let mut c = seeded_contract();
    let res = c.swap_tokens_fixed_input(TOKEN_A, 1000, 0).unwrap();
    assert_eq!(res.payment_out, Payment { token: TOKEN_B, amount: 1998 });
    assert_eq!(res.platform_fee_amount, 0);
    assert_eq!(c.pool.reserve_a, 1_001_000);
    assert_eq!(c.pool.reserve_b, 1_998_002);
}

#[test]
fn swap_with_fee_split_exact() {
    // 30 bps provider fee + 10 bps platform fee: 10 units leave for the
    // platform before the curve sees the rest at 40 bps total
    let mut c = ready_contract();
    c.configure_platform_fees(10, FEE_RECEIVER).unwrap();
    c.configure_liq_providers_fees(30).unwrap();
    c.add_initial_liquidity(500_000, 500_000).unwrap();
    let res = c.swap_tokens_fixed_input(TOKEN_A, 10_000, 0).unwrap();
    assert_eq!(res.platform_fee_amount, 10);
    assert_eq!(res.payment_out, Payment { token: TOKEN_B, amount: 9755 });
    assert_eq!(c.pool.reserve_a, 509_990);
    assert_eq!(c.pool.reserve_b, 490_245);
}

#[test]
fn swap_enforces_minimum_out() {
    let mut c = seeded_contract();
    assert_eq!(c.swap_tokens_fixed_input(TOKEN_A, 1000, 1999), Err(Error::SlippageExceeded));
    assert_eq!(c.pool.reserve_a, 1_000_000);
    let res = c.swap_tokens_fixed_input(TOKEN_A, 1000, 1998).unwrap();
    assert_eq!(res.payment_out.amount, 1998);
}

#[test]
fn swap_rejects_foreign_token() {
    let mut c = seeded_contract();
    assert_eq!(c.swap_tokens_fixed_input(5, 1000, 0), Err(Error::InvalidAsset));
    assert_eq!(c.estimate_amount_out(5, 1000), Err(Error::InvalidAsset));
    assert_eq!(c.estimate_amount_in(5, 1000), Err(Error::InvalidAsset));
}

#[test]
fn swap_rejects_unseeded_pool() {
    let mut c = ready_contract();
    assert_eq!(c.swap_tokens_fixed_input(TOKEN_A, 1000, 0), Err(Error::PoolNotInitialized));
}

#[test]
fn fixed_output_swap_refunds_overpayment() {
    let mut c = ready_contract();
    c.configure_platform_fees(10, FEE_RECEIVER).unwrap();
    c.configure_liq_providers_fees(30).unwrap();
    c.add_initial_liquidity(500_000, 500_000).unwrap();
    let res = c.swap_tokens_fixed_output(TOKEN_A, 2000, 1000).unwrap();
    assert_eq!(res.payment_out, Payment { token: TOKEN_B, amount: 1000 });
    assert_eq!(res.refund_in, Payment { token: TOKEN_A, amount: 2000 - 1008 });
    assert_eq!(res.platform_fee_amount, 1);
    assert_eq!(c.pool.reserve_a, 501_007);
    assert_eq!(c.pool.reserve_b, 499_000);
}

#[test]
fn fixed_output_swap_enforces_maximum_in() {
    let mut c = ready_contract();
    c.configure_platform_fees(10, FEE_RECEIVER).unwrap();
    c.configure_liq_providers_fees(30).unwrap();
    c.add_initial_liquidity(500_000, 500_000).unwrap();
    assert_eq!(c.swap_tokens_fixed_output(TOKEN_A, 1007, 1000), Err(Error::SlippageExceeded));
}

#[test]
fn fee_configuration_keeps_total_below_hundred_percent() {
    let mut c = ready_contract();
    assert_eq!(c.configure_liq_providers_fees(10_000), Err(Error::InvalidAmount));
    c.configure_liq_providers_fees(9_990).unwrap();
    assert_eq!(c.configure_platform_fees(10, FEE_RECEIVER), Err(Error::InvalidAmount));
    c.configure_platform_fees(9, FEE_RECEIVER).unwrap();
    assert_eq!(c.fee_config.lp_fee_bps, 9_990);
    assert_eq!(c.fee_config.platform_fee_bps, 9);
    assert_eq!(c.fee_config.platform_fee_receiver, FEE_RECEIVER);
}

#[test]
fn two_sided_deposit_with_minimum() {
    let mut c = seeded_contract();
    let res = c.add_liquidity(500_000, 1_100_000, 1_000_000).unwrap();
    assert_eq!(res.lp_payment, Payment { token: LP_TOKEN, amount: 707_106 });
    assert_eq!(res.amount_b_used, 1_000_000);
    assert_eq!(res.amount_b_refund, 100_000);
    let mut again = seeded_contract();
    assert_eq!(
        again.add_liquidity(500_000, 1_100_000, 1_000_001),
        Err(Error::SlippageExceeded)
    );
}

#[test]
fn single_sided_deposit_exact() {
    let mut c = ready_contract();
    c.configure_platform_fees(10, FEE_RECEIVER).unwrap();
    c.configure_liq_providers_fees(30).unwrap();
    c.add_initial_liquidity(1_000_000, 2_000_000).unwrap();
    let est = c.estimate_add_liquidity_single(TOKEN_A, 100_000).unwrap();
    assert_eq!(est.lp_amount, 68_891);
    let res = c.add_liquidity_single(TOKEN_A, 100_000, 0, 0).unwrap();
    assert_eq!(res.lp_payment, Payment { token: LP_TOKEN, amount: 68_891 });
    assert_eq!(res.platform_fee_amount, 48);
    assert_eq!(c.pool.reserve_a, 1_099_952);
    assert_eq!(c.pool.reserve_b, 2_000_000);
    assert_eq!(c.pool.share_supply, 1_414_213 + 68_891);
}

#[test]
fn single_sided_deposit_enforces_minimums() {
    let mut c = seeded_contract();
    // the deposit's unswapped remainder falls short of the asked minimum
    assert_eq!(
        c.add_liquidity_single(TOKEN_A, 100_000, 100_000, 0),
        Err(Error::SlippageExceeded)
    );
    assert_eq!(c.add_liquidity_single(5, 100_000, 0, 0), Err(Error::InvalidAsset));
}

#[test]
fn withdrawal_full_burn_empties_pool() {
    let mut c = seeded_contract();
    let pair = c
        .remove_liquidity(Payment { token: LP_TOKEN, amount: 1_414_213 }, 0, 0)
        .unwrap();
    assert_eq!((pair.amount_a, pair.amount_b), (1_000_000, 2_000_000));
    assert_eq!(c.pool, PoolState { reserve_a: 0, reserve_b: 0, share_supply: 0 });
}

#[test]
fn withdrawal_rejects_wrong_share_token() {
    let mut c = seeded_contract();
    assert_eq!(
        c.remove_liquidity(Payment { token: TOKEN_A, amount: 10 }, 0, 0),
        Err(Error::InvalidAsset)
    );
}

#[test]
fn withdrawal_enforces_minimums() {
    let mut c = seeded_contract();
    assert_eq!(
        c.remove_liquidity(Payment { token: LP_TOKEN, amount: 141_421 }, 100_000, 0),
        Err(Error::SlippageExceeded)
    );
    let pair = c
        .remove_liquidity(Payment { token: LP_TOKEN, amount: 141_421 }, 99_999, 199_999)
        .unwrap();
    assert_eq!((pair.amount_a, pair.amount_b), (99_999, 199_999));
}

#[test]
fn withdraw_and_swap_to_one_token() {
    let mut c = seeded_contract();
    let res = c
        .remove_liquidity_single(Payment { token: LP_TOKEN, amount: 141_421 }, TOKEN_A, 0, 0)
        .unwrap();
    // 99_999 of asset A kept, the withdrawn 199_999 of asset B swapped
    // against the post-withdrawal reserves for 89_999 more of asset A
    assert_eq!(res.payment_out, Payment { token: TOKEN_A, amount: 189_998 });
    assert_eq!(res.platform_fee_amount, 0);
    assert_eq!(c.pool.reserve_a, 810_002);
    assert_eq!(c.pool.reserve_b, 2_000_000);
    assert_eq!(c.pool.share_supply, 1_272_792);
}

#[test]
fn estimate_remove_liquidity_matches_removal() {
    let c = seeded_contract();
    let est = c.estimate_remove_liquidity(141_421).unwrap();
    assert_eq!((est.eq_first_tokens, est.eq_second_tokens), (99_999, 199_999));
    assert_eq!(c.pool.reserve_a, 1_000_000);
}

#[test]
fn estimate_remove_single_matches_mutating_path() {
    let c = seeded_contract();
    let est = c.estimate_remove_liquidity_single(141_421, TOKEN_A).unwrap();
    assert_eq!((est.eq_first_tokens, est.eq_second_tokens), (189_998, 0));
    let est_b = c.estimate_remove_liquidity_single(141_421, TOKEN_B).unwrap();
    assert_eq!(est_b.eq_first_tokens, 0);
    assert!(est_b.eq_second_tokens > 0);
}

#[test]
fn estimate_remove_single_caps_at_half_supply() {
    let c = seeded_contract();
    assert_eq!(
        c.estimate_remove_liquidity_single(707_107, TOKEN_A),
        Err(Error::InsufficientLiquidity)
    );
}

#[test]
fn estimates_agree_with_swaps() {
    let c = seeded_contract();
    let est_out = c.estimate_amount_out(TOKEN_A, 1000).unwrap();
    assert_eq!(est_out.net_amount_out, 1998);
    let est_in = c.estimate_amount_in(TOKEN_B, 1998).unwrap();
    assert_eq!(est_in.amount_in, 1000);
}

#[test]
fn deposit_reports_overflow_near_reserve_limit() {
    let mut c = ready_contract();
    c.add_initial_liquidity(u64::MAX - 5, u64::MAX - 5).unwrap();
    assert_eq!(c.add_liquidity(10, 10, 0), Err(Error::AmountOverflow));
}

#[test]
fn withdraw_and_swap_rejects_dust_swap_leg() {
    // burning one share withdraws zero of asset A, so there is nothing to
    // swap toward asset B
    let mut c = seeded_contract();
    assert_eq!(
        c.remove_liquidity_single(Payment { token: LP_TOKEN, amount: 1 }, TOKEN_B, 0, 0),
        Err(Error::InvalidAmount)
    );
    assert_eq!(
        c.estimate_remove_liquidity_single(1, TOKEN_B),
        Err(Error::InvalidAmount)
    );
}

#[test]
fn reserves_and_supply_stay_zero_or_positive_together() {
    let mut c = seeded_contract();
    c.swap_tokens_fixed_input(TOKEN_A, 1000, 0).unwrap();
    c.add_liquidity(10_000, 100_000, 0).unwrap();
    assert!(c.pool.reserve_a > 0 && c.pool.reserve_b > 0 && c.pool.share_supply > 0);
    let supply: u64 = c.pool.share_supply;
    c.remove_liquidity(Payment { token: LP_TOKEN, amount: supply }, 0, 0).unwrap();
    assert!(c.pool.reserve_a == 0 && c.pool.reserve_b == 0 && c.pool.share_supply == 0);
}
