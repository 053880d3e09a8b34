use jex_sc_pair::math::{div_ceil_u128, isqrt_u128, mul_wide};
use jex_sc_pair::pricing::{amount_in_for_fixed_output, amount_out_for_fixed_input, split_fee};
use jex_sc_pair::Error;

#[test]
fn isqrt_small_values() {
    assert_eq!(isqrt_u128(0), 0);
    assert_eq!(isqrt_u128(1), 1);
    assert_eq!(isqrt_u128(2), 1);
    assert_eq!(isqrt_u128(3), 1);
    assert_eq!(isqrt_u128(4), 2);
    assert_eq!(isqrt_u128(999_999), 999);
    assert_eq!(isqrt_u128(1_000_000), 1000);
}

#[test]
fn isqrt_large_values() {
    assert_eq!(isqrt_u128(2_000_000_000_000), 1_414_213);
    assert_eq!(isqrt_u128(u128::MAX), u64::MAX);
}

#[test]
fn mul_wide_widens() {
    assert_eq!(mul_wide(u64::MAX, u64::MAX), (u64::MAX as u128) * (u64::MAX as u128));
}

#[test]
fn div_ceil_rounds_up() {
    assert_eq!(div_ceil_u128(0, 7), 0);
    assert_eq!(div_ceil_u128(1, 7), 1);
    assert_eq!(div_ceil_u128(7, 7), 1);
    assert_eq!(div_ceil_u128(8, 7), 2);
    assert_eq!(div_ceil_u128(u128::MAX, 1), u128::MAX);
}

#[test]
fn amount_out_zero_fee_exact() {
    // 1000 * 2_000_000 / (1_000_000 + 1000), truncated
    assert_eq!(amount_out_for_fixed_input(1000, 1_000_000, 2_000_000, 0), 1998);
}

#[test]
fn amount_out_with_fee_exact() {
    // fee-discounted input 9990 * 9960 / 10000 = 9950 moves the curve
    assert_eq!(amount_out_for_fixed_input(9990, 500_000, 500_000, 40), 9755);
}

#[test]
fn amount_out_never_drains_reserve() {
    // a huge trade against a tiny reserve still leaves something
    let out: u64 = amount_out_for_fixed_input(u64::MAX, 1, 5, 0);
    assert!(out < 5);
}

#[test]
fn amount_out_monotone_in_input() {
    let small: u64 = amount_out_for_fixed_input(1000, 1_000_000, 2_000_000, 30);
    let large: u64 = amount_out_for_fixed_input(2000, 1_000_000, 2_000_000, 30);
    assert!(small <= large);
}

#[test]
fn amount_in_inverts_amount_out() {
    // buying back the 1998 costs exactly the original 1000 here
    assert_eq!(amount_in_for_fixed_output(1998, 1_000_000, 2_000_000, 0), Ok(1000));
}

#[test]
fn amount_in_with_fee_exact() {
    // curve inverse 1003 rounded up, then fee gross-up to 1008
    assert_eq!(amount_in_for_fixed_output(1000, 500_000, 500_000, 40), Ok(1008));
}

#[test]
fn amount_in_rejects_reserve_sized_output() {
    assert_eq!(
        amount_in_for_fixed_output(2_000_000, 1_000_000, 2_000_000, 0),
        Err(Error::InsufficientLiquidity)
    );
    assert_eq!(
        amount_in_for_fixed_output(2_000_001, 1_000_000, 2_000_000, 0),
        Err(Error::InsufficientLiquidity)
    );
}

#[test]
fn amount_in_reports_overflow() {
    // draining all but one unit of a huge reserve costs more than any
    // 64-bit amount
    assert_eq!(
        amount_in_for_fixed_output(u64::MAX - 1, u64::MAX, u64::MAX, 0),
        Err(Error::AmountOverflow)
    );
}

#[test]
fn round_trip_never_favors_trader() {
    let cases: [(u64, u64, u64, u32); 4] = [
        (1000, 1_000_000, 2_000_000, 0),
        (1000, 1_000_000, 2_000_000, 40),
        (123_456, 777_777, 333_333, 25),
        (1, 10, 10, 100),
    ];
    for (amount_in, r_in, r_out, fee) in cases {
        let out: u64 = amount_out_for_fixed_input(amount_in, r_in, r_out, fee);
        if out > 0 {
            let back: u64 = amount_in_for_fixed_output(out, r_in, r_out, fee).unwrap();
            assert!(back <= amount_in);
        }
    }
}

#[test]
fn split_fee_exact() {
    // platform 10 bps carved off first, then the 40 bps curve discount on
    // the remaining 9990 yields the 40-unit provider fee
    assert_eq!(split_fee(10_000, 30, 10), (40, 10, 9990));
}

#[test]
fn split_fee_no_fees() {
    assert_eq!(split_fee(12_345, 0, 0), (0, 0, 12_345));
}

#[test]
fn split_fee_platform_truncates() {
    // 999 * 10 / 10_000 truncates to 0: the platform never over-collects
    let (_, platform, net) = split_fee(999, 0, 10);
    assert_eq!(platform, 0);
    assert_eq!(net, 999);
}
