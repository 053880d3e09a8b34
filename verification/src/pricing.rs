//! The pure pricing formulas: constant-product output/input amounts with fee
//! deduction, and the split of a swap input into fee shares.
//!
//! Everything here is side-effect free; the swap and liquidity engines apply
//! these results to the pool state.

use vstd::prelude::*;
use crate::Error;
use crate::fees::FEE_DENOMINATOR;
use crate::math::{
    div_ceil_u128, lemma_div_at_least, lemma_div_at_most, lemma_div_bounds,
    lemma_div_ceil_at_least, lemma_div_ceil_at_most, lemma_div_ceil_bounds, lemma_div_lt,
    lemma_div_monotone, lemma_mul_fits_u128, mul_wide, spec_div_ceil,
};

verus! {

/// What remains of an input once the total swap fee is discounted,
/// truncating toward zero so the trader never gains by rounding.
pub open spec fn spec_input_after_fee(amount_in: int, fee_bps: int) -> int {
    amount_in * (FEE_DENOMINATOR - fee_bps) / (FEE_DENOMINATOR as int)
}

/// Output of a fixed-input constant-product swap: the fee-discounted input
/// moved against the reserves, truncating.
pub open spec fn spec_amount_out(amount_in: int, reserve_in: int, reserve_out: int, fee_bps: int) -> int {
    let kept = spec_input_after_fee(amount_in, fee_bps);
    kept * reserve_out / (reserve_in + kept)
}

/// Gross input required for a fixed-output swap: the curve inverse rounded
/// up, then the fee gross-up rounded up, so the trader never underpays.
pub open spec fn spec_amount_in(amount_out: int, reserve_in: int, reserve_out: int, fee_bps: int) -> int {
    let net = spec_div_ceil(reserve_in * amount_out, reserve_out - amount_out);
    spec_div_ceil(net * (FEE_DENOMINATOR as int), FEE_DENOMINATOR - fee_bps)
}

/// The platform's cut of a swap input, truncating so the platform never
/// over-collects.
pub open spec fn spec_platform_fee(amount_in: int, platform_fee_bps: int) -> int {
    amount_in * platform_fee_bps / (FEE_DENOMINATOR as int)
}

/// What is left of a swap input once the platform cut is carved off; only
/// this amount ever enters the reserve calculation.
pub open spec fn spec_net_amount(amount_in: int, platform_fee_bps: int) -> int {
    amount_in - spec_platform_fee(amount_in, platform_fee_bps)
}

/// The liquidity-provider fee: the part of the net input that the
/// constant-product formula withholds from the curve and the reserves keep.
pub open spec fn spec_lp_fee(amount_in: int, lp_fee_bps: int, platform_fee_bps: int) -> int {
    let net = spec_net_amount(amount_in, platform_fee_bps);
    net - spec_input_after_fee(net, lp_fee_bps + platform_fee_bps)
}

/// Computes `spec_amount_out` on machine integers.
///
/// The output is strictly below the outgoing reserve: a swap can never drain
/// the pool.
pub fn amount_out_for_fixed_input(amount_in: u64, reserve_in: u64, reserve_out: u64, fee_bps: u32) -> (r: u64)
    requires
        reserve_in > 0,
        fee_bps < FEE_DENOMINATOR,
    ensures
        r == spec_amount_out(amount_in as int, reserve_in as int, reserve_out as int, fee_bps as int),
        reserve_out > 0 ==> r < reserve_out,
{
    let fee_mult: u32 = FEE_DENOMINATOR - fee_bps;
    let kept_num: u128 = mul_wide(amount_in, fee_mult as u64);
    let kept: u128 = kept_num / (FEE_DENOMINATOR as u128);
    proof {
        assert(amount_in * fee_mult <= FEE_DENOMINATOR * amount_in) by (nonlinear_arith)
            requires
                fee_mult <= FEE_DENOMINATOR,
                0 <= amount_in,
        ;
        lemma_div_at_most(kept_num as int, FEE_DENOMINATOR as int, amount_in as int);
        lemma_div_bounds(kept_num as int, FEE_DENOMINATOR as int);
        lemma_mul_fits_u128(kept as int, reserve_out as int);
    }
    let num: u128 = kept * (reserve_out as u128);
    let den: u128 = (reserve_in as u128) + kept;
    let out: u128 = num / den;
    proof {
        if reserve_out > 0 {
            assert(num < den * reserve_out) by (nonlinear_arith)
                requires
                    num == kept * reserve_out,
                    den == reserve_in + kept,
                    reserve_in >= 1,
                    reserve_out >= 1,
                    kept >= 0,
            ;
            lemma_div_lt(num as int, den as int, reserve_out as int);
        } else {
            assert(num == 0) by (nonlinear_arith)
                requires
                    num == kept * reserve_out,
                    reserve_out == 0,
            ;
            lemma_div_bounds(num as int, den as int);
            lemma_div_at_most(num as int, den as int, 0);
        }
    }
    out as u64
}

/// Computes `spec_amount_in` on machine integers.
///
/// Fails with `InsufficientLiquidity` when the requested output meets or
/// exceeds the outgoing reserve, and with `AmountOverflow` when the required
/// input does not fit a 64-bit amount.
pub fn amount_in_for_fixed_output(amount_out: u64, reserve_in: u64, reserve_out: u64, fee_bps: u32) -> (r: Result<u64, Error>)
    requires
        reserve_in > 0,
        fee_bps < FEE_DENOMINATOR,
    ensures
        (r == Err::<u64, Error>(Error::InsufficientLiquidity) <==> amount_out >= reserve_out),
        (r == Err::<u64, Error>(Error::AmountOverflow) <==> (amount_out < reserve_out
            && spec_amount_in(amount_out as int, reserve_in as int, reserve_out as int, fee_bps as int) > u64::MAX)),
        (r matches Err(e) ==> (e == Error::InsufficientLiquidity || e == Error::AmountOverflow)),
        (r matches Ok(v) ==> amount_out < reserve_out
            && v == spec_amount_in(amount_out as int, reserve_in as int, reserve_out as int, fee_bps as int)),
{
    if amount_out >= reserve_out {
        return Err(Error::InsufficientLiquidity);
    }
    let num: u128 = mul_wide(reserve_in, amount_out);
    let den: u128 = (reserve_out - amount_out) as u128;
    let net: u128 = div_ceil_u128(num, den);
    let m: u128 = FEE_DENOMINATOR as u128;
    let cap: u128 = u128::MAX / m;
    let ghost spec_gross = spec_amount_in(amount_out as int, reserve_in as int, reserve_out as int, fee_bps as int);
    if net > cap {
        proof {
            // the gross-up can only enlarge the curve input, which is
            // already beyond any 64-bit amount
            lemma_div_bounds(u128::MAX as int, m as int);
            assert((FEE_DENOMINATOR - fee_bps) * (net - 1) < net * (FEE_DENOMINATOR as int)) by (nonlinear_arith)
                requires
                    0 < FEE_DENOMINATOR - fee_bps <= (FEE_DENOMINATOR as int),
                    net > 0,
            ;
            lemma_div_ceil_at_least(net * (FEE_DENOMINATOR as int), FEE_DENOMINATOR - fee_bps, net as int - 1);
        }
        return Err(Error::AmountOverflow);
    }
    proof {
        lemma_div_bounds(u128::MAX as int, m as int);
        assert(net * m <= u128::MAX) by (nonlinear_arith)
            requires
                net <= u128::MAX / m,
                m * (u128::MAX / m) <= u128::MAX,
                m > 0,
                net >= 0,
        ;
    }
    let gross: u128 = div_ceil_u128(net * m, (FEE_DENOMINATOR - fee_bps) as u128);
    if gross > u64::MAX as u128 {
        return Err(Error::AmountOverflow);
    }
    Ok(gross as u64)
}

/// Splits a swap input into the liquidity-provider fee, the platform fee,
/// and the net amount that enters the pool formula.
///
/// The platform cut is carved off first; the liquidity-provider fee is the
/// part of the remaining amount that the curve formula withholds and the
/// reserves retain.
pub fn split_fee(amount_in: u64, lp_fee_bps: u32, platform_fee_bps: u32) -> (r: (u64, u64, u64))
    requires
        lp_fee_bps + platform_fee_bps < FEE_DENOMINATOR,
    ensures
        r.0 == spec_lp_fee(amount_in as int, lp_fee_bps as int, platform_fee_bps as int),
        r.1 == spec_platform_fee(amount_in as int, platform_fee_bps as int),
        r.2 == spec_net_amount(amount_in as int, platform_fee_bps as int),
        r.2 == amount_in - r.1,
        r.1 <= amount_in,
        r.0 <= r.2,
{
    let platform_num: u128 = mul_wide(amount_in, platform_fee_bps as u64);
    let platform: u128 = platform_num / (FEE_DENOMINATOR as u128);
    proof {
        assert(amount_in * platform_fee_bps <= FEE_DENOMINATOR * amount_in) by (nonlinear_arith)
            requires
                platform_fee_bps <= FEE_DENOMINATOR,
                0 <= amount_in,
        ;
        lemma_div_at_most(platform_num as int, FEE_DENOMINATOR as int, amount_in as int);
        lemma_div_bounds(platform_num as int, FEE_DENOMINATOR as int);
    }
    let platform64: u64 = platform as u64;
    let net: u64 = amount_in - platform64;
    let total_fee: u32 = lp_fee_bps + platform_fee_bps;
    let kept_num: u128 = mul_wide(net, (FEE_DENOMINATOR - total_fee) as u64);
    let kept: u128 = kept_num / (FEE_DENOMINATOR as u128);
    proof {
        assert(net * (FEE_DENOMINATOR - total_fee) <= FEE_DENOMINATOR * net) by (nonlinear_arith)
            requires
                total_fee < FEE_DENOMINATOR,
                0 <= net,
        ;
        lemma_div_at_most(kept_num as int, FEE_DENOMINATOR as int, net as int);
        lemma_div_bounds(kept_num as int, FEE_DENOMINATOR as int);
    }
    let lp_fee: u64 = net - (kept as u64);
    (lp_fee, platform64, net)
}

/// Law: the fixed-input output amount is monotone in the input amount.
/// A larger payment never buys less.
pub proof fn lemma_amount_out_monotone(a1: int, a2: int, reserve_in: int, reserve_out: int, fee_bps: int)
    requires
        0 <= a1 <= a2,
        1 <= reserve_in,
        0 <= reserve_out,
        0 <= fee_bps < FEE_DENOMINATOR,
    ensures
        spec_amount_out(a1, reserve_in, reserve_out, fee_bps)
            <= spec_amount_out(a2, reserve_in, reserve_out, fee_bps),
{
    let m = FEE_DENOMINATOR as int;
    let g = m - fee_bps;
    let h1 = a1 * g / m;
    let h2 = a2 * g / m;
    assert(a1 * g <= a2 * g) by (nonlinear_arith)
        requires
            a1 <= a2,
            g >= 0,
    ;
    assert(0 <= a1 * g) by (nonlinear_arith)
        requires
            0 <= a1,
            0 <= g,
    ;
    lemma_div_monotone(a1 * g, a2 * g, m);
    lemma_div_bounds(a1 * g, m);
    let out1 = h1 * reserve_out / (reserve_in + h1);
    let out2 = h2 * reserve_out / (reserve_in + h2);
    assert(0 <= h1 * reserve_out) by (nonlinear_arith)
        requires
            0 <= h1,
            0 <= reserve_out,
    ;
    lemma_div_bounds(h1 * reserve_out, reserve_in + h1);
    // out1 never exceeds the outgoing reserve
    assert(h1 * reserve_out <= (reserve_in + h1) * reserve_out) by (nonlinear_arith)
        requires
            0 <= h1,
            1 <= reserve_in,
            0 <= reserve_out,
    ;
    lemma_div_at_most(h1 * reserve_out, reserve_in + h1, reserve_out);
    // shifting the same trade to the larger reserve point keeps the bound
    assert(out1 * (reserve_in + h2) <= h2 * reserve_out) by (nonlinear_arith)
        requires
            (reserve_in + h1) * out1 <= h1 * reserve_out,
            out1 <= reserve_out,
            0 <= out1,
            h1 <= h2,
            0 <= h1,
            0 <= reserve_out,
            1 <= reserve_in,
    ;
    assert(0 <= h2 * reserve_out) by (nonlinear_arith)
        requires
            0 <= h2,
            0 <= reserve_out,
    ;
    assert((reserve_in + h2) * out1 <= h2 * reserve_out) by (nonlinear_arith)
        requires
            out1 * (reserve_in + h2) <= h2 * reserve_out,
    ;
    lemma_div_at_least(h2 * reserve_out, reserve_in + h2, out1);
}

/// Law: fee and rounding never favor the trader across a round trip.
/// Buying back the output of a fixed-input swap costs at most the original
/// input.
pub proof fn lemma_round_trip(amount_in: int, reserve_in: int, reserve_out: int, fee_bps: int)
    requires
        0 < amount_in,
        0 < reserve_in,
        0 < reserve_out,
        0 <= fee_bps < FEE_DENOMINATOR,
    ensures
        spec_amount_out(amount_in, reserve_in, reserve_out, fee_bps) < reserve_out,
        spec_amount_in(
            spec_amount_out(amount_in, reserve_in, reserve_out, fee_bps),
            reserve_in,
            reserve_out,
            fee_bps,
        ) <= amount_in,
{
    let m = FEE_DENOMINATOR as int;
    let g = m - fee_bps;
    let h = amount_in * g / m;
    assert(0 <= amount_in * g) by (nonlinear_arith)
        requires
            0 <= amount_in,
            0 <= g,
    ;
    lemma_div_bounds(amount_in * g, m);
    let out = h * reserve_out / (reserve_in + h);
    assert(0 <= h * reserve_out) by (nonlinear_arith)
        requires
            0 <= h,
            0 <= reserve_out,
    ;
    lemma_div_bounds(h * reserve_out, reserve_in + h);
    assert(h * reserve_out < (reserve_in + h) * reserve_out) by (nonlinear_arith)
        requires
            0 <= h,
            1 <= reserve_in,
            1 <= reserve_out,
    ;
    lemma_div_lt(h * reserve_out, reserve_in + h, reserve_out);
    // the curve inverse of the output stays below the fee-discounted input
    assert(reserve_in * out <= (reserve_out - out) * h) by (nonlinear_arith)
        requires
            (reserve_in + h) * out <= h * reserve_out,
            0 <= out,
            0 <= h,
    ;
    assert(0 <= reserve_in * out) by (nonlinear_arith)
        requires
            0 <= reserve_in,
            0 <= out,
    ;
    lemma_div_ceil_at_most(reserve_in * out, reserve_out - out, h);
    lemma_div_ceil_bounds(reserve_in * out, reserve_out - out);
    let c1 = spec_div_ceil(reserve_in * out, reserve_out - out);
    // the fee gross-up of that inverse stays below the original input
    assert(c1 * m <= g * amount_in) by (nonlinear_arith)
        requires
            c1 <= h,
            m * h <= amount_in * g,
            0 <= c1,
            0 < m,
            0 < g,
    ;
    assert(0 <= c1 * m) by (nonlinear_arith)
        requires
            0 <= c1,
            0 <= m,
    ;
    lemma_div_ceil_at_most(c1 * m, g, amount_in);
}

} // verus!
