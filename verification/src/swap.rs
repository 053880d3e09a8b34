//! Swap orchestration: fee split, pricing, and reserve updates for both
//! fixed-input and fixed-output trades, plus their read-only estimates.

use vstd::prelude::*;
use crate::Error;
use crate::fees::{FEE_DENOMINATOR, FeeConfig};
use crate::math::{
    lemma_div_at_most, lemma_div_bounds, lemma_div_ceil_bounds, lemma_div_lt, spec_div_ceil,
};
use crate::pool::PoolState;
use crate::pricing::{
    amount_in_for_fixed_output, amount_out_for_fixed_input, spec_amount_in, spec_amount_out,
    spec_lp_fee, spec_net_amount, spec_platform_fee, split_fee,
};

verus! {

/// What a fixed-input swap pays out and charges.
#[derive(Clone, Copy, Debug, PartialEq, Eq, Structural)]
pub struct SwapOutcome {
    /// Amount of the outgoing asset bought.
    pub amount_out: u64,
    /// Fee share retained by the reserves for liquidity providers.
    pub lp_fee_amount: u64,
    /// Fee share owed to the platform receiver, in the incoming asset.
    pub platform_fee_amount: u64,
}

/// What a fixed-output swap requires and charges.
#[derive(Clone, Copy, Debug, PartialEq, Eq, Structural)]
pub struct FixedOutputOutcome {
    /// Gross incoming amount the trader must pay, fees included.
    pub amount_in_required: u64,
    /// Fee share retained by the reserves for liquidity providers.
    pub lp_fee_amount: u64,
    /// Fee share owed to the platform receiver, in the incoming asset.
    pub platform_fee_amount: u64,
}

/// Read-only mirror of a fixed-input swap.
#[derive(Clone, Copy, Debug, PartialEq, Eq, Structural)]
pub struct EstimateAmountOut {
    /// What the trade would pay out.
    pub net_amount_out: u64,
    /// Fee share the reserves would retain.
    pub lp_fee_amount: u64,
    /// Fee share the platform receiver would collect.
    pub platform_fee_amount: u64,
}

/// Read-only mirror of a fixed-output swap.
#[derive(Clone, Copy, Debug, PartialEq, Eq, Structural)]
pub struct EstimateAmountIn {
    /// Gross incoming amount the trade would require.
    pub amount_in: u64,
    /// Fee share the reserves would retain.
    pub lp_fee_amount: u64,
    /// Fee share the platform receiver would collect.
    pub platform_fee_amount: u64,
}

/// Law: a fixed-input swap never shrinks the reserve product. The incoming
/// side keeps the whole net amount while the curve prices only its
/// fee-discounted part, so retained fees accrue to the product.
pub proof fn lemma_input_swap_grows_product(r_in: int, r_out: int, amount_in: int, lp_bps: int, platform_bps: int)
    requires
        1 <= r_in,
        1 <= r_out,
        0 <= amount_in,
        0 <= lp_bps,
        0 <= platform_bps,
        lp_bps + platform_bps < FEE_DENOMINATOR,
    ensures
        ({
            let net = spec_net_amount(amount_in, platform_bps);
            let out = spec_amount_out(net, r_in, r_out, lp_bps + platform_bps);
            &&& 0 <= out < r_out
            &&& 0 <= net <= amount_in
            &&& (r_in + net) * (r_out - out) >= r_in * r_out
        }),
{
    let m = FEE_DENOMINATOR as int;
    let g = m - lp_bps - platform_bps;
    assert(0 <= amount_in * platform_bps && amount_in * platform_bps <= m * amount_in) by (nonlinear_arith)
        requires
            0 <= amount_in,
            0 <= platform_bps <= m,
    ;
    lemma_div_bounds(amount_in * platform_bps, m);
    lemma_div_at_most(amount_in * platform_bps, m, amount_in);
    let net = spec_net_amount(amount_in, platform_bps);
    assert(0 <= net * g && net * g <= m * net) by (nonlinear_arith)
        requires
            0 <= net,
            0 <= g <= m,
    ;
    lemma_div_bounds(net * g, m);
    lemma_div_at_most(net * g, m, net);
    let h = net * g / m;
    assert(0 <= h * r_out) by (nonlinear_arith)
        requires
            0 <= h,
            0 <= r_out,
    ;
    lemma_div_bounds(h * r_out, r_in + h);
    assert(h * r_out < (r_in + h) * r_out) by (nonlinear_arith)
        requires
            0 <= h,
            1 <= r_in,
            1 <= r_out,
    ;
    lemma_div_lt(h * r_out, r_in + h, r_out);
    let out = spec_amount_out(net, r_in, r_out, lp_bps + platform_bps);
    assert((r_in + net) * (r_out - out) >= r_in * r_out) by (nonlinear_arith)
        requires
            (r_in + h) * out <= h * r_out,
            h <= net,
            0 <= h,
            0 <= out,
            out < r_out,
            1 <= r_in,
    ;
}

/// Law: a fixed-output swap never shrinks the reserve product. The gross
/// input is rounded up and only the platform cut leaves, so what the
/// incoming side keeps covers the curve inverse of the output.
pub proof fn lemma_output_swap_grows_product(r_in: int, r_out: int, amount_out: int, lp_bps: int, platform_bps: int)
    requires
        1 <= r_in,
        0 <= amount_out < r_out,
        0 <= lp_bps,
        0 <= platform_bps,
        lp_bps + platform_bps < FEE_DENOMINATOR,
    ensures
        ({
            let gross = spec_amount_in(amount_out, r_in, r_out, lp_bps + platform_bps);
            let net = spec_net_amount(gross, platform_bps);
            &&& 0 <= net <= gross
            &&& (r_in + net) * (r_out - amount_out) >= r_in * r_out
        }),
{
    let m = FEE_DENOMINATOR as int;
    let g = m - lp_bps - platform_bps;
    assert(0 <= r_in * amount_out) by (nonlinear_arith)
        requires
            0 <= r_in,
            0 <= amount_out,
    ;
    lemma_div_ceil_bounds(r_in * amount_out, r_out - amount_out);
    let c1 = spec_div_ceil(r_in * amount_out, r_out - amount_out);
    assert(0 <= c1 * m) by (nonlinear_arith)
        requires
            0 <= c1,
            0 <= m,
    ;
    lemma_div_ceil_bounds(c1 * m, g);
    let gross = spec_amount_in(amount_out, r_in, r_out, lp_bps + platform_bps);
    assert(0 <= gross * platform_bps && gross * platform_bps <= m * gross) by (nonlinear_arith)
        requires
            0 <= gross,
            0 <= platform_bps <= m,
    ;
    lemma_div_bounds(gross * platform_bps, m);
    lemma_div_at_most(gross * platform_bps, m, gross);
    let net = spec_net_amount(gross, platform_bps);
    assert(net >= c1) by (nonlinear_arith)
        requires
            m * (gross * platform_bps / m) <= gross * platform_bps,
            net == gross - gross * platform_bps / m,
            c1 * m <= g * gross,
            g == m - lp_bps - platform_bps,
            0 <= platform_bps,
            0 <= lp_bps,
            0 < m,
            0 <= gross,
            0 <= c1,
    ;
    assert((r_in + net) * (r_out - amount_out) >= r_in * r_out) by (nonlinear_arith)
        requires
            r_in * amount_out <= (r_out - amount_out) * c1,
            net >= c1,
            0 <= c1,
            0 <= amount_out,
            amount_out < r_out,
            1 <= r_in,
    ;
}

/// Fixed-input swap: carves the platform cut off the payment, prices the
/// rest on the curve, keeps the net amount in the incoming reserve and pays
/// the output from the outgoing reserve.
pub fn swap_fixed_input(pool: &mut PoolState, cfg: &FeeConfig, amount_in: u64, first_token_in: bool) -> (r:
    Result<SwapOutcome, Error>)
    requires
        old(pool).well_formed(),
        cfg.well_formed(),
    ensures
        final(pool).well_formed(),
        (r == Err::<SwapOutcome, Error>(Error::PoolNotInitialized) <==> !old(pool).is_seeded()),
        (r == Err::<SwapOutcome, Error>(Error::InvalidAmount) <==> (old(pool).is_seeded() && amount_in == 0)),
        (r == Err::<SwapOutcome, Error>(Error::AmountOverflow) <==> (old(pool).is_seeded() && amount_in > 0
            && old(pool).spec_reserve_in(first_token_in)
                + spec_net_amount(amount_in as int, cfg.platform_fee_bps as int) > u64::MAX)),
        (r matches Err(e) ==> (e == Error::PoolNotInitialized || e == Error::InvalidAmount
            || e == Error::AmountOverflow) && *final(pool) == *old(pool)),
        (r matches Ok(o) ==> ({
            let r_in = old(pool).spec_reserve_in(first_token_in) as int;
            let r_out = old(pool).spec_reserve_out(first_token_in) as int;
            let net = spec_net_amount(amount_in as int, cfg.platform_fee_bps as int);
            let out = spec_amount_out(net, r_in, r_out, cfg.spec_total_fee_bps());
            &&& old(pool).is_seeded() && amount_in > 0
            &&& o.amount_out == out
            &&& o.platform_fee_amount == spec_platform_fee(amount_in as int, cfg.platform_fee_bps as int)
            &&& o.lp_fee_amount == spec_lp_fee(amount_in as int, cfg.lp_fee_bps as int, cfg.platform_fee_bps as int)
            &&& final(pool).spec_reserve_in(first_token_in) == r_in + net
            &&& final(pool).spec_reserve_out(first_token_in) == r_out - out
            &&& final(pool).spec_reserve_out(first_token_in) > 0
            &&& final(pool).share_supply == old(pool).share_supply
            &&& final(pool).reserve_product() >= old(pool).reserve_product()
        })),
{
    if pool.share_supply == 0 {
        return Err(Error::PoolNotInitialized);
    }
    if amount_in == 0 {
        return Err(Error::InvalidAmount);
    }
    let r_in: u64 = pool.reserve_in(first_token_in);
    let r_out: u64 = pool.reserve_out(first_token_in);
    let fee_parts: (u64, u64, u64) = split_fee(amount_in, cfg.lp_fee_bps, cfg.platform_fee_bps);
    let net: u64 = fee_parts.2;
    if r_in > u64::MAX - net {
        return Err(Error::AmountOverflow);
    }
    let out: u64 = amount_out_for_fixed_input(net, r_in, r_out, cfg.total_fee_bps());
    proof {
        lemma_input_swap_grows_product(
            r_in as int,
            r_out as int,
            amount_in as int,
            cfg.lp_fee_bps as int,
            cfg.platform_fee_bps as int,
        );
        assert(pool.reserve_a * pool.reserve_b == r_in * r_out || pool.reserve_a * pool.reserve_b
            == r_out * r_in);
        assert(r_out * r_in == r_in * r_out) by (nonlinear_arith);
        assert(((r_in + net) as int) * ((r_out - out) as int) == ((r_out - out) as int) * ((r_in
            + net) as int)) by (nonlinear_arith);
    }
    if first_token_in {
        pool.reserve_a = r_in + net;
        pool.reserve_b = r_out - out;
    } else {
        pool.reserve_b = r_in + net;
        pool.reserve_a = r_out - out;
    }
    Ok(SwapOutcome {
        amount_out: out,
        lp_fee_amount: fee_parts.0,
        platform_fee_amount: fee_parts.1,
    })
}

/// Fixed-output swap: computes the gross input owed for an exact output,
/// carves the platform cut off it, and applies the same reserve updates as
/// the fixed-input path.
pub fn swap_fixed_output(pool: &mut PoolState, cfg: &FeeConfig, amount_out: u64, first_token_in: bool) -> (r:
    Result<FixedOutputOutcome, Error>)
    requires
        old(pool).well_formed(),
        cfg.well_formed(),
    ensures
        final(pool).well_formed(),
        (r == Err::<FixedOutputOutcome, Error>(Error::PoolNotInitialized) <==> !old(pool).is_seeded()),
        (r == Err::<FixedOutputOutcome, Error>(Error::InvalidAmount) <==> (old(pool).is_seeded()
            && amount_out == 0)),
        (r == Err::<FixedOutputOutcome, Error>(Error::InsufficientLiquidity) <==> (old(pool).is_seeded()
            && amount_out > 0 && amount_out >= old(pool).spec_reserve_out(first_token_in))),
        (r == Err::<FixedOutputOutcome, Error>(Error::AmountOverflow) <==> (old(pool).is_seeded()
            && amount_out > 0 && amount_out < old(pool).spec_reserve_out(first_token_in) && ({
                let r_in = old(pool).spec_reserve_in(first_token_in) as int;
                let r_out = old(pool).spec_reserve_out(first_token_in) as int;
                let gross = spec_amount_in(amount_out as int, r_in, r_out, cfg.spec_total_fee_bps());
                ||| gross > u64::MAX
                ||| r_in + spec_net_amount(gross, cfg.platform_fee_bps as int) > u64::MAX
            }))),
        (r matches Err(e) ==> (e == Error::PoolNotInitialized || e == Error::InvalidAmount
            || e == Error::InsufficientLiquidity || e == Error::AmountOverflow) && *final(pool) == *old(pool)),
        (r matches Ok(o) ==> ({
            let r_in = old(pool).spec_reserve_in(first_token_in) as int;
            let r_out = old(pool).spec_reserve_out(first_token_in) as int;
            let gross = spec_amount_in(amount_out as int, r_in, r_out, cfg.spec_total_fee_bps());
            let net = spec_net_amount(gross, cfg.platform_fee_bps as int);
            &&& old(pool).is_seeded() && 0 < amount_out < r_out
            &&& o.amount_in_required == gross
            &&& o.platform_fee_amount == spec_platform_fee(gross, cfg.platform_fee_bps as int)
            &&& o.lp_fee_amount == spec_lp_fee(gross, cfg.lp_fee_bps as int, cfg.platform_fee_bps as int)
            &&& final(pool).spec_reserve_in(first_token_in) == r_in + net
            &&& final(pool).spec_reserve_out(first_token_in) == r_out - amount_out
            &&& final(pool).spec_reserve_out(first_token_in) > 0
            &&& final(pool).share_supply == old(pool).share_supply
            &&& final(pool).reserve_product() >= old(pool).reserve_product()
        })),
{
    if pool.share_supply == 0 {
        return Err(Error::PoolNotInitialized);
    }
    if amount_out == 0 {
        return Err(Error::InvalidAmount);
    }
    let r_in: u64 = pool.reserve_in(first_token_in);
    let r_out: u64 = pool.reserve_out(first_token_in);
    let gross: u64 = match amount_in_for_fixed_output(amount_out, r_in, r_out, cfg.total_fee_bps()) {
        Ok(g) => g,
        Err(e) => {
            return Err(e);
        },
    };
    let fee_parts: (u64, u64, u64) = split_fee(gross, cfg.lp_fee_bps, cfg.platform_fee_bps);
    let net: u64 = fee_parts.2;
    if r_in > u64::MAX - net {
        return Err(Error::AmountOverflow);
    }
    proof {
        lemma_output_swap_grows_product(
            r_in as int,
            r_out as int,
            amount_out as int,
            cfg.lp_fee_bps as int,
            cfg.platform_fee_bps as int,
        );
        assert(pool.reserve_a * pool.reserve_b == r_in * r_out || pool.reserve_a * pool.reserve_b
            == r_out * r_in);
        assert(r_out * r_in == r_in * r_out) by (nonlinear_arith);
        assert(((r_in + net) as int) * ((r_out - amount_out) as int) == ((r_out - amount_out) as int)
            * ((r_in + net) as int)) by (nonlinear_arith);
    }
    if first_token_in {
        pool.reserve_a = r_in + net;
        pool.reserve_b = r_out - amount_out;
    } else {
        pool.reserve_b = r_in + net;
        pool.reserve_a = r_out - amount_out;
    }
    Ok(FixedOutputOutcome {
        amount_in_required: gross,
        lp_fee_amount: fee_parts.0,
        platform_fee_amount: fee_parts.1,
    })
}

/// Read-only counterpart of `swap_fixed_input`: identical arithmetic, no
/// mutation.
pub fn estimate_amount_out(pool: &PoolState, cfg: &FeeConfig, amount_in: u64, first_token_in: bool) -> (r:
    Result<EstimateAmountOut, Error>)
    requires
        pool.well_formed(),
        cfg.well_formed(),
    ensures
        (r == Err::<EstimateAmountOut, Error>(Error::PoolNotInitialized) <==> !pool.is_seeded()),
        (r == Err::<EstimateAmountOut, Error>(Error::InvalidAmount) <==> (pool.is_seeded() && amount_in == 0)),
        (r == Err::<EstimateAmountOut, Error>(Error::AmountOverflow) <==> (pool.is_seeded() && amount_in > 0
            && pool.spec_reserve_in(first_token_in)
                + spec_net_amount(amount_in as int, cfg.platform_fee_bps as int) > u64::MAX)),
        (r matches Err(e) ==> (e == Error::PoolNotInitialized || e == Error::InvalidAmount
            || e == Error::AmountOverflow)),
        (r matches Ok(o) ==> ({
            let r_in = pool.spec_reserve_in(first_token_in) as int;
            let r_out = pool.spec_reserve_out(first_token_in) as int;
            let net = spec_net_amount(amount_in as int, cfg.platform_fee_bps as int);
            &&& o.net_amount_out == spec_amount_out(net, r_in, r_out, cfg.spec_total_fee_bps())
            &&& o.platform_fee_amount == spec_platform_fee(amount_in as int, cfg.platform_fee_bps as int)
            &&& o.lp_fee_amount == spec_lp_fee(amount_in as int, cfg.lp_fee_bps as int, cfg.platform_fee_bps as int)
        })),
{
    let mut scratch: PoolState = *pool;
    match swap_fixed_input(&mut scratch, cfg, amount_in, first_token_in) {
        Ok(o) => Ok(EstimateAmountOut {
            net_amount_out: o.amount_out,
            lp_fee_amount: o.lp_fee_amount,
            platform_fee_amount: o.platform_fee_amount,
        }),
        Err(e) => Err(e),
    }
}

/// Read-only counterpart of `swap_fixed_output`: identical arithmetic, no
/// mutation.
pub fn estimate_amount_in(pool: &PoolState, cfg: &FeeConfig, amount_out: u64, first_token_in: bool) -> (r:
    Result<EstimateAmountIn, Error>)
    requires
        pool.well_formed(),
        cfg.well_formed(),
    ensures
        (r == Err::<EstimateAmountIn, Error>(Error::PoolNotInitialized) <==> !pool.is_seeded()),
        (r == Err::<EstimateAmountIn, Error>(Error::InvalidAmount) <==> (pool.is_seeded() && amount_out == 0)),
        (r == Err::<EstimateAmountIn, Error>(Error::InsufficientLiquidity) <==> (pool.is_seeded()
            && amount_out > 0 && amount_out >= pool.spec_reserve_out(first_token_in))),
        (r == Err::<EstimateAmountIn, Error>(Error::AmountOverflow) <==> (pool.is_seeded()
            && amount_out > 0 && amount_out < pool.spec_reserve_out(first_token_in) && ({
                let r_in = pool.spec_reserve_in(first_token_in) as int;
                let r_out = pool.spec_reserve_out(first_token_in) as int;
                let gross = spec_amount_in(amount_out as int, r_in, r_out, cfg.spec_total_fee_bps());
                ||| gross > u64::MAX
                ||| r_in + spec_net_amount(gross, cfg.platform_fee_bps as int) > u64::MAX
            }))),
        (r matches Err(e) ==> (e == Error::PoolNotInitialized || e == Error::InvalidAmount
            || e == Error::InsufficientLiquidity || e == Error::AmountOverflow)),
        (r matches Ok(o) ==> ({
            let r_in = pool.spec_reserve_in(first_token_in) as int;
            let r_out = pool.spec_reserve_out(first_token_in) as int;
            let gross = spec_amount_in(amount_out as int, r_in, r_out, cfg.spec_total_fee_bps());
            &&& o.amount_in == gross
            &&& o.platform_fee_amount == spec_platform_fee(gross, cfg.platform_fee_bps as int)
            &&& o.lp_fee_amount == spec_lp_fee(gross, cfg.lp_fee_bps as int, cfg.platform_fee_bps as int)
        })),
{
    let mut scratch: PoolState = *pool;
    match swap_fixed_output(&mut scratch, cfg, amount_out, first_token_in) {
        Ok(o) => Ok(EstimateAmountIn {
            amount_in: o.amount_in_required,
            lp_fee_amount: o.lp_fee_amount,
            platform_fee_amount: o.platform_fee_amount,
        }),
        Err(e) => Err(e),
    }
}

} // verus!
