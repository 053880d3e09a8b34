//! Share mint/burn accounting: initial seeding, two-sided and single-sided
//! deposits, and withdrawals.

use vstd::prelude::*;
use crate::Error;
use crate::fees::{FEE_DENOMINATOR, FeeConfig};
use crate::math::{
    isqrt_u128, lemma_div_at_most, lemma_div_bounds, lemma_div_exact, lemma_div_lt,
    lemma_mul_fits_u128, lemma_sqrt_is_sqrt, mul_wide, spec_is_sqrt, spec_sqrt,
};
use crate::pool::{AmountPair, PoolState};
use crate::pricing::{
    amount_out_for_fixed_input, spec_amount_out, spec_net_amount, spec_platform_fee, split_fee,
};

verus! {

/// The asset-B amount that matches a fixed asset-A deposit at the pool's
/// current ratio, truncating so the pool never loses ratio value.
pub open spec fn spec_matching_amount_b(reserve_a: int, reserve_b: int, amount_a: int) -> int {
    amount_a * reserve_b / reserve_a
}

/// Shares minted for a deposit of `amount` against the reserve that
/// denominates it, truncating to protect existing holders from dilution.
pub open spec fn spec_shares_for_deposit(reserve: int, share_supply: int, amount: int) -> int {
    amount * share_supply / reserve
}

/// The slice of one reserve paid out for burning `shares`, truncating in
/// the pool's favor.
pub open spec fn spec_withdrawal_amount(reserve: int, shares: int, share_supply: int) -> int {
    reserve * shares / share_supply
}

/// What a two-sided deposit yields and consumes.
#[derive(Clone, Copy, Debug, PartialEq, Eq, Structural)]
pub struct AddLiquidityOutcome {
    /// Pool shares minted to the depositor.
    pub shares_minted: u64,
    /// Asset-B amount actually consumed.
    pub amount_b_used: u64,
    /// Asset-B amount returned to the depositor unconsumed.
    pub amount_b_refund: u64,
}

/// What a single-sided deposit yields, including the internal swap leg that
/// the boundary layer must account for.
#[derive(Clone, Copy, Debug, PartialEq, Eq, Structural)]
pub struct SingleSideOutcome {
    /// Pool shares minted to the depositor.
    pub shares_minted: u64,
    /// The slice of the deposit that was internally swapped.
    pub swap_amount_in: u64,
    /// What the internal swap bought of the other asset.
    pub swap_amount_out: u64,
    /// Platform cut of the internal swap, owed to the fee receiver.
    pub platform_fee_amount: u64,
}

/// Read-only mirror of a single-sided deposit.
#[derive(Clone, Copy, Debug, PartialEq, Eq, Structural)]
pub struct EstimateAddLiquidityOut {
    /// Pool shares the deposit would mint.
    pub lp_amount: u64,
}

/// Read-only mirror of a withdrawal, or of a withdraw-and-swap.
#[derive(Clone, Copy, Debug, PartialEq, Eq, Structural)]
pub struct EstimateRemoveLiquidityOut {
    /// Asset-A amount the caller would receive.
    pub eq_first_tokens: u64,
    /// Asset-B amount the caller would receive.
    pub eq_second_tokens: u64,
}

/// Seeds an empty pool: reserves become the two deposits and the share
/// supply their geometric mean, by integer square root.
pub fn add_initial_liquidity(pool: &mut PoolState, amount_a: u64, amount_b: u64) -> (r: Result<u64, Error>)
    requires
        old(pool).well_formed(),
    ensures
        final(pool).well_formed(),
        (r == Err::<u64, Error>(Error::AlreadyInitialized) <==> old(pool).is_seeded()),
        (r == Err::<u64, Error>(Error::InvalidAmount) <==> (!old(pool).is_seeded() && (amount_a == 0
            || amount_b == 0))),
        (r matches Err(e) ==> (e == Error::AlreadyInitialized || e == Error::InvalidAmount)
            && *final(pool) == *old(pool)),
        (r matches Ok(shares) ==> {
            &&& !old(pool).is_seeded() && amount_a > 0 && amount_b > 0
            &&& spec_is_sqrt(amount_a * amount_b, shares as int)
            &&& shares == spec_sqrt(amount_a * amount_b)
            &&& shares > 0
            &&& *final(pool) == (PoolState {
                reserve_a: amount_a,
                reserve_b: amount_b,
                share_supply: shares,
            })
        }),
{
    if pool.share_supply > 0 {
        return Err(Error::AlreadyInitialized);
    }
    if amount_a == 0 || amount_b == 0 {
        return Err(Error::InvalidAmount);
    }
    let product: u128 = mul_wide(amount_a, amount_b);
    let shares: u64 = isqrt_u128(product);
    proof {
        lemma_sqrt_is_sqrt(product as int, shares as int);
        assert(product >= 1) by (nonlinear_arith)
            requires
                product == amount_a * amount_b,
                amount_a >= 1,
                amount_b >= 1,
        ;
        assert(shares >= 1) by (nonlinear_arith)
            requires
                product < ((shares as int) + 1) * ((shares as int) + 1),
                product >= 1,
                shares >= 0,
        ;
    }
    pool.reserve_a = amount_a;
    pool.reserve_b = amount_b;
    pool.share_supply = shares;
    Ok(shares)
}

/// Two-sided deposit: asset A fixes the scale, the matching asset-B amount
/// is consumed and any excess refunded, and shares are minted pro rata.
pub fn add_liquidity(pool: &mut PoolState, amount_a: u64, amount_b_max: u64) -> (r: Result<
    AddLiquidityOutcome,
    Error,
>)
    requires
        old(pool).well_formed(),
    ensures
        final(pool).well_formed(),
        (r == Err::<AddLiquidityOutcome, Error>(Error::PoolNotInitialized) <==> !old(pool).is_seeded()),
        (r == Err::<AddLiquidityOutcome, Error>(Error::SlippageExceeded) <==> (old(pool).is_seeded()
            && amount_a > 0 && amount_b_max > 0
            && spec_matching_amount_b(old(pool).reserve_a as int, old(pool).reserve_b as int, amount_a as int)
                > amount_b_max)),
        (r == Err::<AddLiquidityOutcome, Error>(Error::AmountOverflow) <==> (old(pool).is_seeded()
            && amount_a > 0 && amount_b_max > 0
            && spec_matching_amount_b(old(pool).reserve_a as int, old(pool).reserve_b as int, amount_a as int)
                <= amount_b_max
            && (old(pool).reserve_a + amount_a > u64::MAX
                || old(pool).reserve_b
                    + spec_matching_amount_b(old(pool).reserve_a as int, old(pool).reserve_b as int, amount_a as int)
                    > u64::MAX
                || old(pool).share_supply
                    + spec_shares_for_deposit(old(pool).reserve_a as int, old(pool).share_supply as int, amount_a as int)
                    > u64::MAX))),
        (r == Err::<AddLiquidityOutcome, Error>(Error::InvalidAmount) <==> (old(pool).is_seeded()
            && (amount_a == 0 || amount_b_max == 0 || ({
                let b_used = spec_matching_amount_b(old(pool).reserve_a as int, old(pool).reserve_b as int, amount_a as int);
                let minted = spec_shares_for_deposit(old(pool).reserve_a as int, old(pool).share_supply as int, amount_a as int);
                &&& amount_a > 0
                &&& amount_b_max > 0
                &&& b_used <= amount_b_max
                &&& old(pool).reserve_a + amount_a <= u64::MAX
                &&& old(pool).reserve_b + b_used <= u64::MAX
                &&& old(pool).share_supply + minted <= u64::MAX
                &&& minted == 0
            })))),
        (r matches Err(e) ==> (e == Error::PoolNotInitialized || e == Error::SlippageExceeded
            || e == Error::AmountOverflow || e == Error::InvalidAmount) && *final(pool) == *old(pool)),
        (r matches Ok(o) ==> ({
            let b_used = spec_matching_amount_b(old(pool).reserve_a as int, old(pool).reserve_b as int, amount_a as int);
            let minted = spec_shares_for_deposit(old(pool).reserve_a as int, old(pool).share_supply as int, amount_a as int);
            &&& old(pool).is_seeded() && amount_a > 0 && amount_b_max > 0
            &&& o.amount_b_used == b_used
            &&& o.shares_minted == minted && minted > 0
            &&& o.amount_b_refund == amount_b_max - b_used
            &&& final(pool).reserve_a == old(pool).reserve_a + amount_a
            &&& final(pool).reserve_b == old(pool).reserve_b + b_used
            &&& final(pool).share_supply == old(pool).share_supply + minted
        })),
{
    if pool.share_supply == 0 {
        return Err(Error::PoolNotInitialized);
    }
    if amount_a == 0 || amount_b_max == 0 {
        return Err(Error::InvalidAmount);
    }
    let ghost ra = pool.reserve_a as int;
    let b_num: u128 = mul_wide(amount_a, pool.reserve_b);
    let b_used128: u128 = b_num / (pool.reserve_a as u128);
    proof {
        lemma_div_bounds(b_num as int, ra);
    }
    if b_used128 > amount_b_max as u128 {
        return Err(Error::SlippageExceeded);
    }
    let b_used: u64 = b_used128 as u64;
    let mint_num: u128 = mul_wide(amount_a, pool.share_supply);
    let minted128: u128 = mint_num / (pool.reserve_a as u128);
    proof {
        lemma_div_bounds(mint_num as int, ra);
    }
    if pool.reserve_a > u64::MAX - amount_a || (pool.reserve_b as u128) > (u64::MAX as u128) - b_used128
        || minted128 > (u64::MAX as u128) - (pool.share_supply as u128) {
        return Err(Error::AmountOverflow);
    }
    if minted128 == 0 {
        return Err(Error::InvalidAmount);
    }
    let minted: u64 = minted128 as u64;
    pool.reserve_a = pool.reserve_a + amount_a;
    pool.reserve_b = pool.reserve_b + b_used;
    pool.share_supply = pool.share_supply + minted;
    Ok(AddLiquidityOutcome { shares_minted: minted, amount_b_used: b_used, amount_b_refund: amount_b_max - b_used })
}

/// Withdrawal: burning shares pays out both reserves pro rata, truncating;
/// burning the whole supply empties the pool exactly.
pub fn remove_liquidity(pool: &mut PoolState, shares: u64) -> (r: Result<AmountPair, Error>)
    requires
        old(pool).well_formed(),
    ensures
        final(pool).well_formed(),
        (r == Err::<AmountPair, Error>(Error::PoolNotInitialized) <==> !old(pool).is_seeded()),
        (r == Err::<AmountPair, Error>(Error::InvalidAmount) <==> (old(pool).is_seeded() && shares == 0)),
        (r == Err::<AmountPair, Error>(Error::InsufficientLiquidity) <==> (old(pool).is_seeded()
            && shares > old(pool).share_supply)),
        (r matches Err(e) ==> (e == Error::PoolNotInitialized || e == Error::InvalidAmount
            || e == Error::InsufficientLiquidity) && *final(pool) == *old(pool)),
        (r matches Ok(out) ==> ({
            let ra = old(pool).reserve_a as int;
            let rb = old(pool).reserve_b as int;
            let supply = old(pool).share_supply as int;
            &&& old(pool).is_seeded() && 0 < shares <= old(pool).share_supply
            &&& out.amount_a == spec_withdrawal_amount(ra, shares as int, supply)
            &&& out.amount_b == spec_withdrawal_amount(rb, shares as int, supply)
            &&& final(pool).reserve_a == old(pool).reserve_a - out.amount_a
            &&& final(pool).reserve_b == old(pool).reserve_b - out.amount_b
            &&& final(pool).share_supply == old(pool).share_supply - shares
            &&& (shares == old(pool).share_supply ==> *final(pool) == (PoolState {
                reserve_a: 0,
                reserve_b: 0,
                share_supply: 0,
            }))
        })),
{
    if pool.share_supply == 0 {
        return Err(Error::PoolNotInitialized);
    }
    if shares == 0 {
        return Err(Error::InvalidAmount);
    }
    if shares > pool.share_supply {
        return Err(Error::InsufficientLiquidity);
    }
    let ghost ra = pool.reserve_a as int;
    let ghost rb = pool.reserve_b as int;
    let ghost supply = pool.share_supply as int;
    let a_num: u128 = mul_wide(pool.reserve_a, shares);
    let a_out128: u128 = a_num / (pool.share_supply as u128);
    let b_num: u128 = mul_wide(pool.reserve_b, shares);
    let b_out128: u128 = b_num / (pool.share_supply as u128);
    proof {
        lemma_div_bounds(a_num as int, supply);
        lemma_div_bounds(b_num as int, supply);
        assert(ra * shares <= supply * ra) by (nonlinear_arith)
            requires
                shares <= supply,
                0 <= ra,
        ;
        assert(rb * shares <= supply * rb) by (nonlinear_arith)
            requires
                shares <= supply,
                0 <= rb,
        ;
        lemma_div_at_most(a_num as int, supply, ra);
        lemma_div_at_most(b_num as int, supply, rb);
        if shares == pool.share_supply {
            assert(ra * shares == supply * ra) by (nonlinear_arith)
                requires
                    shares == supply,
            ;
            assert(rb * shares == supply * rb) by (nonlinear_arith)
                requires
                    shares == supply,
            ;
            lemma_div_exact(a_num as int, supply, ra);
            lemma_div_exact(b_num as int, supply, rb);
        } else {
            // a partial withdrawal leaves both reserves positive
            assert(ra * shares < supply * ra) by (nonlinear_arith)
                requires
                    shares < supply,
                    0 < ra,
            ;
            assert(rb * shares < supply * rb) by (nonlinear_arith)
                requires
                    shares < supply,
                    0 < rb,
            ;
            lemma_div_lt(a_num as int, supply, ra);
            lemma_div_lt(b_num as int, supply, rb);
        }
    }
    let a_out: u64 = a_out128 as u64;
    let b_out: u64 = b_out128 as u64;
    pool.reserve_a = pool.reserve_a - a_out;
    pool.reserve_b = pool.reserve_b - b_out;
    pool.share_supply = pool.share_supply - shares;
    Ok(AmountPair { amount_a: a_out, amount_b: b_out })
}

/// Base term of the single-sided split quadratic: `reserve_in * (2*M - fee)`
/// for basis-point denominator `M`.
pub open spec fn spec_zap_base(reserve_in: int, fee_bps: int) -> int {
    reserve_in * (2 * (FEE_DENOMINATOR as int) - fee_bps)
}

/// Discriminant of the single-sided split quadratic.
pub open spec fn spec_zap_radicand(amount_in: int, reserve_in: int, fee_bps: int) -> int {
    spec_zap_base(reserve_in, fee_bps) * spec_zap_base(reserve_in, fee_bps) + 4 * ((
    FEE_DENOMINATOR as int) - fee_bps) * (FEE_DENOMINATOR as int) * amount_in * reserve_in
}

/// The slice of a single-sided deposit to swap before depositing two-sided:
/// the positive root of the constant-product split quadratic, truncating.
///
/// Swapping this slice leaves the remainder and the swap proceeds close to
/// the pool's post-swap ratio.
pub open spec fn spec_zap_amount(amount_in: int, reserve_in: int, fee_bps: int) -> int {
    (spec_sqrt(spec_zap_radicand(amount_in, reserve_in, fee_bps)) - spec_zap_base(
        reserve_in,
        fee_bps,
    )) / (2 * ((FEE_DENOMINATOR as int) - fee_bps))
}

/// What the internal swap of a single-sided deposit feeds the curve, once
/// the platform cut is carved off the swapped slice.
pub open spec fn spec_zap_net(amount_in: int, reserve_in: int, cfg: FeeConfig) -> int {
    spec_net_amount(
        spec_zap_amount(amount_in, reserve_in, cfg.spec_total_fee_bps()),
        cfg.platform_fee_bps as int,
    )
}

/// What the internal swap of a single-sided deposit buys of the other asset.
pub open spec fn spec_zap_out(amount_in: int, reserve_in: int, reserve_out: int, cfg: FeeConfig) -> int {
    spec_amount_out(
        spec_zap_net(amount_in, reserve_in, cfg),
        reserve_in,
        reserve_out,
        cfg.spec_total_fee_bps(),
    )
}

/// Shares minted by a single-sided deposit: the unswapped remainder,
/// denominated in the post-swap reserve of the deposited asset.
pub open spec fn spec_zap_minted(pool: PoolState, cfg: FeeConfig, amount_in: int, first_token_in: bool) -> int {
    let r_in = pool.spec_reserve_in(first_token_in) as int;
    let x = spec_zap_amount(amount_in, r_in, cfg.spec_total_fee_bps());
    spec_shares_for_deposit(
        r_in + spec_zap_net(amount_in, r_in, cfg),
        pool.share_supply as int,
        amount_in - x,
    )
}

/// A single-sided deposit outgrows the machine's amount type.
pub open spec fn spec_zap_overflow(pool: PoolState, cfg: FeeConfig, amount_in: int, first_token_in: bool) -> bool {
    let r_in = pool.spec_reserve_in(first_token_in) as int;
    let x = spec_zap_amount(amount_in, r_in, cfg.spec_total_fee_bps());
    let net = spec_zap_net(amount_in, r_in, cfg);
    ||| spec_zap_radicand(amount_in, r_in, cfg.spec_total_fee_bps()) > u128::MAX
    ||| r_in + net + (amount_in - x) > u64::MAX
    ||| pool.share_supply + spec_zap_minted(pool, cfg, amount_in, first_token_in) > u64::MAX
}

/// Computes `spec_zap_amount` on machine integers: the slice of a
/// single-sided deposit to swap, solved analytically, never more than the
/// deposit itself.
pub fn zap_swap_amount(amount_in: u64, reserve_in: u64, fee_bps: u32) -> (r: Result<u64, Error>)
    requires
        reserve_in > 0,
        fee_bps < FEE_DENOMINATOR,
    ensures
        (r == Err::<u64, Error>(Error::AmountOverflow) <==> spec_zap_radicand(
            amount_in as int,
            reserve_in as int,
            fee_bps as int,
        ) > u128::MAX),
        (r matches Err(e) ==> e == Error::AmountOverflow),
        (r matches Ok(x) ==> x == spec_zap_amount(amount_in as int, reserve_in as int, fee_bps as int)
            && x <= amount_in),
{
    let ghost m: int = FEE_DENOMINATOR as int;
    let ghost f: int = fee_bps as int;
    let ghost g: int = m - f;
    let ghost a: int = amount_in as int;
    let ghost rin: int = reserve_in as int;
    let ghost base: int = spec_zap_base(rin, f);
    let ghost radic: int = spec_zap_radicand(a, rin, f);
    let two_m_f: u32 = 2 * FEE_DENOMINATOR - fee_bps;
    let t: u128 = mul_wide(reserve_in, two_m_f as u64);
    if t > u64::MAX as u128 {
        proof {
            assert(radic > u128::MAX) by (nonlinear_arith)
                requires
                    base == t,
                    radic == base * base + 4 * g * m * a * rin,
                    t > u64::MAX,
                    g >= 1,
                    m >= 1,
                    a >= 0,
                    rin >= 0,
            ;
        }
        return Err(Error::AmountOverflow);
    }
    proof {
        lemma_mul_fits_u128(t as int, t as int);
    }
    let t2: u128 = t * t;
    let k: u128 = 4 * ((FEE_DENOMINATOR - fee_bps) as u128) * (FEE_DENOMINATOR as u128);
    let ar: u128 = mul_wide(amount_in, reserve_in);
    let cap: u128 = u128::MAX / k;
    proof {
        lemma_div_bounds(u128::MAX as int, k as int);
    }
    if ar > cap {
        proof {
            assert(k * ar > u128::MAX) by (nonlinear_arith)
                requires
                    ar > u128::MAX / k,
                    u128::MAX < k * (u128::MAX / k) + k,
                    k >= 1,
            ;
            assert(radic > u128::MAX) by (nonlinear_arith)
                requires
                    base == t,
                    radic == base * base + 4 * g * m * a * rin,
                    k == 4 * g * m,
                    ar == a * rin,
                    k * ar > u128::MAX,
            ;
        }
        return Err(Error::AmountOverflow);
    }
    proof {
        assert(k * ar <= u128::MAX) by (nonlinear_arith)
            requires
                ar <= u128::MAX / k,
                k * (u128::MAX / k) <= u128::MAX,
                k >= 1,
                ar >= 0,
        ;
    }
    let term: u128 = k * ar;
    if t2 > u128::MAX - term {
        proof {
            assert(radic > u128::MAX) by (nonlinear_arith)
                requires
                    base == t,
                    radic == base * base + 4 * g * m * a * rin,
                    k == 4 * g * m,
                    ar == a * rin,
                    t2 == t * t,
                    t2 + term > u128::MAX,
                    term == k * ar,
            ;
        }
        return Err(Error::AmountOverflow);
    }
    let radicand: u128 = t2 + term;
    proof {
        assert(radicand == radic) by (nonlinear_arith)
            requires
                base == t,
                radic == base * base + 4 * g * m * a * rin,
                k == 4 * g * m,
                ar == a * rin,
                t2 == t * t,
                term == k * ar,
                radicand == t2 + term,
        ;
    }
    let d: u64 = isqrt_u128(radicand);
    proof {
        lemma_sqrt_is_sqrt(radicand as int, d as int);
        // the root dominates the base term
        assert(d >= t) by (nonlinear_arith)
            requires
                radicand < ((d as int) + 1) * ((d as int) + 1),
                t * t <= radicand,
                t >= 0,
                d >= 0,
        ;
        // and stays within the deposit's reach
        assert((t + 2 * g * a) * (t + 2 * g * a) >= radicand) by (nonlinear_arith)
            requires
                radicand == t * t + 4 * g * m * a * rin,
                t == rin * (2 * m - f),
                0 <= f < m,
                g == m - f,
                a >= 0,
                rin >= 0,
        ;
        assert(d <= t + 2 * g * a) by (nonlinear_arith)
            requires
                (d as int) * (d as int) <= radicand,
                (t + 2 * g * a) * (t + 2 * g * a) >= radicand,
                d >= 0,
                t >= 0,
                g >= 0,
                a >= 0,
        ;
    }
    let t64: u64 = t as u64;
    let diff: u64 = d - t64;
    let denom: u64 = 2 * ((FEE_DENOMINATOR - fee_bps) as u64);
    let x: u64 = diff / denom;
    proof {
        assert(diff <= 2 * g * a) by (nonlinear_arith)
            requires
                d <= t + 2 * g * a,
                diff == d - t,
        ;
        assert(diff as int <= (2 * g) * a);
        lemma_div_at_most(diff as int, 2 * g, a);
    }
    Ok(x)
}

/// Single-sided deposit: swaps the analytically chosen slice internally
/// (platform cut carved off, constant-product pricing), then deposits the
/// remainder and the proceeds; rounding dust stays with the reserves.
pub fn add_liquidity_single(pool: &mut PoolState, cfg: &FeeConfig, amount_in: u64, first_token_in: bool) -> (r:
    Result<SingleSideOutcome, Error>)
    requires
        old(pool).well_formed(),
        cfg.well_formed(),
    ensures
        final(pool).well_formed(),
        (r == Err::<SingleSideOutcome, Error>(Error::PoolNotInitialized) <==> !old(pool).is_seeded()),
        (r == Err::<SingleSideOutcome, Error>(Error::AmountOverflow) <==> (old(pool).is_seeded()
            && amount_in > 0 && spec_zap_overflow(*old(pool), *cfg, amount_in as int, first_token_in))),
        (r == Err::<SingleSideOutcome, Error>(Error::InvalidAmount) <==> (old(pool).is_seeded()
            && (amount_in == 0 || (!spec_zap_overflow(*old(pool), *cfg, amount_in as int, first_token_in)
                && spec_zap_minted(*old(pool), *cfg, amount_in as int, first_token_in) == 0)))),
        (r matches Err(e) ==> (e == Error::PoolNotInitialized || e == Error::AmountOverflow
            || e == Error::InvalidAmount) && *final(pool) == *old(pool)),
        (r matches Ok(o) ==> ({
            let r_in = old(pool).spec_reserve_in(first_token_in) as int;
            let r_out = old(pool).spec_reserve_out(first_token_in) as int;
            let x = spec_zap_amount(amount_in as int, r_in, cfg.spec_total_fee_bps());
            let net = spec_zap_net(amount_in as int, r_in, *cfg);
            let minted = spec_zap_minted(*old(pool), *cfg, amount_in as int, first_token_in);
            &&& old(pool).is_seeded() && amount_in > 0
            &&& o.swap_amount_in == x && x <= amount_in
            &&& o.platform_fee_amount == spec_platform_fee(x, cfg.platform_fee_bps as int)
            &&& o.swap_amount_out == spec_zap_out(amount_in as int, r_in, r_out, *cfg)
            &&& o.shares_minted == minted && minted > 0
            &&& final(pool).spec_reserve_in(first_token_in) == r_in + net + (amount_in - x)
            &&& final(pool).spec_reserve_out(first_token_in) == old(pool).spec_reserve_out(first_token_in)
            &&& final(pool).share_supply == old(pool).share_supply + minted
        })),
{
    if pool.share_supply == 0 {
        return Err(Error::PoolNotInitialized);
    }
    if amount_in == 0 {
        return Err(Error::InvalidAmount);
    }
    let r_in: u64 = pool.reserve_in(first_token_in);
    let r_out: u64 = pool.reserve_out(first_token_in);
    let total_fee: u32 = cfg.total_fee_bps();
    let x: u64 = match zap_swap_amount(amount_in, r_in, total_fee) {
        Ok(x) => x,
        Err(e) => {
            return Err(e);
        },
    };
    let fee_parts: (u64, u64, u64) = split_fee(x, cfg.lp_fee_bps, cfg.platform_fee_bps);
    let platform: u64 = fee_parts.1;
    let net: u64 = fee_parts.2;
    let y: u64 = amount_out_for_fixed_input(net, r_in, r_out, total_fee);
    let rest: u64 = amount_in - x;
    let new_r_in128: u128 = (r_in as u128) + (net as u128) + (rest as u128);
    if new_r_in128 > u64::MAX as u128 {
        return Err(Error::AmountOverflow);
    }
    let mint_num: u128 = mul_wide(rest, pool.share_supply);
    let mint_den: u128 = (r_in as u128) + (net as u128);
    let minted128: u128 = mint_num / mint_den;
    proof {
        lemma_div_bounds(mint_num as int, mint_den as int);
    }
    if minted128 > (u64::MAX as u128) - (pool.share_supply as u128) {
        return Err(Error::AmountOverflow);
    }
    if minted128 == 0 {
        return Err(Error::InvalidAmount);
    }
    let minted: u64 = minted128 as u64;
    let new_r_in: u64 = new_r_in128 as u64;
    if first_token_in {
        pool.reserve_a = new_r_in;
    } else {
        pool.reserve_b = new_r_in;
    }
    pool.share_supply = pool.share_supply + minted;
    Ok(SingleSideOutcome {
        shares_minted: minted,
        swap_amount_in: x,
        swap_amount_out: y,
        platform_fee_amount: platform,
    })
}

/// Law: burning shares and immediately re-depositing the withdrawn asset-A
/// amount never mints more shares than were burned. Rounding always favors
/// the pool across the round trip.
pub proof fn lemma_remove_then_add_never_inflates(reserve_a: int, supply: int, shares: int)
    requires
        0 < reserve_a,
        0 < shares < supply,
    ensures
        ({
            let a_out = spec_withdrawal_amount(reserve_a, shares, supply);
            spec_shares_for_deposit(reserve_a - a_out, supply - shares, a_out) <= shares
        }),
{
    let a_out = spec_withdrawal_amount(reserve_a, shares, supply);
    assert(0 <= reserve_a * shares) by (nonlinear_arith)
        requires
            0 <= reserve_a,
            0 <= shares,
    ;
    lemma_div_bounds(reserve_a * shares, supply);
    assert(reserve_a * shares < supply * reserve_a) by (nonlinear_arith)
        requires
            shares < supply,
            0 < reserve_a,
    ;
    lemma_div_lt(reserve_a * shares, supply, reserve_a);
    let ra2 = reserve_a - a_out;
    let s2 = supply - shares;
    assert(a_out * s2 <= ra2 * shares) by (nonlinear_arith)
        requires
            supply * a_out <= reserve_a * shares,
            ra2 == reserve_a - a_out,
            s2 == supply - shares,
            0 <= a_out,
            0 < shares < supply,
    ;
    assert(0 <= a_out * s2) by (nonlinear_arith)
        requires
            0 <= a_out,
            0 <= s2,
    ;
    lemma_div_at_most(a_out * s2, ra2, shares);
}

/// Law: when the withdrawal divides evenly, re-depositing the two withdrawn
/// amounts consumes exactly the withdrawn asset-B amount and restores the
/// share supply exactly.
#[verifier::rlimit(50)]
pub proof fn lemma_remove_then_add_exact(reserve_a: int, reserve_b: int, supply: int, shares: int)
    requires
        0 < reserve_a,
        0 < reserve_b,
        0 < shares < supply,
        (reserve_a * shares) % supply == 0,
        (reserve_b * shares) % supply == 0,
    ensures
        ({
            let a_out = spec_withdrawal_amount(reserve_a, shares, supply);
            let b_out = spec_withdrawal_amount(reserve_b, shares, supply);
            let ra2 = reserve_a - a_out;
            let rb2 = reserve_b - b_out;
            &&& spec_matching_amount_b(ra2, rb2, a_out) == b_out
            &&& spec_shares_for_deposit(ra2, supply - shares, a_out) == shares
        }),
{
    let a_out = spec_withdrawal_amount(reserve_a, shares, supply);
    let b_out = spec_withdrawal_amount(reserve_b, shares, supply);
    let ra2 = reserve_a - a_out;
    let rb2 = reserve_b - b_out;
    let s2 = supply - shares;
    assert(0 <= reserve_a * shares && 0 <= reserve_b * shares) by (nonlinear_arith)
        requires
            0 <= reserve_a,
            0 <= reserve_b,
            0 <= shares,
    ;
    lemma_div_bounds(reserve_a * shares, supply);
    lemma_div_bounds(reserve_b * shares, supply);
    // an exact division leaves no remainder to discard
    assert(supply * a_out == reserve_a * shares && supply * b_out == reserve_b * shares) by {
        vstd::arithmetic::div_mod::lemma_fundamental_div_mod(reserve_a * shares, supply);
        vstd::arithmetic::div_mod::lemma_fundamental_div_mod(reserve_b * shares, supply);
    }
    assert(reserve_a * shares < supply * reserve_a) by (nonlinear_arith)
        requires
            shares < supply,
            0 < reserve_a,
    ;
    lemma_div_lt(reserve_a * shares, supply, reserve_a);
    assert(supply * (a_out * reserve_b) == supply * (reserve_a * b_out)) by (nonlinear_arith)
        requires
            supply * a_out == reserve_a * shares,
            supply * b_out == reserve_b * shares,
    ;
    assert(a_out * reserve_b == reserve_a * b_out) by (nonlinear_arith)
        requires
            supply * (a_out * reserve_b) == supply * (reserve_a * b_out),
            0 < supply,
    ;
    assert(a_out * rb2 == ra2 * b_out) by (nonlinear_arith)
        requires
            a_out * reserve_b == reserve_a * b_out,
            rb2 == reserve_b - b_out,
            ra2 == reserve_a - a_out,
    ;
    assert(a_out * s2 == ra2 * shares) by (nonlinear_arith)
        requires
            supply * a_out == reserve_a * shares,
            s2 == supply - shares,
            ra2 == reserve_a - a_out,
    ;
    assert(0 <= b_out) by {
        lemma_div_bounds(reserve_b * shares, supply);
    }
    lemma_div_exact(a_out * rb2, ra2, b_out);
    lemma_div_exact(a_out * s2, ra2, shares);
}

} // verus!
