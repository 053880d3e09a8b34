//! The contract interface and its one implementation: token identities,
//! the share-token lifecycle, the reserves, and the fee configuration,
//! orchestrating the fee, liquidity and swap engines.
//!
//! Every endpoint validates its inputs, runs the engine math on a scratch
//! copy of the pool, and commits only when all checks pass, so a failure
//! never mutates state. Endpoints return the amounts the boundary layer
//! must transfer; they never transfer anything themselves.

use vstd::prelude::*;
use crate::{Error, Payment, TokenId};
use crate::fees::{FEE_DENOMINATOR, FeeConfig};
use crate::lifecycle::LpTokenState;
use crate::liquidity::{
    add_initial_liquidity as lp_add_initial_liquidity, add_liquidity as lp_add_liquidity,
    add_liquidity_single as lp_add_liquidity_single, remove_liquidity as lp_remove_liquidity,
    spec_matching_amount_b, spec_shares_for_deposit, spec_withdrawal_amount, spec_zap_amount,
    spec_zap_minted, spec_zap_net, spec_zap_out, spec_zap_overflow, EstimateAddLiquidityOut,
    EstimateRemoveLiquidityOut,
};
use crate::math::{spec_is_sqrt, spec_sqrt};
use crate::pool::{AmountPair, PoolState};
use crate::pricing::{spec_amount_in, spec_amount_out, spec_lp_fee, spec_net_amount, spec_platform_fee};
use crate::swap::{
    estimate_amount_in as swap_estimate_amount_in, estimate_amount_out as swap_estimate_amount_out,
    swap_fixed_input as swap_fixed_input_inner, swap_fixed_output as swap_fixed_output_inner,
    EstimateAmountIn, EstimateAmountOut,
};

verus! {

/// What a two-sided deposit hands back to the boundary layer.
#[derive(Clone, Copy, Debug, PartialEq, Eq, Structural)]
pub struct AddLiquidityResult {
    /// Pool shares minted, as a payment of the share token.
    pub lp_payment: Payment,
    /// Asset-B amount consumed.
    pub amount_b_used: u64,
    /// Asset-B amount to return to the depositor.
    pub amount_b_refund: u64,
}

/// What a single-sided deposit hands back to the boundary layer.
#[derive(Clone, Copy, Debug, PartialEq, Eq, Structural)]
pub struct SingleDepositResult {
    /// Pool shares minted, as a payment of the share token.
    pub lp_payment: Payment,
    /// Platform cut of the internal swap, owed to the fee receiver in the
    /// deposited asset.
    pub platform_fee_amount: u64,
}

/// What a fixed-input swap hands back to the boundary layer.
#[derive(Clone, Copy, Debug, PartialEq, Eq, Structural)]
pub struct SwapFixedInputResult {
    /// The bought amount, to send to the trader.
    pub payment_out: Payment,
    /// Platform cut, owed to the fee receiver in the paid asset.
    pub platform_fee_amount: u64,
}

/// What a fixed-output swap hands back to the boundary layer.
#[derive(Clone, Copy, Debug, PartialEq, Eq, Structural)]
pub struct SwapFixedOutputResult {
    /// The exact requested amount, to send to the trader.
    pub payment_out: Payment,
    /// Overpayment to return to the trader, in the paid asset.
    pub refund_in: Payment,
    /// Platform cut, owed to the fee receiver in the paid asset.
    pub platform_fee_amount: u64,
}

/// What a withdraw-and-swap hands back to the boundary layer.
#[derive(Clone, Copy, Debug, PartialEq, Eq, Structural)]
pub struct RemoveSingleResult {
    /// Everything owed to the withdrawer, in the requested asset.
    pub payment_out: Payment,
    /// Platform cut of the internal swap, owed to the fee receiver.
    pub platform_fee_amount: u64,
}

/// The public surface of a two-asset constant-product pool: one operation
/// per entry point, each over the implementor's state views.
pub trait JexScPairContract: Sized {
    /// Identity of asset A.
    spec fn first_token_id(&self) -> TokenId;

    /// Identity of asset B.
    spec fn second_token_id(&self) -> TokenId;

    /// Where the pool-share token stands in its issuance lifecycle.
    spec fn lp_token_state(&self) -> LpTokenState;

    /// Reserves and share supply.
    spec fn pool_state(&self) -> PoolState;

    /// The two fee rates and the platform receiver.
    spec fn fee_state(&self) -> FeeConfig;

    /// Everything a reachable contract state satisfies: the pool
    /// invariant, sane fees, and no liquidity before the share token
    /// exists.
    open spec fn well_formed(&self) -> bool {
        &&& self.pool_state().well_formed()
        &&& self.fee_state().well_formed()
        &&& (self.pool_state().is_seeded() ==> self.lp_token_state().is_ready())
    }

    /// A token is one of the pool's two assets.
    open spec fn spec_is_pool_token(&self, token: TokenId) -> bool {
        token == self.first_token_id() || token == self.second_token_id()
    }

    /// Token A flows in when the paid token is token A.
    open spec fn spec_first_token_in(&self, token_in: TokenId) -> bool {
        token_in == self.first_token_id()
    }

    /// The payment is denominated in the issued share token.
    open spec fn spec_lp_payment_ok(&self, payment: Payment) -> bool {
        payment.token == self.lp_token_state().spec_token()
    }

    /// Asset-A slice a withdrawal of `shares` pays out.
    open spec fn spec_removed_a(&self, shares: int) -> int {
        spec_withdrawal_amount(
            self.pool_state().reserve_a as int,
            shares,
            self.pool_state().share_supply as int,
        )
    }

    /// Asset-B slice a withdrawal of `shares` pays out.
    open spec fn spec_removed_b(&self, shares: int) -> int {
        spec_withdrawal_amount(
            self.pool_state().reserve_b as int,
            shares,
            self.pool_state().share_supply as int,
        )
    }

    /// Withdrawn amount of the asset to swap away in a withdraw-and-swap.
    open spec fn spec_remove_single_swap_in(&self, shares: int, first_out: bool) -> int {
        if first_out {
            self.spec_removed_b(shares)
        } else {
            self.spec_removed_a(shares)
        }
    }

    /// Withdrawn amount of the asset the caller keeps in a
    /// withdraw-and-swap.
    open spec fn spec_remove_single_kept(&self, shares: int, first_out: bool) -> int {
        if first_out {
            self.spec_removed_a(shares)
        } else {
            self.spec_removed_b(shares)
        }
    }

    /// Post-withdrawal reserve of the asset being swapped away.
    open spec fn spec_remove_single_r_in(&self, shares: int, first_out: bool) -> int {
        if first_out {
            self.pool_state().reserve_b - self.spec_removed_b(shares)
        } else {
            self.pool_state().reserve_a - self.spec_removed_a(shares)
        }
    }

    /// Post-withdrawal reserve of the asset being bought.
    open spec fn spec_remove_single_r_out(&self, shares: int, first_out: bool) -> int {
        if first_out {
            self.pool_state().reserve_a - self.spec_removed_a(shares)
        } else {
            self.pool_state().reserve_b - self.spec_removed_b(shares)
        }
    }

    /// Net amount the withdraw-and-swap's internal swap feeds the pool.
    open spec fn spec_remove_single_net(&self, shares: int, first_out: bool) -> int {
        spec_net_amount(
            self.spec_remove_single_swap_in(shares, first_out),
            self.fee_state().platform_fee_bps as int,
        )
    }

    /// What the withdraw-and-swap's internal swap buys, priced against the
    /// post-withdrawal reserves.
    open spec fn spec_remove_single_out(&self, shares: int, first_out: bool) -> int {
        spec_amount_out(
            self.spec_remove_single_net(shares, first_out),
            self.spec_remove_single_r_in(shares, first_out),
            self.spec_remove_single_r_out(shares, first_out),
            self.fee_state().spec_total_fee_bps(),
        )
    }

    /// All state views other than the share-token lifecycle are unchanged.
    open spec fn only_lp_token_changed(&self, other: &Self) -> bool {
        &&& self.first_token_id() == other.first_token_id()
        &&& self.second_token_id() == other.second_token_id()
        &&& self.pool_state() == other.pool_state()
        &&& self.fee_state() == other.fee_state()
    }

    /// All state views other than the pool are unchanged.
    open spec fn only_pool_changed(&self, other: &Self) -> bool {
        &&& self.first_token_id() == other.first_token_id()
        &&& self.second_token_id() == other.second_token_id()
        &&& self.lp_token_state() == other.lp_token_state()
        &&& self.fee_state() == other.fee_state()
    }

    /// All state views other than the fee configuration are unchanged.
    open spec fn only_fees_changed(&self, other: &Self) -> bool {
        &&& self.first_token_id() == other.first_token_id()
        &&& self.second_token_id() == other.second_token_id()
        &&& self.lp_token_state() == other.lp_token_state()
        &&& self.pool_state() == other.pool_state()
    }

    /// Deployment: fixes the two asset identities; everything else is
    /// empty.
    fn init(first_token: TokenId, second_token: TokenId) -> (c: Self)
        ensures
            c.first_token_id() == first_token,
            c.second_token_id() == second_token,
            c.lp_token_state() == LpTokenState::NotIssued,
            c.pool_state() == (PoolState { reserve_a: 0, reserve_b: 0, share_supply: 0 }),
            c.fee_state() == (FeeConfig { lp_fee_bps: 0, platform_fee_bps: 0, platform_fee_receiver: 0 }),
            c.well_formed(),
    ;

    /// Requests issuance of the share token; the boundary layer performs
    /// the asynchronous call and reports back through
    /// `lp_token_issue_callback`.
    fn issue_lp_token(&mut self, caller: u64, egld_payment: u64) -> (r: Result<(), Error>)
        requires
            old(self).well_formed(),
        ensures
            final(self).well_formed(),
            (r == Err::<(), Error>(Error::AlreadyInitialized) <==> !(old(self).lp_token_state() is NotIssued)),
            (r matches Err(e) ==> e == Error::AlreadyInitialized && *final(self) == *old(self)),
            (r matches Ok(u) ==> final(self).lp_token_state() == (LpTokenState::Pending {
                caller,
                egld_payment,
            }) && final(self).only_lp_token_changed(old(self))),
    ;

    /// Resolves the issuance request: success records the token identity,
    /// failure reverts and says what payment to refund to whom.
    fn lp_token_issue_callback(&mut self, success: bool, token: TokenId) -> (refund: Option<(u64, u64)>)
        requires
            old(self).well_formed(),
            old(self).lp_token_state() is Pending,
        ensures
            final(self).well_formed(),
            final(self).only_lp_token_changed(old(self)),
            (success ==> final(self).lp_token_state() == (LpTokenState::Issued { token })
                && refund is None),
            (!success ==> final(self).lp_token_state() == LpTokenState::NotIssued && ({
                let payment = old(self).lp_token_state()->Pending_egld_payment;
                if payment > 0 {
                    refund == Some((old(self).lp_token_state()->Pending_caller, payment))
                } else {
                    refund is None
                }
            })),
    ;

    /// Sets the liquidity-provider fee rate, in basis points of 10_000;
    /// the two rates together must stay below 100%.
    fn configure_liq_providers_fees(&mut self, fees: u32) -> (r: Result<(), Error>)
        requires
            old(self).well_formed(),
        ensures
            final(self).well_formed(),
            (r == Err::<(), Error>(Error::InvalidAmount) <==> fees + old(self).fee_state().platform_fee_bps
                >= FEE_DENOMINATOR),
            (r matches Err(e) ==> e == Error::InvalidAmount && *final(self) == *old(self)),
            (r matches Ok(u) ==> final(self).fee_state() == (FeeConfig {
                lp_fee_bps: fees,
                ..old(self).fee_state()
            }) && final(self).only_fees_changed(old(self))),
    ;

    /// Sets the platform fee rate and receiver; the two rates together
    /// must stay below 100%.
    fn configure_platform_fees(&mut self, fees: u32, receiver: u64) -> (r: Result<(), Error>)
        requires
            old(self).well_formed(),
        ensures
            final(self).well_formed(),
            (r == Err::<(), Error>(Error::InvalidAmount) <==> old(self).fee_state().lp_fee_bps + fees
                >= FEE_DENOMINATOR),
            (r matches Err(e) ==> e == Error::InvalidAmount && *final(self) == *old(self)),
            (r matches Ok(u) ==> final(self).fee_state() == (FeeConfig {
                platform_fee_bps: fees,
                platform_fee_receiver: receiver,
                ..old(self).fee_state()
            }) && final(self).only_fees_changed(old(self))),
    ;

    /// Seeds the pool with the first two-sided deposit and mints the
    /// geometric mean of the two amounts as initial shares.
    fn add_initial_liquidity(&mut self, amount_a: u64, amount_b: u64) -> (r: Result<Payment, Error>)
        requires
            old(self).well_formed(),
        ensures
            final(self).well_formed(),
            (r == Err::<Payment, Error>(Error::PoolNotInitialized) <==> !old(self).lp_token_state().is_ready()),
            (r == Err::<Payment, Error>(Error::AlreadyInitialized) <==> (old(self).lp_token_state().is_ready()
                && old(self).pool_state().is_seeded())),
            (r == Err::<Payment, Error>(Error::InvalidAmount) <==> (old(self).lp_token_state().is_ready()
                && !old(self).pool_state().is_seeded() && (amount_a == 0 || amount_b == 0))),
            (r matches Err(e) ==> (e == Error::PoolNotInitialized || e == Error::AlreadyInitialized
                || e == Error::InvalidAmount) && *final(self) == *old(self)),
            (r matches Ok(p) ==> {
                &&& p.token == old(self).lp_token_state().spec_token()
                &&& spec_is_sqrt(amount_a * amount_b, p.amount as int)
                &&& p.amount == spec_sqrt(amount_a * amount_b)
                &&& p.amount > 0
                &&& final(self).pool_state() == (PoolState {
                    reserve_a: amount_a,
                    reserve_b: amount_b,
                    share_supply: p.amount,
                })
                &&& final(self).only_pool_changed(old(self))
            }),
    ;

    /// Fixed-input swap endpoint: routes the paid token, prices the trade,
    /// enforces the trader's minimum, and commits the reserve update.
    fn swap_tokens_fixed_input(&mut self, token_in: TokenId, amount_in: u64, min_amount_out: u64) -> (r:
        Result<SwapFixedInputResult, Error>)
        requires
            old(self).well_formed(),
        ensures
            final(self).well_formed(),
            (r == Err::<SwapFixedInputResult, Error>(Error::InvalidAsset) <==> !old(self).spec_is_pool_token(
                token_in,
            )),
            (r == Err::<SwapFixedInputResult, Error>(Error::PoolNotInitialized) <==> (old(
                self,
            ).spec_is_pool_token(token_in) && !old(self).pool_state().is_seeded())),
            (r == Err::<SwapFixedInputResult, Error>(Error::InvalidAmount) <==> (old(self).spec_is_pool_token(
                token_in,
            ) && old(self).pool_state().is_seeded() && amount_in == 0)),
            (r == Err::<SwapFixedInputResult, Error>(Error::AmountOverflow) <==> (old(self).spec_is_pool_token(
                token_in,
            ) && old(self).pool_state().is_seeded() && amount_in > 0
                && old(self).pool_state().spec_reserve_in(old(self).spec_first_token_in(token_in))
                    + spec_net_amount(amount_in as int, old(self).fee_state().platform_fee_bps as int)
                    > u64::MAX)),
            (r == Err::<SwapFixedInputResult, Error>(Error::SlippageExceeded) <==> (old(
                self,
            ).spec_is_pool_token(token_in) && old(self).pool_state().is_seeded() && amount_in > 0 && ({
                let first_in = old(self).spec_first_token_in(token_in);
                let r_in = old(self).pool_state().spec_reserve_in(first_in) as int;
                let r_out = old(self).pool_state().spec_reserve_out(first_in) as int;
                let net = spec_net_amount(amount_in as int, old(self).fee_state().platform_fee_bps as int);
                &&& r_in + net <= u64::MAX
                &&& spec_amount_out(net, r_in, r_out, old(self).fee_state().spec_total_fee_bps())
                    < min_amount_out
            }))),
            (r matches Err(e) ==> (e == Error::InvalidAsset || e == Error::PoolNotInitialized
                || e == Error::InvalidAmount || e == Error::AmountOverflow
                || e == Error::SlippageExceeded) && *final(self) == *old(self)),
            (r matches Ok(res) ==> ({
                let first_in = old(self).spec_first_token_in(token_in);
                let r_in = old(self).pool_state().spec_reserve_in(first_in) as int;
                let r_out = old(self).pool_state().spec_reserve_out(first_in) as int;
                let net = spec_net_amount(amount_in as int, old(self).fee_state().platform_fee_bps as int);
                let out = spec_amount_out(net, r_in, r_out, old(self).fee_state().spec_total_fee_bps());
                &&& out >= min_amount_out
                &&& res.payment_out == (Payment {
                    token: if first_in { old(self).second_token_id() } else { old(self).first_token_id() },
                    amount: out as u64,
                })
                &&& res.platform_fee_amount == spec_platform_fee(
                    amount_in as int,
                    old(self).fee_state().platform_fee_bps as int,
                )
                &&& final(self).pool_state().spec_reserve_in(first_in) == r_in + net
                &&& final(self).pool_state().spec_reserve_out(first_in) == r_out - out
                &&& final(self).pool_state().spec_reserve_out(first_in) > 0
                &&& final(self).pool_state().share_supply == old(self).pool_state().share_supply
                &&& final(self).pool_state().reserve_product() >= old(self).pool_state().reserve_product()
                &&& final(self).only_pool_changed(old(self))
            })),
    ;

    /// Fixed-output swap endpoint: routes the paid token, computes the
    /// gross input owed, enforces the trader's payment as a maximum, and
    /// commits; the overpayment is returned.
    fn swap_tokens_fixed_output(&mut self, token_in: TokenId, amount_in: u64, exact_amount_out: u64) -> (r:
        Result<SwapFixedOutputResult, Error>)
        requires
            old(self).well_formed(),
        ensures
            final(self).well_formed(),
            (r == Err::<SwapFixedOutputResult, Error>(Error::InvalidAsset) <==> !old(self).spec_is_pool_token(
                token_in,
            )),
            (r == Err::<SwapFixedOutputResult, Error>(Error::PoolNotInitialized) <==> (old(
                self,
            ).spec_is_pool_token(token_in) && !old(self).pool_state().is_seeded())),
            (r == Err::<SwapFixedOutputResult, Error>(Error::InvalidAmount) <==> (old(
                self,
            ).spec_is_pool_token(token_in) && old(self).pool_state().is_seeded() && exact_amount_out == 0)),
            (r == Err::<SwapFixedOutputResult, Error>(Error::InsufficientLiquidity) <==> (old(
                self,
            ).spec_is_pool_token(token_in) && old(self).pool_state().is_seeded() && exact_amount_out > 0
                && exact_amount_out >= old(self).pool_state().spec_reserve_out(
                    old(self).spec_first_token_in(token_in),
                ))),
            (r == Err::<SwapFixedOutputResult, Error>(Error::AmountOverflow) <==> (old(
                self,
            ).spec_is_pool_token(token_in) && old(self).pool_state().is_seeded() && exact_amount_out > 0
                && ({
                let first_in = old(self).spec_first_token_in(token_in);
                let r_in = old(self).pool_state().spec_reserve_in(first_in) as int;
                let r_out = old(self).pool_state().spec_reserve_out(first_in) as int;
                let gross = spec_amount_in(exact_amount_out as int, r_in, r_out, old(self).fee_state().spec_total_fee_bps());
                &&& exact_amount_out < r_out
                &&& (gross > u64::MAX || r_in + spec_net_amount(gross, old(self).fee_state().platform_fee_bps as int)
                    > u64::MAX)
            }))),
            (r == Err::<SwapFixedOutputResult, Error>(Error::SlippageExceeded) <==> (old(
                self,
            ).spec_is_pool_token(token_in) && old(self).pool_state().is_seeded() && exact_amount_out > 0
                && ({
                let first_in = old(self).spec_first_token_in(token_in);
                let r_in = old(self).pool_state().spec_reserve_in(first_in) as int;
                let r_out = old(self).pool_state().spec_reserve_out(first_in) as int;
                let gross = spec_amount_in(exact_amount_out as int, r_in, r_out, old(self).fee_state().spec_total_fee_bps());
                &&& exact_amount_out < r_out
                &&& gross <= u64::MAX
                &&& r_in + spec_net_amount(gross, old(self).fee_state().platform_fee_bps as int) <= u64::MAX
                &&& gross > amount_in
            }))),
            (r matches Err(e) ==> (e == Error::InvalidAsset || e == Error::PoolNotInitialized
                || e == Error::InvalidAmount || e == Error::InsufficientLiquidity
                || e == Error::AmountOverflow || e == Error::SlippageExceeded) && *final(self) == *old(self)),
            (r matches Ok(res) ==> ({
                let first_in = old(self).spec_first_token_in(token_in);
                let r_in = old(self).pool_state().spec_reserve_in(first_in) as int;
                let r_out = old(self).pool_state().spec_reserve_out(first_in) as int;
                let gross = spec_amount_in(exact_amount_out as int, r_in, r_out, old(self).fee_state().spec_total_fee_bps());
                let net = spec_net_amount(gross, old(self).fee_state().platform_fee_bps as int);
                &&& gross <= amount_in
                &&& res.payment_out == (Payment {
                    token: if first_in { old(self).second_token_id() } else { old(self).first_token_id() },
                    amount: exact_amount_out,
                })
                &&& res.refund_in == (Payment { token: token_in, amount: (amount_in - gross) as u64 })
                &&& res.platform_fee_amount == spec_platform_fee(gross, old(self).fee_state().platform_fee_bps as int)
                &&& final(self).pool_state().spec_reserve_in(first_in) == r_in + net
                &&& final(self).pool_state().spec_reserve_out(first_in) == r_out - exact_amount_out
                &&& final(self).pool_state().spec_reserve_out(first_in) > 0
                &&& final(self).pool_state().share_supply == old(self).pool_state().share_supply
                &&& final(self).pool_state().reserve_product() >= old(self).pool_state().reserve_product()
                &&& final(self).only_pool_changed(old(self))
            })),
    ;

    /// Two-sided deposit endpoint: consumes all of asset A, the matching
    /// asset-B amount (at least the caller's minimum, at most the
    /// payment), refunds the rest, and mints shares.
    fn add_liquidity(&mut self, amount_a: u64, amount_b: u64, min_second_token_amount: u64) -> (r: Result<
        AddLiquidityResult,
        Error,
    >)
        requires
            old(self).well_formed(),
        ensures
            final(self).well_formed(),
            (r == Err::<AddLiquidityResult, Error>(Error::PoolNotInitialized) <==> !old(
                self,
            ).pool_state().is_seeded()),
            (r == Err::<AddLiquidityResult, Error>(Error::SlippageExceeded) <==> (old(
                self,
            ).pool_state().is_seeded() && amount_a > 0 && amount_b > 0 && ({
                let ra = old(self).pool_state().reserve_a as int;
                let rb = old(self).pool_state().reserve_b as int;
                let supply = old(self).pool_state().share_supply as int;
                let b_used = spec_matching_amount_b(ra, rb, amount_a as int);
                let minted = spec_shares_for_deposit(ra, supply, amount_a as int);
                ||| b_used > amount_b
                ||| (b_used <= amount_b && ra + amount_a <= u64::MAX && rb + b_used <= u64::MAX
                    && supply + minted <= u64::MAX && minted > 0 && b_used < min_second_token_amount)
            }))),
            (r == Err::<AddLiquidityResult, Error>(Error::AmountOverflow) <==> (old(
                self,
            ).pool_state().is_seeded() && amount_a > 0 && amount_b > 0 && ({
                let ra = old(self).pool_state().reserve_a as int;
                let rb = old(self).pool_state().reserve_b as int;
                let supply = old(self).pool_state().share_supply as int;
                let b_used = spec_matching_amount_b(ra, rb, amount_a as int);
                let minted = spec_shares_for_deposit(ra, supply, amount_a as int);
                &&& b_used <= amount_b
                &&& (ra + amount_a > u64::MAX || rb + b_used > u64::MAX || supply + minted > u64::MAX)
            }))),
            (r == Err::<AddLiquidityResult, Error>(Error::InvalidAmount) <==> (old(
                self,
            ).pool_state().is_seeded() && (amount_a == 0 || amount_b == 0 || ({
                let ra = old(self).pool_state().reserve_a as int;
                let rb = old(self).pool_state().reserve_b as int;
                let supply = old(self).pool_state().share_supply as int;
                let b_used = spec_matching_amount_b(ra, rb, amount_a as int);
                let minted = spec_shares_for_deposit(ra, supply, amount_a as int);
                &&& amount_a > 0
                &&& amount_b > 0
                &&& b_used <= amount_b
                &&& ra + amount_a <= u64::MAX
                &&& rb + b_used <= u64::MAX
                &&& supply + minted <= u64::MAX
                &&& minted == 0
            })))),
            (r matches Err(e) ==> (e == Error::PoolNotInitialized || e == Error::SlippageExceeded
                || e == Error::AmountOverflow || e == Error::InvalidAmount) && *final(self) == *old(self)),
            (r matches Ok(res) ==> ({
                let ra = old(self).pool_state().reserve_a as int;
                let rb = old(self).pool_state().reserve_b as int;
                let supply = old(self).pool_state().share_supply as int;
                let b_used = spec_matching_amount_b(ra, rb, amount_a as int);
                let minted = spec_shares_for_deposit(ra, supply, amount_a as int);
                &&& min_second_token_amount <= b_used <= amount_b
                &&& res.lp_payment == (Payment {
                    token: old(self).lp_token_state().spec_token(),
                    amount: minted as u64,
                })
                &&& minted > 0
                &&& res.amount_b_used == b_used
                &&& res.amount_b_refund == amount_b - b_used
                &&& final(self).pool_state().reserve_a == ra + amount_a
                &&& final(self).pool_state().reserve_b == rb + b_used
                &&& final(self).pool_state().share_supply == supply + minted
                &&& final(self).only_pool_changed(old(self))
            })),
    ;

    /// Single-sided deposit endpoint: routes the paid token, swaps the
    /// analytic slice internally, deposits the rest, and enforces the
    /// caller's per-asset minimums on the equivalent two-sided deposit.
    fn add_liquidity_single(
        &mut self,
        token_in: TokenId,
        amount_in: u64,
        min_first_token_amount: u64,
        min_second_token_amount: u64,
    ) -> (r: Result<SingleDepositResult, Error>)
        requires
            old(self).well_formed(),
        ensures
            final(self).well_formed(),
            (r == Err::<SingleDepositResult, Error>(Error::InvalidAsset) <==> !old(self).spec_is_pool_token(
                token_in,
            )),
            (r == Err::<SingleDepositResult, Error>(Error::PoolNotInitialized) <==> (old(
                self,
            ).spec_is_pool_token(token_in) && !old(self).pool_state().is_seeded())),
            (r == Err::<SingleDepositResult, Error>(Error::AmountOverflow) <==> (old(
                self,
            ).spec_is_pool_token(token_in) && old(self).pool_state().is_seeded() && amount_in > 0
                && spec_zap_overflow(
                old(self).pool_state(),
                old(self).fee_state(),
                amount_in as int,
                old(self).spec_first_token_in(token_in),
            ))),
            (r == Err::<SingleDepositResult, Error>(Error::InvalidAmount) <==> (old(
                self,
            ).spec_is_pool_token(token_in) && old(self).pool_state().is_seeded() && (amount_in == 0 || (
            !spec_zap_overflow(
                old(self).pool_state(),
                old(self).fee_state(),
                amount_in as int,
                old(self).spec_first_token_in(token_in),
            ) && spec_zap_minted(
                old(self).pool_state(),
                old(self).fee_state(),
                amount_in as int,
                old(self).spec_first_token_in(token_in),
            ) == 0)))),
            (r == Err::<SingleDepositResult, Error>(Error::SlippageExceeded) <==> (old(
                self,
            ).spec_is_pool_token(token_in) && old(self).pool_state().is_seeded() && amount_in > 0
                && !spec_zap_overflow(
                old(self).pool_state(),
                old(self).fee_state(),
                amount_in as int,
                old(self).spec_first_token_in(token_in),
            ) && spec_zap_minted(
                old(self).pool_state(),
                old(self).fee_state(),
                amount_in as int,
                old(self).spec_first_token_in(token_in),
            ) > 0 && ({
                let first_in = old(self).spec_first_token_in(token_in);
                let r_in = old(self).pool_state().spec_reserve_in(first_in) as int;
                let r_out = old(self).pool_state().spec_reserve_out(first_in) as int;
                let x = spec_zap_amount(amount_in as int, r_in, old(self).fee_state().spec_total_fee_bps());
                let y = spec_zap_out(amount_in as int, r_in, r_out, old(self).fee_state());
                let eq_first = if first_in { amount_in - x } else { y };
                let eq_second = if first_in { y } else { amount_in - x };
                eq_first < min_first_token_amount || eq_second < min_second_token_amount
            }))),
            (r matches Err(e) ==> (e == Error::InvalidAsset || e == Error::PoolNotInitialized
                || e == Error::AmountOverflow || e == Error::InvalidAmount
                || e == Error::SlippageExceeded) && *final(self) == *old(self)),
            (r matches Ok(res) ==> ({
                let first_in = old(self).spec_first_token_in(token_in);
                let r_in = old(self).pool_state().spec_reserve_in(first_in) as int;
                let x = spec_zap_amount(amount_in as int, r_in, old(self).fee_state().spec_total_fee_bps());
                let net = spec_zap_net(amount_in as int, r_in, old(self).fee_state());
                let minted = spec_zap_minted(
                    old(self).pool_state(),
                    old(self).fee_state(),
                    amount_in as int,
                    first_in,
                );
                &&& res.lp_payment == (Payment {
                    token: old(self).lp_token_state().spec_token(),
                    amount: minted as u64,
                })
                &&& minted > 0
                &&& res.platform_fee_amount == spec_platform_fee(x, old(self).fee_state().platform_fee_bps as int)
                &&& final(self).pool_state().spec_reserve_in(first_in) == r_in + net + (amount_in - x)
                &&& final(self).pool_state().spec_reserve_out(first_in) == old(
                    self,
                ).pool_state().spec_reserve_out(first_in)
                &&& final(self).pool_state().share_supply == old(self).pool_state().share_supply + minted
                &&& final(self).only_pool_changed(old(self))
            })),
    ;

    /// Withdrawal endpoint: burns the paid shares and pays out both assets
    /// pro rata, subject to the caller's per-asset minimums.
    fn remove_liquidity(&mut self, lp_payment: Payment, min_first_token_amount: u64, min_second_token_amount: u64) -> (r:
        Result<AmountPair, Error>)
        requires
            old(self).well_formed(),
        ensures
            final(self).well_formed(),
            (r == Err::<AmountPair, Error>(Error::PoolNotInitialized) <==> (!old(self).lp_token_state().is_ready()
                || (old(self).spec_lp_payment_ok(lp_payment) && !old(self).pool_state().is_seeded()))),
            (r == Err::<AmountPair, Error>(Error::InvalidAsset) <==> (old(self).lp_token_state().is_ready()
                && !old(self).spec_lp_payment_ok(lp_payment))),
            (r == Err::<AmountPair, Error>(Error::InvalidAmount) <==> (old(self).lp_token_state().is_ready()
                && old(self).spec_lp_payment_ok(lp_payment) && old(self).pool_state().is_seeded()
                && lp_payment.amount == 0)),
            (r == Err::<AmountPair, Error>(Error::InsufficientLiquidity) <==> (old(
                self,
            ).lp_token_state().is_ready() && old(self).spec_lp_payment_ok(lp_payment)
                && old(self).pool_state().is_seeded()
                && lp_payment.amount > old(self).pool_state().share_supply)),
            (r == Err::<AmountPair, Error>(Error::SlippageExceeded) <==> (old(self).lp_token_state().is_ready()
                && old(self).spec_lp_payment_ok(lp_payment) && old(self).pool_state().is_seeded()
                && 0 < lp_payment.amount <= old(self).pool_state().share_supply
                && (old(self).spec_removed_a(lp_payment.amount as int) < min_first_token_amount
                    || old(self).spec_removed_b(lp_payment.amount as int) < min_second_token_amount))),
            (r matches Err(e) ==> (e == Error::PoolNotInitialized || e == Error::InvalidAsset
                || e == Error::InvalidAmount || e == Error::InsufficientLiquidity
                || e == Error::SlippageExceeded) && *final(self) == *old(self)),
            (r matches Ok(out) ==> ({
                let shares = lp_payment.amount;
                let wd_a = old(self).spec_removed_a(shares as int);
                let wd_b = old(self).spec_removed_b(shares as int);
                &&& 0 < shares <= old(self).pool_state().share_supply
                &&& out.amount_a == wd_a && wd_a >= min_first_token_amount
                &&& out.amount_b == wd_b && wd_b >= min_second_token_amount
                &&& final(self).pool_state().reserve_a == old(self).pool_state().reserve_a - wd_a
                &&& final(self).pool_state().reserve_b == old(self).pool_state().reserve_b - wd_b
                &&& final(self).pool_state().share_supply == old(self).pool_state().share_supply - shares
                &&& (shares == old(self).pool_state().share_supply ==> final(self).pool_state() == (PoolState {
                    reserve_a: 0,
                    reserve_b: 0,
                    share_supply: 0,
                }))
                &&& final(self).only_pool_changed(old(self))
            })),
    ;

    /// Withdraw-and-swap endpoint: burns the paid shares, swaps the
    /// unwanted half against the post-withdrawal reserves, and pays
    /// everything out in the requested asset.
    fn remove_liquidity_single(
        &mut self,
        lp_payment: Payment,
        token_out: TokenId,
        min_first_token_amount: u64,
        min_second_token_amount: u64,
    ) -> (r: Result<RemoveSingleResult, Error>)
        requires
            old(self).well_formed(),
        ensures
            final(self).well_formed(),
            (r == Err::<RemoveSingleResult, Error>(Error::InvalidAsset) <==> (old(self).lp_token_state().is_ready()
                && (!old(self).spec_lp_payment_ok(lp_payment) || (old(self).spec_lp_payment_ok(lp_payment)
                    && !old(self).spec_is_pool_token(token_out))))),
            (r == Err::<RemoveSingleResult, Error>(Error::PoolNotInitialized) <==> (!old(
                self,
            ).lp_token_state().is_ready() || (old(self).spec_lp_payment_ok(lp_payment)
                && old(self).spec_is_pool_token(token_out) && (!old(self).pool_state().is_seeded() || (old(
                self,
            ).pool_state().is_seeded() && 0 < lp_payment.amount
                && lp_payment.amount == old(self).pool_state().share_supply))))),
            (r == Err::<RemoveSingleResult, Error>(Error::InvalidAmount) <==> (old(
                self,
            ).lp_token_state().is_ready() && old(self).spec_lp_payment_ok(lp_payment)
                && old(self).spec_is_pool_token(token_out) && old(self).pool_state().is_seeded()
                && (lp_payment.amount == 0 || (0 < lp_payment.amount
                    && lp_payment.amount < old(self).pool_state().share_supply
                    && old(self).spec_remove_single_swap_in(
                        lp_payment.amount as int,
                        token_out == old(self).first_token_id(),
                    ) == 0)))),
            (r == Err::<RemoveSingleResult, Error>(Error::InsufficientLiquidity) <==> (old(
                self,
            ).lp_token_state().is_ready() && old(self).spec_lp_payment_ok(lp_payment)
                && old(self).spec_is_pool_token(token_out) && old(self).pool_state().is_seeded()
                && lp_payment.amount > old(self).pool_state().share_supply)),
            (r == Err::<RemoveSingleResult, Error>(Error::AmountOverflow) <==> (old(
                self,
            ).lp_token_state().is_ready() && old(self).spec_lp_payment_ok(lp_payment)
                && old(self).spec_is_pool_token(token_out) && old(self).pool_state().is_seeded() && ({
                let shares = lp_payment.amount as int;
                let first_out = token_out == old(self).first_token_id();
                &&& 0 < shares < old(self).pool_state().share_supply
                &&& old(self).spec_remove_single_swap_in(shares, first_out) > 0
                &&& (old(self).spec_remove_single_r_in(shares, first_out)
                        + old(self).spec_remove_single_net(shares, first_out) > u64::MAX
                    || (old(self).spec_remove_single_r_in(shares, first_out)
                        + old(self).spec_remove_single_net(shares, first_out) <= u64::MAX
                        && old(self).spec_remove_single_kept(shares, first_out)
                            + old(self).spec_remove_single_out(shares, first_out) > u64::MAX))
            }))),
            (r == Err::<RemoveSingleResult, Error>(Error::SlippageExceeded) <==> (old(
                self,
            ).lp_token_state().is_ready() && old(self).spec_lp_payment_ok(lp_payment)
                && old(self).spec_is_pool_token(token_out) && old(self).pool_state().is_seeded() && ({
                let shares = lp_payment.amount as int;
                let first_out = token_out == old(self).first_token_id();
                let total = old(self).spec_remove_single_kept(shares, first_out)
                    + old(self).spec_remove_single_out(shares, first_out);
                &&& 0 < shares < old(self).pool_state().share_supply
                &&& old(self).spec_remove_single_swap_in(shares, first_out) > 0
                &&& old(self).spec_remove_single_r_in(shares, first_out)
                    + old(self).spec_remove_single_net(shares, first_out) <= u64::MAX
                &&& total <= u64::MAX
                &&& total < (if first_out { min_first_token_amount } else { min_second_token_amount })
            }))),
            (r matches Err(e) ==> (e == Error::InvalidAsset || e == Error::PoolNotInitialized
                || e == Error::InvalidAmount || e == Error::InsufficientLiquidity
                || e == Error::AmountOverflow || e == Error::SlippageExceeded) && *final(self) == *old(self)),
            (r matches Ok(res) ==> ({
                let shares = lp_payment.amount as int;
                let first_out = token_out == old(self).first_token_id();
                let total = old(self).spec_remove_single_kept(shares, first_out)
                    + old(self).spec_remove_single_out(shares, first_out);
                &&& 0 < shares < old(self).pool_state().share_supply
                &&& res.payment_out == (Payment { token: token_out, amount: total as u64 })
                &&& total >= (if first_out { min_first_token_amount } else { min_second_token_amount })
                &&& res.platform_fee_amount == spec_platform_fee(
                    old(self).spec_remove_single_swap_in(shares, first_out),
                    old(self).fee_state().platform_fee_bps as int,
                )
                &&& final(self).pool_state().spec_reserve_in(!first_out) == old(
                    self,
                ).spec_remove_single_r_in(shares, first_out) + old(self).spec_remove_single_net(
                    shares,
                    first_out,
                )
                &&& final(self).pool_state().spec_reserve_out(!first_out) == old(
                    self,
                ).spec_remove_single_r_out(shares, first_out) - old(self).spec_remove_single_out(
                    shares,
                    first_out,
                )
                &&& final(self).pool_state().share_supply == old(self).pool_state().share_supply - shares
                &&& final(self).only_pool_changed(old(self))
            })),
    ;

    /// Read-only mirror of `swap_tokens_fixed_input`: identical arithmetic
    /// against the current state, no mutation.
    fn estimate_amount_out(&self, token_in: TokenId, amount_in: u64) -> (r: Result<EstimateAmountOut, Error>)
        requires
            self.well_formed(),
        ensures
            (r == Err::<EstimateAmountOut, Error>(Error::InvalidAsset) <==> !self.spec_is_pool_token(token_in)),
            (r == Err::<EstimateAmountOut, Error>(Error::PoolNotInitialized) <==> (self.spec_is_pool_token(
                token_in,
            ) && !self.pool_state().is_seeded())),
            (r == Err::<EstimateAmountOut, Error>(Error::InvalidAmount) <==> (self.spec_is_pool_token(token_in)
                && self.pool_state().is_seeded() && amount_in == 0)),
            (r == Err::<EstimateAmountOut, Error>(Error::AmountOverflow) <==> (self.spec_is_pool_token(token_in)
                && self.pool_state().is_seeded() && amount_in > 0
                && self.pool_state().spec_reserve_in(self.spec_first_token_in(token_in))
                    + spec_net_amount(amount_in as int, self.fee_state().platform_fee_bps as int) > u64::MAX)),
            (r matches Err(e) ==> (e == Error::InvalidAsset || e == Error::PoolNotInitialized
                || e == Error::InvalidAmount || e == Error::AmountOverflow)),
            (r matches Ok(o) ==> ({
                let first_in = self.spec_first_token_in(token_in);
                let r_in = self.pool_state().spec_reserve_in(first_in) as int;
                let r_out = self.pool_state().spec_reserve_out(first_in) as int;
                let net = spec_net_amount(amount_in as int, self.fee_state().platform_fee_bps as int);
                &&& o.net_amount_out == spec_amount_out(net, r_in, r_out, self.fee_state().spec_total_fee_bps())
                &&& o.platform_fee_amount == spec_platform_fee(amount_in as int, self.fee_state().platform_fee_bps as int)
                &&& o.lp_fee_amount == spec_lp_fee(
                    amount_in as int,
                    self.fee_state().lp_fee_bps as int,
                    self.fee_state().platform_fee_bps as int,
                )
            })),
    ;

    /// Read-only mirror of `swap_tokens_fixed_output`: the gross input a
    /// trade would require, no mutation.
    fn estimate_amount_in(&self, token_out: TokenId, amount_out: u64) -> (r: Result<EstimateAmountIn, Error>)
        requires
            self.well_formed(),
        ensures
            (r == Err::<EstimateAmountIn, Error>(Error::InvalidAsset) <==> !self.spec_is_pool_token(token_out)),
            (r == Err::<EstimateAmountIn, Error>(Error::PoolNotInitialized) <==> (self.spec_is_pool_token(
                token_out,
            ) && !self.pool_state().is_seeded())),
            (r == Err::<EstimateAmountIn, Error>(Error::InvalidAmount) <==> (self.spec_is_pool_token(token_out)
                && self.pool_state().is_seeded() && amount_out == 0)),
            (r == Err::<EstimateAmountIn, Error>(Error::InsufficientLiquidity) <==> (self.spec_is_pool_token(
                token_out,
            ) && self.pool_state().is_seeded() && amount_out > 0 && ({
                let first_in = !(token_out == self.first_token_id());
                amount_out >= self.pool_state().spec_reserve_out(first_in)
            }))),
            (r == Err::<EstimateAmountIn, Error>(Error::AmountOverflow) <==> (self.spec_is_pool_token(token_out)
                && self.pool_state().is_seeded() && amount_out > 0 && ({
                let first_in = !(token_out == self.first_token_id());
                let r_in = self.pool_state().spec_reserve_in(first_in) as int;
                let r_out = self.pool_state().spec_reserve_out(first_in) as int;
                let gross = spec_amount_in(amount_out as int, r_in, r_out, self.fee_state().spec_total_fee_bps());
                &&& amount_out < r_out
                &&& (gross > u64::MAX || r_in + spec_net_amount(gross, self.fee_state().platform_fee_bps as int)
                    > u64::MAX)
            }))),
            (r matches Err(e) ==> (e == Error::InvalidAsset || e == Error::PoolNotInitialized
                || e == Error::InvalidAmount || e == Error::InsufficientLiquidity
                || e == Error::AmountOverflow)),
            (r matches Ok(o) ==> ({
                let first_in = !(token_out == self.first_token_id());
                let r_in = self.pool_state().spec_reserve_in(first_in) as int;
                let r_out = self.pool_state().spec_reserve_out(first_in) as int;
                let gross = spec_amount_in(amount_out as int, r_in, r_out, self.fee_state().spec_total_fee_bps());
                &&& o.amount_in == gross
                &&& o.platform_fee_amount == spec_platform_fee(gross, self.fee_state().platform_fee_bps as int)
                &&& o.lp_fee_amount == spec_lp_fee(
                    gross,
                    self.fee_state().lp_fee_bps as int,
                    self.fee_state().platform_fee_bps as int,
                )
            })),
    ;

    /// Read-only mirror of `add_liquidity_single`: the shares a deposit
    /// would mint, without the caller's minimums and without mutation.
    fn estimate_add_liquidity_single(&self, token_in: TokenId, amount_in: u64) -> (r: Result<
        EstimateAddLiquidityOut,
        Error,
    >)
        requires
            self.well_formed(),
        ensures
            (r == Err::<EstimateAddLiquidityOut, Error>(Error::InvalidAsset) <==> !self.spec_is_pool_token(
                token_in,
            )),
            (r == Err::<EstimateAddLiquidityOut, Error>(Error::PoolNotInitialized) <==> (self.spec_is_pool_token(
                token_in,
            ) && !self.pool_state().is_seeded())),
            (r == Err::<EstimateAddLiquidityOut, Error>(Error::AmountOverflow) <==> (self.spec_is_pool_token(
                token_in,
            ) && self.pool_state().is_seeded() && amount_in > 0 && spec_zap_overflow(
                self.pool_state(),
                self.fee_state(),
                amount_in as int,
                self.spec_first_token_in(token_in),
            ))),
            (r == Err::<EstimateAddLiquidityOut, Error>(Error::InvalidAmount) <==> (self.spec_is_pool_token(
                token_in,
            ) && self.pool_state().is_seeded() && (amount_in == 0 || (!spec_zap_overflow(
                self.pool_state(),
                self.fee_state(),
                amount_in as int,
                self.spec_first_token_in(token_in),
            ) && spec_zap_minted(
                self.pool_state(),
                self.fee_state(),
                amount_in as int,
                self.spec_first_token_in(token_in),
            ) == 0)))),
            (r matches Err(e) ==> (e == Error::InvalidAsset || e == Error::PoolNotInitialized
                || e == Error::AmountOverflow || e == Error::InvalidAmount)),
            (r matches Ok(o) ==> ({
                let minted = spec_zap_minted(
                    self.pool_state(),
                    self.fee_state(),
                    amount_in as int,
                    self.spec_first_token_in(token_in),
                );
                o.lp_amount == minted && minted > 0
            })),
    ;

    /// Read-only mirror of `remove_liquidity`: what burning shares would
    /// pay out, without mutation.
    fn estimate_remove_liquidity(&self, lp_amount: u64) -> (r: Result<EstimateRemoveLiquidityOut, Error>)
        requires
            self.well_formed(),
        ensures
            (r == Err::<EstimateRemoveLiquidityOut, Error>(Error::PoolNotInitialized) <==> !self.pool_state().is_seeded()),
            (r == Err::<EstimateRemoveLiquidityOut, Error>(Error::InvalidAmount) <==> (self.pool_state().is_seeded()
                && lp_amount == 0)),
            (r == Err::<EstimateRemoveLiquidityOut, Error>(Error::InsufficientLiquidity) <==> (self.pool_state().is_seeded()
                && lp_amount > self.pool_state().share_supply)),
            (r matches Err(e) ==> (e == Error::PoolNotInitialized || e == Error::InvalidAmount
                || e == Error::InsufficientLiquidity)),
            (r matches Ok(o) ==> {
                &&& o.eq_first_tokens == self.spec_removed_a(lp_amount as int)
                &&& o.eq_second_tokens == self.spec_removed_b(lp_amount as int)
            }),
    ;

    /// Read-only mirror of `remove_liquidity_single`: what a
    /// withdraw-and-swap of at most half the supply would pay out. The
    /// withdrawal is simulated first and the swap is priced against the
    /// post-withdrawal reserves, exactly as the mutating path does.
    fn estimate_remove_liquidity_single(&self, lp_amount: u64, token_out: TokenId) -> (r: Result<
        EstimateRemoveLiquidityOut,
        Error,
    >)
        requires
            self.well_formed(),
        ensures
            (r == Err::<EstimateRemoveLiquidityOut, Error>(Error::InsufficientLiquidity) <==> 2 * lp_amount
                > self.pool_state().share_supply),
            (r == Err::<EstimateRemoveLiquidityOut, Error>(Error::PoolNotInitialized) <==> (2 * lp_amount
                <= self.pool_state().share_supply && !self.pool_state().is_seeded())),
            (r == Err::<EstimateRemoveLiquidityOut, Error>(Error::InvalidAmount) <==> (2 * lp_amount
                <= self.pool_state().share_supply && self.pool_state().is_seeded() && (lp_amount == 0 || (
            self.spec_is_pool_token(token_out) && self.spec_remove_single_swap_in(
                lp_amount as int,
                token_out == self.first_token_id(),
            ) == 0)))),
            (r == Err::<EstimateRemoveLiquidityOut, Error>(Error::InvalidAsset) <==> (2 * lp_amount
                <= self.pool_state().share_supply && self.pool_state().is_seeded() && lp_amount > 0
                && !self.spec_is_pool_token(token_out))),
            (r == Err::<EstimateRemoveLiquidityOut, Error>(Error::AmountOverflow) <==> (2 * lp_amount
                <= self.pool_state().share_supply && self.pool_state().is_seeded() && lp_amount > 0
                && self.spec_is_pool_token(token_out) && ({
                let shares = lp_amount as int;
                let first_out = token_out == self.first_token_id();
                &&& self.spec_remove_single_swap_in(shares, first_out) > 0
                &&& (self.spec_remove_single_r_in(shares, first_out)
                        + self.spec_remove_single_net(shares, first_out) > u64::MAX
                    || (self.spec_remove_single_r_in(shares, first_out)
                        + self.spec_remove_single_net(shares, first_out) <= u64::MAX
                        && self.spec_remove_single_kept(shares, first_out)
                            + self.spec_remove_single_out(shares, first_out) > u64::MAX))
            }))),
            (r matches Err(e) ==> (e == Error::InsufficientLiquidity || e == Error::PoolNotInitialized
                || e == Error::InvalidAmount || e == Error::InvalidAsset || e == Error::AmountOverflow)),
            (r matches Ok(o) ==> ({
                let shares = lp_amount as int;
                let first_out = token_out == self.first_token_id();
                let total = self.spec_remove_single_kept(shares, first_out)
                    + self.spec_remove_single_out(shares, first_out);
                &&& o.eq_first_tokens == (if first_out { total } else { 0int })
                &&& o.eq_second_tokens == (if first_out { 0int } else { total })
            })),
    ;
}

/// One pool per deployment: the state aggregate behind the contract
/// interface.
pub struct JexScPair {
    /// Identity of asset A.
    pub first_token: TokenId,
    /// Identity of asset B.
    pub second_token: TokenId,
    /// Where the pool-share token stands in its issuance lifecycle.
    pub lp_token: LpTokenState,
    /// Reserves and share supply.
    pub pool: PoolState,
    /// The two fee rates and the platform receiver.
    pub fee_config: FeeConfig,
}

impl JexScPair {
    /// The issued share token's identity.
    pub fn lp_token_id(&self) -> (r: TokenId)
        requires
            self.lp_token.is_ready(),
        ensures
            r == self.lp_token.spec_token(),
    {
        match self.lp_token {
            LpTokenState::Issued { token } => token,
            _ => 0,
        }
    }
}

impl JexScPairContract for JexScPair {
    open spec fn first_token_id(&self) -> TokenId {
        self.first_token
    }

    open spec fn second_token_id(&self) -> TokenId {
        self.second_token
    }

    open spec fn lp_token_state(&self) -> LpTokenState {
        self.lp_token
    }

    open spec fn pool_state(&self) -> PoolState {
        self.pool
    }

    open spec fn fee_state(&self) -> FeeConfig {
        self.fee_config
    }

    fn init(first_token: TokenId, second_token: TokenId) -> (c: Self) {
        JexScPair {
            first_token,
            second_token,
            lp_token: LpTokenState::NotIssued,
            pool: PoolState::new_empty(),
            fee_config: FeeConfig::new_zero(),
        }
    }

    fn issue_lp_token(&mut self, caller: u64, egld_payment: u64) -> (r: Result<(), Error>) {
        self.lp_token.start_issue(caller, egld_payment)
    }

    fn lp_token_issue_callback(&mut self, success: bool, token: TokenId) -> (refund: Option<(u64, u64)>) {
        self.lp_token.complete_issue(success, token)
    }

    fn configure_liq_providers_fees(&mut self, fees: u32) -> (r: Result<(), Error>) {
        if fees >= FEE_DENOMINATOR || self.fee_config.platform_fee_bps >= FEE_DENOMINATOR - fees {
            return Err(Error::InvalidAmount);
        }
        self.fee_config.lp_fee_bps = fees;
        Ok(())
    }

    fn configure_platform_fees(&mut self, fees: u32, receiver: u64) -> (r: Result<(), Error>) {
        if fees >= FEE_DENOMINATOR || self.fee_config.lp_fee_bps >= FEE_DENOMINATOR - fees {
            return Err(Error::InvalidAmount);
        }
        self.fee_config.platform_fee_bps = fees;
        self.fee_config.platform_fee_receiver = receiver;
        Ok(())
    }

    fn add_initial_liquidity(&mut self, amount_a: u64, amount_b: u64) -> (r: Result<Payment, Error>) {
        if !matches!(self.lp_token, LpTokenState::Issued { .. }) {
            return Err(Error::PoolNotInitialized);
        }
        let lp_id: TokenId = self.lp_token_id();
        let mut scratch: PoolState = self.pool;
        match lp_add_initial_liquidity(&mut scratch, amount_a, amount_b) {
            Ok(shares) => {
                self.pool = scratch;
                Ok(Payment { token: lp_id, amount: shares })
            },
            Err(e) => Err(e),
        }
    }

    fn swap_tokens_fixed_input(&mut self, token_in: TokenId, amount_in: u64, min_amount_out: u64) -> (r:
        Result<SwapFixedInputResult, Error>) {
        let is_first_in: bool = token_in == self.first_token;
        let is_second_in: bool = token_in == self.second_token;
        if !is_first_in && !is_second_in {
            return Err(Error::InvalidAsset);
        }
        let token_out: TokenId = if is_first_in {
            self.second_token
        } else {
            self.first_token
        };
        let mut scratch: PoolState = self.pool;
        match swap_fixed_input_inner(&mut scratch, &self.fee_config, amount_in, is_first_in) {
            Ok(o) => {
                if o.amount_out < min_amount_out {
                    return Err(Error::SlippageExceeded);
                }
                self.pool = scratch;
                Ok(SwapFixedInputResult {
                    payment_out: Payment { token: token_out, amount: o.amount_out },
                    platform_fee_amount: o.platform_fee_amount,
                })
            },
            Err(e) => Err(e),
        }
    }

    fn swap_tokens_fixed_output(&mut self, token_in: TokenId, amount_in: u64, exact_amount_out: u64) -> (r:
        Result<SwapFixedOutputResult, Error>) {
        let is_first_in: bool = token_in == self.first_token;
        let is_second_in: bool = token_in == self.second_token;
        if !is_first_in && !is_second_in {
            return Err(Error::InvalidAsset);
        }
        let token_out: TokenId = if is_first_in {
            self.second_token
        } else {
            self.first_token
        };
        let mut scratch: PoolState = self.pool;
        match swap_fixed_output_inner(&mut scratch, &self.fee_config, exact_amount_out, is_first_in) {
            Ok(o) => {
                if o.amount_in_required > amount_in {
                    return Err(Error::SlippageExceeded);
                }
                self.pool = scratch;
                Ok(SwapFixedOutputResult {
                    payment_out: Payment { token: token_out, amount: exact_amount_out },
                    refund_in: Payment { token: token_in, amount: amount_in - o.amount_in_required },
                    platform_fee_amount: o.platform_fee_amount,
                })
            },
            Err(e) => Err(e),
        }
    }

    fn add_liquidity(&mut self, amount_a: u64, amount_b: u64, min_second_token_amount: u64) -> (r: Result<
        AddLiquidityResult,
        Error,
    >) {
        let mut scratch: PoolState = self.pool;
        match lp_add_liquidity(&mut scratch, amount_a, amount_b) {
            Ok(o) => {
                if o.amount_b_used < min_second_token_amount {
                    return Err(Error::SlippageExceeded);
                }
                let lp_id: TokenId = self.lp_token_id();
                self.pool = scratch;
                Ok(AddLiquidityResult {
                    lp_payment: Payment { token: lp_id, amount: o.shares_minted },
                    amount_b_used: o.amount_b_used,
                    amount_b_refund: o.amount_b_refund,
                })
            },
            Err(e) => Err(e),
        }
    }

    fn add_liquidity_single(
        &mut self,
        token_in: TokenId,
        amount_in: u64,
        min_first_token_amount: u64,
        min_second_token_amount: u64,
    ) -> (r: Result<SingleDepositResult, Error>) {
        let is_first_in: bool = token_in == self.first_token;
        let is_second_in: bool = token_in == self.second_token;
        if !is_first_in && !is_second_in {
            return Err(Error::InvalidAsset);
        }
        let mut scratch: PoolState = self.pool;
        match lp_add_liquidity_single(&mut scratch, &self.fee_config, amount_in, is_first_in) {
            Ok(o) => {
                let rest: u64 = amount_in - o.swap_amount_in;
                let eq_first: u64 = if is_first_in {
                    rest
                } else {
                    o.swap_amount_out
                };
                let eq_second: u64 = if is_first_in {
                    o.swap_amount_out
                } else {
                    rest
                };
                if eq_first < min_first_token_amount || eq_second < min_second_token_amount {
                    return Err(Error::SlippageExceeded);
                }
                let lp_id: TokenId = self.lp_token_id();
                self.pool = scratch;
                Ok(SingleDepositResult {
                    lp_payment: Payment { token: lp_id, amount: o.shares_minted },
                    platform_fee_amount: o.platform_fee_amount,
                })
            },
            Err(e) => Err(e),
        }
    }

    fn remove_liquidity(&mut self, lp_payment: Payment, min_first_token_amount: u64, min_second_token_amount: u64) -> (r:
        Result<AmountPair, Error>) {
        if !matches!(self.lp_token, LpTokenState::Issued { .. }) {
            return Err(Error::PoolNotInitialized);
        }
        let lp_id: TokenId = self.lp_token_id();
        if lp_payment.token != lp_id {
            return Err(Error::InvalidAsset);
        }
        let mut scratch: PoolState = self.pool;
        match lp_remove_liquidity(&mut scratch, lp_payment.amount) {
            Ok(pair) => {
                if pair.amount_a < min_first_token_amount || pair.amount_b < min_second_token_amount {
                    return Err(Error::SlippageExceeded);
                }
                self.pool = scratch;
                Ok(pair)
            },
            Err(e) => Err(e),
        }
    }

    fn remove_liquidity_single(
        &mut self,
        lp_payment: Payment,
        token_out: TokenId,
        min_first_token_amount: u64,
        min_second_token_amount: u64,
    ) -> (r: Result<RemoveSingleResult, Error>) {
        if !matches!(self.lp_token, LpTokenState::Issued { .. }) {
            return Err(Error::PoolNotInitialized);
        }
        let lp_id: TokenId = self.lp_token_id();
        if lp_payment.token != lp_id {
            return Err(Error::InvalidAsset);
        }
        let is_first_out: bool = token_out == self.first_token;
        let is_second_out: bool = token_out == self.second_token;
        if !is_first_out && !is_second_out {
            return Err(Error::InvalidAsset);
        }
        let mut scratch: PoolState = self.pool;
        let pair: AmountPair = match lp_remove_liquidity(&mut scratch, lp_payment.amount) {
            Ok(pair) => pair,
            Err(e) => {
                return Err(e);
            },
        };
        let swap_in: u64 = if is_first_out {
            pair.amount_b
        } else {
            pair.amount_a
        };
        let kept: u64 = if is_first_out {
            pair.amount_a
        } else {
            pair.amount_b
        };
        match swap_fixed_input_inner(&mut scratch, &self.fee_config, swap_in, !is_first_out) {
            Ok(o) => {
                if kept > u64::MAX - o.amount_out {
                    return Err(Error::AmountOverflow);
                }
                let total: u64 = kept + o.amount_out;
                let min_out: u64 = if is_first_out {
                    min_first_token_amount
                } else {
                    min_second_token_amount
                };
                if total < min_out {
                    return Err(Error::SlippageExceeded);
                }
                self.pool = scratch;
                Ok(RemoveSingleResult {
                    payment_out: Payment { token: token_out, amount: total },
                    platform_fee_amount: o.platform_fee_amount,
                })
            },
            Err(e) => Err(e),
        }
    }

    fn estimate_amount_out(&self, token_in: TokenId, amount_in: u64) -> (r: Result<EstimateAmountOut, Error>) {
        let is_first_in: bool = token_in == self.first_token;
        let is_second_in: bool = token_in == self.second_token;
        if !is_first_in && !is_second_in {
            return Err(Error::InvalidAsset);
        }
        swap_estimate_amount_out(&self.pool, &self.fee_config, amount_in, is_first_in)
    }

    fn estimate_amount_in(&self, token_out: TokenId, amount_out: u64) -> (r: Result<EstimateAmountIn, Error>) {
        let is_first_out: bool = token_out == self.first_token;
        let is_second_out: bool = token_out == self.second_token;
        if !is_first_out && !is_second_out {
            return Err(Error::InvalidAsset);
        }
        swap_estimate_amount_in(&self.pool, &self.fee_config, amount_out, !is_first_out)
    }

    fn estimate_add_liquidity_single(&self, token_in: TokenId, amount_in: u64) -> (r: Result<
        EstimateAddLiquidityOut,
        Error,
    >) {
        let is_first_in: bool = token_in == self.first_token;
        let is_second_in: bool = token_in == self.second_token;
        if !is_first_in && !is_second_in {
            return Err(Error::InvalidAsset);
        }
        let mut scratch: PoolState = self.pool;
        match lp_add_liquidity_single(&mut scratch, &self.fee_config, amount_in, is_first_in) {
            Ok(o) => Ok(EstimateAddLiquidityOut { lp_amount: o.shares_minted }),
            Err(e) => Err(e),
        }
    }

    fn estimate_remove_liquidity(&self, lp_amount: u64) -> (r: Result<EstimateRemoveLiquidityOut, Error>) {
        let mut scratch: PoolState = self.pool;
        match lp_remove_liquidity(&mut scratch, lp_amount) {
            Ok(pair) => Ok(EstimateRemoveLiquidityOut {
                eq_first_tokens: pair.amount_a,
                eq_second_tokens: pair.amount_b,
            }),
            Err(e) => Err(e),
        }
    }

    fn estimate_remove_liquidity_single(&self, lp_amount: u64, token_out: TokenId) -> (r: Result<
        EstimateRemoveLiquidityOut,
        Error,
    >) {
        if (lp_amount as u128) * 2 > (self.pool.share_supply as u128) {
            return Err(Error::InsufficientLiquidity);
        }
        let mut scratch: PoolState = self.pool;
        let pair: AmountPair = match lp_remove_liquidity(&mut scratch, lp_amount) {
            Ok(pair) => pair,
            Err(e) => {
                return Err(e);
            },
        };
        let is_first_out: bool = token_out == self.first_token;
        let is_second_out: bool = token_out == self.second_token;
        if !is_first_out && !is_second_out {
            return Err(Error::InvalidAsset);
        }
        let swap_in: u64 = if is_first_out {
            pair.amount_b
        } else {
            pair.amount_a
        };
        let kept: u64 = if is_first_out {
            pair.amount_a
        } else {
            pair.amount_b
        };
        match swap_estimate_amount_out(&scratch, &self.fee_config, swap_in, !is_first_out) {
            Ok(est) => {
                if kept > u64::MAX - est.net_amount_out {
                    return Err(Error::AmountOverflow);
                }
                let total: u64 = kept + est.net_amount_out;
                if is_first_out {
                    Ok(EstimateRemoveLiquidityOut { eq_first_tokens: total, eq_second_tokens: 0 })
                } else {
                    Ok(EstimateRemoveLiquidityOut { eq_first_tokens: 0, eq_second_tokens: total })
                }
            },
            Err(e) => Err(e),
        }
    }
}

} // verus!
