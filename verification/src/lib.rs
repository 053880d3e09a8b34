//! Pricing and accounting engine of a two-asset constant-product liquidity
//! pool: paired reserves, a pool-share token, and exchange-rate computation
//! for swaps, deposits and withdrawals under two configurable fee rates.
//!
//! The crate is split along the responsibilities of the engine:
//! integer groundwork ([`math`]), fee configuration ([`fees`]), the pool
//! bookkeeping state ([`pool`]), the pure pricing formulas ([`pricing`]),
//! share mint/burn accounting ([`liquidity`]), swap orchestration ([`swap`]),
//! the share-token issuance lifecycle ([`lifecycle`]), and the contract
//! facade that ties them together ([`contract`]).

use vstd::prelude::*;

pub mod contract;
pub mod fees;
pub mod lifecycle;
pub mod liquidity;
pub mod math;
pub mod pool;
pub mod pricing;
pub mod swap;

verus! {

/// Identity of a fungible asset, as assigned by the boundary layer.
pub type TokenId = u64;

/// Every way an operation of the engine can fail.
///
/// All failures are synchronous and leave the pool state untouched.
#[derive(Clone, Copy, Debug, PartialEq, Eq, Structural)]
pub enum Error {
    /// A token handed in is not one of the pool's assets.
    InvalidAsset,
    /// A zero amount where a positive amount is required.
    InvalidAmount,
    /// The pool has no share token or no liquidity yet.
    PoolNotInitialized,
    /// A computed amount violates a caller-supplied minimum or maximum.
    SlippageExceeded,
    /// A requested output meets or exceeds the available reserve.
    InsufficientLiquidity,
    /// The share token was already issued, or the pool already seeded.
    AlreadyInitialized,
    /// A computed amount does not fit the machine's amount type.
    AmountOverflow,
}

/// An amount of one concrete asset, to be transferred by the boundary layer.
#[derive(Clone, Copy, Debug, PartialEq, Eq, Structural)]
pub struct Payment {
    pub token: TokenId,
    pub amount: u64,
}

} // verus!
