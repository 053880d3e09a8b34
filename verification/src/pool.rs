//! The pool's bookkeeping state: paired reserves and the share supply.

use vstd::prelude::*;

verus! {

/// Reserves of the two paired assets and the total supply of pool shares.
///
/// The single source of truth for invariant checks: every deposit, withdrawal
/// and swap reads and mutates exactly one value of this type.
#[derive(Clone, Copy, Debug, PartialEq, Eq, Structural)]
pub struct PoolState {
    /// The pool's holdings of asset A.
    pub reserve_a: u64,
    /// The pool's holdings of asset B.
    pub reserve_b: u64,
    /// Total minted pool-share units.
    pub share_supply: u64,
}

/// A pair of asset amounts, used for deposit and withdrawal accounting.
#[derive(Clone, Copy, Debug, PartialEq, Eq, Structural)]
pub struct AmountPair {
    pub amount_a: u64,
    pub amount_b: u64,
}

impl PoolState {
    /// The pool is either empty or fully initialized: each reserve is zero
    /// exactly when the share supply is zero.
    pub open spec fn well_formed(self) -> bool {
        &&& (self.reserve_a == 0 <==> self.share_supply == 0)
        &&& (self.reserve_b == 0 <==> self.share_supply == 0)
    }

    /// Initial liquidity has been deposited.
    pub open spec fn is_seeded(self) -> bool {
        self.share_supply > 0
    }

    /// The constant-product quantity that swaps may only grow.
    pub open spec fn reserve_product(self) -> int {
        self.reserve_a * self.reserve_b
    }

    /// The reserve of the asset flowing into the pool, by direction.
    pub open spec fn spec_reserve_in(self, first_token_in: bool) -> u64 {
        if first_token_in {
            self.reserve_a
        } else {
            self.reserve_b
        }
    }

    /// The reserve of the asset flowing out of the pool, by direction.
    pub open spec fn spec_reserve_out(self, first_token_in: bool) -> u64 {
        if first_token_in {
            self.reserve_b
        } else {
            self.reserve_a
        }
    }

    /// An empty pool, as created at deployment.
    pub fn new_empty() -> (p: PoolState)
        ensures
            p == (PoolState { reserve_a: 0, reserve_b: 0, share_supply: 0 }),
            p.well_formed(),
    {
        PoolState { reserve_a: 0, reserve_b: 0, share_supply: 0 }
    }

    /// Reserve of the incoming asset, as executable code.
    pub fn reserve_in(&self, first_token_in: bool) -> (r: u64)
        ensures
            r == self.spec_reserve_in(first_token_in),
    {
        if first_token_in {
            self.reserve_a
        } else {
            self.reserve_b
        }
    }

    /// Reserve of the outgoing asset, as executable code.
    pub fn reserve_out(&self, first_token_in: bool) -> (r: u64)
        ensures
            r == self.spec_reserve_out(first_token_in),
    {
        if first_token_in {
            self.reserve_b
        } else {
            self.reserve_a
        }
    }
}

} // verus!
