//! Fee configuration: the two swap fee rates and the platform-fee receiver.

use vstd::prelude::*;

verus! {

/// Basis-point denominator: fee rates are expressed in 1/10_000.
pub const FEE_DENOMINATOR: u32 = 10_000;

/// The two independently configured fee rates and the platform receiver.
///
/// Pure configuration: the liquidity-provider fee stays in the reserves, the
/// platform fee is carved off the swap input and transferred out.
#[derive(Clone, Copy, Debug, PartialEq, Eq, Structural)]
pub struct FeeConfig {
    /// Liquidity-provider fee, in basis points of 10_000.
    pub lp_fee_bps: u32,
    /// Platform fee, in basis points of 10_000.
    pub platform_fee_bps: u32,
    /// Identity receiving the platform-fee share.
    pub platform_fee_receiver: u64,
}

impl FeeConfig {
    /// Fees can never consume the whole input.
    pub open spec fn well_formed(self) -> bool {
        self.lp_fee_bps + self.platform_fee_bps < FEE_DENOMINATOR
    }

    /// The fee rate folded into the constant-product formula.
    pub open spec fn spec_total_fee_bps(self) -> int {
        self.lp_fee_bps + self.platform_fee_bps
    }

    /// Total fee rate, as executable code.
    pub fn total_fee_bps(&self) -> (r: u32)
        requires
            self.well_formed(),
        ensures
            r == self.spec_total_fee_bps(),
    {
        self.lp_fee_bps + self.platform_fee_bps
    }

    /// Configuration at deployment: no fees, no receiver.
    pub fn new_zero() -> (c: FeeConfig)
        ensures
            c == (FeeConfig { lp_fee_bps: 0, platform_fee_bps: 0, platform_fee_receiver: 0 }),
            c.well_formed(),
    {
        FeeConfig { lp_fee_bps: 0, platform_fee_bps: 0, platform_fee_receiver: 0 }
    }
}

} // verus!
