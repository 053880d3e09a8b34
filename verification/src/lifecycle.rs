//! The pool-share token's issuance lifecycle: issuance is asynchronous at
//! the boundary, so the engine tracks an explicit state and decides what
//! each completion outcome means.

use vstd::prelude::*;
use crate::{Error, TokenId};

verus! {

/// Where the pool-share token stands.
///
/// Driven `NotIssued -> Pending -> Issued` by an external completion
/// signal; a failed completion falls back to `NotIssued` and refunds the
/// payment that backed the request.
#[derive(Clone, Copy, Debug, PartialEq, Eq, Structural)]
pub enum LpTokenState {
    /// No issuance has been requested yet.
    NotIssued,
    /// A request is in flight, backed by a payment to refund on failure.
    Pending { caller: u64, egld_payment: u64 },
    /// The share token exists under this identity.
    Issued { token: TokenId },
}

impl LpTokenState {
    /// The share token exists.
    pub open spec fn is_ready(self) -> bool {
        self is Issued
    }

    /// The identity of the issued share token.
    pub open spec fn spec_token(self) -> TokenId
        recommends
            self.is_ready(),
    {
        match self {
            LpTokenState::Issued { token } => token,
            _ => 0,
        }
    }

    /// Begins issuance: only allowed once, and not while a request is in
    /// flight.
    pub fn start_issue(&mut self, caller: u64, egld_payment: u64) -> (r: Result<(), Error>)
        ensures
            (r == Err::<(), Error>(Error::AlreadyInitialized) <==> !(*old(self) is NotIssued)),
            (r matches Err(e) ==> e == Error::AlreadyInitialized && *final(self) == *old(self)),
            (r matches Ok(u) ==> *old(self) is NotIssued && *final(self) == (LpTokenState::Pending {
                caller,
                egld_payment,
            })),
    {
        match self {
            LpTokenState::NotIssued => {
                *self = LpTokenState::Pending { caller, egld_payment };
                Ok(())
            },
            _ => Err(Error::AlreadyInitialized),
        }
    }

    /// Resolves the in-flight issuance: success records the new token
    /// identity; failure reverts and says what to refund to whom.
    pub fn complete_issue(&mut self, success: bool, token: TokenId) -> (refund: Option<(u64, u64)>)
        requires
            *old(self) is Pending,
        ensures
            (success ==> *final(self) == (LpTokenState::Issued { token }) && refund is None),
            (!success ==> *final(self) == LpTokenState::NotIssued && ({
                let payment = old(self)->Pending_egld_payment;
                if payment > 0 {
                    refund == Some((old(self)->Pending_caller, payment))
                } else {
                    refund is None
                }
            })),
    {
        let pending_caller: u64;
        let pending_payment: u64;
        match *self {
            LpTokenState::Pending { caller, egld_payment } => {
                pending_caller = caller;
                pending_payment = egld_payment;
            },
            _ => {
                return None;
            },
        }
        if success {
            *self = LpTokenState::Issued { token };
            None
        } else {
            *self = LpTokenState::NotIssued;
            if pending_payment > 0 {
                Some((pending_caller, pending_payment))
            } else {
                None
            }
        }
    }
}

} // verus!
