//! The errors the ledger reports. Every error aborts the call with the ledger
//! exactly as it was: no operation ever applies partially.

use vstd::prelude::*;

verus! {

/// Why a ledger operation was refused.
#[derive(Clone, Copy, Debug, PartialEq, Eq, Structural)]
pub enum Error {
    /// `mint` was called with an attached payment below the minimum payment.
    InsufficientPayment,
    /// An owner-gated operation was called by someone other than the owner.
    Unauthorized,
    /// `withdraw` was called while no collected funds were available.
    NoFundsToWithdraw,
    /// A balance, supply, or collected-funds update would exceed the
    /// representable range.
    ArithmeticOverflow,
}

} // verus!
