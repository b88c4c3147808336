//! Failure taxonomy: every error aborts only the current invocation and is
//! reported to the caller as a typed result.

use vstd::prelude::*;

verus! {

/// The failure kinds a payment-splitting invocation can report.
#[derive(Clone, Copy, Debug, PartialEq, Eq, Structural)]
pub enum Error {
    /// Reserved: no merchant validation is performed by this core.
    InvalidMerchant,
    /// A quantity required to be strictly positive is zero or negative.
    InvalidAmount,
    /// Idempotency violation: the payment identifier already has a record.
    PaymentAlreadyCompleted,
    /// The payer's queried balance is less than the total required.
    InsufficientBalance,
    /// The acting principal is not the one the operation designates.
    Unauthorized,
    /// A basis-point rate exceeds the full-rate bound.
    InvalidFeeRate,
    /// Reserved for the environment: a transfer rejected by the external
    /// asset ledger aborts the invocation outside this core.
    TransferFailed,
}

} // verus!
