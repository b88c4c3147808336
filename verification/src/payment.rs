//! The unit of settled history: one immutable receipt per payment identifier.

use vstd::prelude::*;
use crate::principal::Principal;

verus! {

/// The split strategy a payment was settled under, kept for audit purposes.
#[derive(Clone, Copy, Debug, PartialEq, Eq, Structural)]
pub enum PaymentType {
    /// The platform fee was derived from the configured basis-point rate.
    Percentage,
    /// Both legs were supplied directly by the caller.
    Fixed,
}

/// A finalized payment record. A record does not exist until a split
/// operation succeeds; once created it is immutable and permanent.
#[derive(Debug, PartialEq, Eq)]
pub struct Payment {
    /// Caller-chosen unique identifier: the idempotency key.
    pub id: String,
    /// The payer the funds were drawn from.
    pub user: Principal,
    /// The merchant paid by the second leg (not the fee recipient).
    pub merchant: Principal,
    /// The whole amount moved, in the asset's smallest unit.
    pub total_amount: i128,
    /// The platform's leg of the split.
    pub platform_fee: i128,
    /// The merchant's leg of the split.
    pub merchant_amount: i128,
    /// Logical settlement time, supplied by the environment's clock.
    pub timestamp: u64,
    /// Always true for a stored record: there is no pending state.
    pub completed: bool,
    /// Which split strategy produced the amounts.
    pub payment_type: PaymentType,
}

impl Payment {
    /// A stored record is internally consistent: settled, strictly positive
    /// total, both legs non-negative, and the two legs partition the total.
    pub open spec fn consistent(self) -> bool {
        &&& self.completed
        &&& 0 < self.total_amount
        &&& 0 <= self.platform_fee
        &&& 0 <= self.merchant_amount
        &&& self.platform_fee + self.merchant_amount == self.total_amount
    }
}

impl Clone for Payment {
    fn clone(&self) -> (r: Payment)
        ensures
            r == *self,
    {
        Payment {
            id: self.id.clone(),
            user: self.user,
            merchant: self.merchant,
            total_amount: self.total_amount,
            platform_fee: self.platform_fee,
            merchant_amount: self.merchant_amount,
            timestamp: self.timestamp,
            completed: self.completed,
            payment_type: self.payment_type,
        }
    }
}

} // verus!
