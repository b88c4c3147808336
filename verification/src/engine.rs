//! The fee-splitting engine: validation order, fee arithmetic and the
//! per-call decision of both split strategies, over plain values.
//!
//! The functions here are pure: they take the facts the environment has
//! already gathered (the requested amounts, the configured rate, the payer's
//! queried balance, whether the identifier is already settled) and decide
//! the outcome of the call. The surrounding environment performs the
//! transfers and the durable writes that the decision calls for.

use vstd::prelude::*;
use crate::errors::Error;

verus! {

/// Basis points in the whole: a rate of 10000 is 100%.
pub const BPS_DENOMINATOR: u32 = 10000;

/// The platform's cut of a total: the nominal percentage rounded towards
/// zero, so the fee never rounds up and any remainder accrues to the
/// merchant.
pub open spec fn spec_platform_fee(total_amount: int, fee_rate_bps: int) -> int {
    total_amount * fee_rate_bps / (BPS_DENOMINATOR as int)
}

/// What remains of the total once the platform's cut is taken.
pub open spec fn spec_merchant_amount(total_amount: int, fee_rate_bps: int) -> int {
    total_amount - spec_platform_fee(total_amount, fee_rate_bps)
}

/// Law: for every strictly positive total and every rate within
/// `[0, BPS_DENOMINATOR]`, the platform fee and the merchant amount
/// partition the total, and the fee is never negative and never exceeds
/// the total.
pub proof fn lemma_fee_split_partition(total_amount: int, fee_rate_bps: int)
    requires
        0 < total_amount,
        0 <= fee_rate_bps <= BPS_DENOMINATOR,
    ensures
        spec_platform_fee(total_amount, fee_rate_bps) + spec_merchant_amount(total_amount, fee_rate_bps)
            == total_amount,
        0 <= spec_platform_fee(total_amount, fee_rate_bps),
        spec_platform_fee(total_amount, fee_rate_bps) <= total_amount,
{
    assert(0 <= total_amount * fee_rate_bps / 10000 <= total_amount) by (nonlinear_arith)
        requires
            0 < total_amount,
            0 <= fee_rate_bps <= 10000,
    ;
}

/// Computes the platform's cut of `total_amount` at `fee_rate_bps` basis
/// points, truncating towards zero.
pub fn compute_platform_fee(total_amount: i128, fee_rate_bps: u32) -> (r: i128)
    requires
        0 < total_amount,
        fee_rate_bps <= BPS_DENOMINATOR,
        total_amount * fee_rate_bps <= i128::MAX,
    ensures
        r == spec_platform_fee(total_amount as int, fee_rate_bps as int),
        0 <= r <= total_amount,
{
    proof {
        lemma_fee_split_partition(total_amount as int, fee_rate_bps as int);
        assert(0 <= total_amount * fee_rate_bps) by (nonlinear_arith)
            requires
                0 < total_amount,
                0 <= fee_rate_bps,
        ;
    }
    (total_amount * (fee_rate_bps as i128)) / (BPS_DENOMINATOR as i128)
}

/// One computed split: the validated amounts of both legs and their total.
#[derive(Clone, Copy, Debug, PartialEq, Eq, Structural)]
pub struct SplitAmounts {
    /// The whole amount the payer must cover.
    pub total_amount: i128,
    /// The leg owed to the platform's fee wallet.
    pub platform_fee: i128,
    /// The leg owed to the merchant.
    pub merchant_amount: i128,
}

/// The decision of the percentage strategy, in validation order: a
/// non-positive total is invalid, a settled identifier may not settle
/// again, and the payer must cover the whole total.
pub open spec fn spec_percentage_plan(
    total_amount: i128,
    fee_rate_bps: u32,
    payer_balance: i128,
    already_recorded: bool,
) -> Result<SplitAmounts, Error> {
    if total_amount <= 0 {
        Err(Error::InvalidAmount)
    } else if already_recorded {
        Err(Error::PaymentAlreadyCompleted)
    } else if payer_balance < total_amount {
        Err(Error::InsufficientBalance)
    } else {
        Ok(SplitAmounts {
            total_amount,
            platform_fee: spec_platform_fee(total_amount as int, fee_rate_bps as int) as i128,
            merchant_amount: spec_merchant_amount(total_amount as int, fee_rate_bps as int) as i128,
        })
    }
}

/// The decision of the fixed strategy: both legs are mandatory and strictly
/// positive, the total is derived as their sum, and the remaining checks
/// match the percentage strategy.
pub open spec fn spec_fixed_plan(
    merchant_amount: i128,
    platform_fee_amount: i128,
    payer_balance: i128,
    already_recorded: bool,
) -> Result<SplitAmounts, Error> {
    if merchant_amount <= 0 || platform_fee_amount <= 0 {
        Err(Error::InvalidAmount)
    } else if already_recorded {
        Err(Error::PaymentAlreadyCompleted)
    } else if payer_balance < merchant_amount + platform_fee_amount {
        Err(Error::InsufficientBalance)
    } else {
        Ok(SplitAmounts {
            total_amount: (merchant_amount + platform_fee_amount) as i128,
            platform_fee: platform_fee_amount,
            merchant_amount,
        })
    }
}

/// Decides a percentage-based split from the environment's facts alone.
pub fn plan_percentage_split(
    total_amount: i128,
    fee_rate_bps: u32,
    payer_balance: i128,
    already_recorded: bool,
) -> (r: Result<SplitAmounts, Error>)
    requires
        fee_rate_bps <= BPS_DENOMINATOR,
        0 < total_amount ==> total_amount * fee_rate_bps <= i128::MAX,
    ensures
        r == spec_percentage_plan(total_amount, fee_rate_bps, payer_balance, already_recorded),
        r matches Ok(a) ==> a.platform_fee + a.merchant_amount == a.total_amount
            && 0 <= a.platform_fee <= a.total_amount
            && a.total_amount == total_amount,
{
    if total_amount <= 0 {
        return Err(Error::InvalidAmount);
    }
    if already_recorded {
        return Err(Error::PaymentAlreadyCompleted);
    }
    if payer_balance < total_amount {
        return Err(Error::InsufficientBalance);
    }
    let platform_fee = compute_platform_fee(total_amount, fee_rate_bps);
    let merchant_amount = total_amount - platform_fee;
    Ok(SplitAmounts { total_amount, platform_fee, merchant_amount })
}

/// Decides a fixed split from the environment's facts alone.
pub fn plan_fixed_split(
    merchant_amount: i128,
    platform_fee_amount: i128,
    payer_balance: i128,
    already_recorded: bool,
) -> (r: Result<SplitAmounts, Error>)
    requires
        (0 < merchant_amount && 0 < platform_fee_amount)
            ==> merchant_amount + platform_fee_amount <= i128::MAX,
    ensures
        r == spec_fixed_plan(merchant_amount, platform_fee_amount, payer_balance, already_recorded),
        r matches Ok(a) ==> a.platform_fee + a.merchant_amount == a.total_amount
            && 0 < a.platform_fee
            && 0 < a.merchant_amount,
{
    if merchant_amount <= 0 || platform_fee_amount <= 0 {
        return Err(Error::InvalidAmount);
    }
    if already_recorded {
        return Err(Error::PaymentAlreadyCompleted);
    }
    let total_amount = merchant_amount + platform_fee_amount;
    if payer_balance < total_amount {
        return Err(Error::InsufficientBalance);
    }
    Ok(SplitAmounts { total_amount, platform_fee: platform_fee_amount, merchant_amount })
}

/// Validates a basis-point rate against the full-rate bound.
pub fn validate_fee_rate(fee_rate_bps: u32) -> (r: Result<(), Error>)
    ensures
        r == (if fee_rate_bps > BPS_DENOMINATOR {
            Err::<(), Error>(Error::InvalidFeeRate)
        } else {
            Ok::<(), Error>(())
        }),
{
    if fee_rate_bps > BPS_DENOMINATOR {
        Err(Error::InvalidFeeRate)
    } else {
        Ok(())
    }
}

} // verus!
