//! The payment splitter's state and its operations.
//!
//! `CrynkPaymentSplitter` carries the configuration store (administrator,
//! fee wallet, asset-ledger reference, basis-point rate, payment counter)
//! and the payment ledger (the append-only, write-once-per-key record
//! store). Every state-mutating operation takes the facts the environment
//! supplies — which principal authorized the invocation, the payer's
//! queried balance, the clock — decides the outcome, updates the state and
//! returns the transfer legs the environment must execute. The environment
//! is trusted to execute an invocation all-or-nothing: if a returned leg is
//! rejected by the asset ledger, the environment aborts the invocation and
//! discards the state it produced.

use vstd::prelude::*;
use crate::engine::BPS_DENOMINATOR;
use crate::engine::plan_fixed_split;
use crate::engine::plan_percentage_split;
use crate::engine::lemma_fee_split_partition;
use crate::engine::spec_fixed_plan;
use crate::engine::spec_merchant_amount;
use crate::engine::spec_percentage_plan;
use crate::engine::spec_platform_fee;
use crate::engine::validate_fee_rate;
use crate::errors::Error;
use crate::payment::Payment;
use crate::payment::PaymentType;
use crate::principal::Principal;

verus! {

/// One instruction to the external asset ledger: move `amount` from `from`
/// to `to`.
#[derive(Clone, Copy, Debug, PartialEq, Eq, Structural)]
pub struct TransferLeg {
    pub from: Principal,
    pub to: Principal,
    pub amount: i128,
}

/// The legs the percentage strategy issues: the fee leg and the merchant
/// leg, each skipped when its amount is zero.
pub open spec fn spec_percentage_legs(
    user: Principal,
    merchant: Principal,
    fee_wallet: Principal,
    platform_fee: i128,
    merchant_amount: i128,
) -> Seq<TransferLeg> {
    let fee_part = if platform_fee > 0 {
        seq![(TransferLeg { from: user, to: fee_wallet, amount: platform_fee })]
    } else {
        Seq::<TransferLeg>::empty()
    };
    let merchant_part = if merchant_amount > 0 {
        seq![(TransferLeg { from: user, to: merchant, amount: merchant_amount })]
    } else {
        Seq::<TransferLeg>::empty()
    };
    fee_part + merchant_part
}

/// The legs the fixed strategy issues: both legs unconditionally, the fee
/// leg first.
pub open spec fn spec_fixed_legs(
    user: Principal,
    merchant: Principal,
    fee_wallet: Principal,
    platform_fee: i128,
    merchant_amount: i128,
) -> Seq<TransferLeg> {
    seq![
        (TransferLeg { from: user, to: fee_wallet, amount: platform_fee }),
        (TransferLeg { from: user, to: merchant, amount: merchant_amount }),
    ]
}

/// The whole persistent state of the payment splitter.
#[derive(Debug)]
pub struct CrynkPaymentSplitter {
    /// Principal permitted to change the fee wallet and the fee rate.
    pub admin: Principal,
    /// Principal receiving the platform-fee leg of every split.
    pub fee_wallet: Principal,
    /// Reference to the external fungible-asset ledger used for transfers.
    pub token_address: Principal,
    /// Platform fee in basis points, always within `[0, BPS_DENOMINATOR]`.
    pub platform_fee_rate: u32,
    /// Incremented exactly once per successful split, never decremented.
    pub payment_count: u64,
    /// The payment ledger: one immutable record per settled identifier.
    pub payments: Vec<Payment>,
}

impl CrynkPaymentSplitter {
    /// Whether the ledger holds a record for `id`.
    pub open spec fn spec_has_payment(self, id: Seq<char>) -> bool {
        exists|i: int|
            0 <= i < self.payments@.len() && (#[trigger] self.payments@[i]).id@ == id
    }

    /// No two records share an identifier.
    pub open spec fn ids_unique(self) -> bool {
        forall|i: int, j: int|
            0 <= i < j < self.payments@.len()
                ==> (#[trigger] self.payments@[i]).id@ != (#[trigger] self.payments@[j]).id@
    }

    /// Well-formedness: the rate is within bounds, the counter counts the
    /// records, identifiers are unique and every record is consistent.
    pub open spec fn wf(self) -> bool {
        &&& self.platform_fee_rate <= BPS_DENOMINATOR
        &&& self.payment_count == self.payments@.len()
        &&& self.ids_unique()
        &&& forall|i: int|
            0 <= i < self.payments@.len() ==> (#[trigger] self.payments@[i]).consistent()
    }

    /// The record stored under `id`; meaningful when `spec_has_payment(id)`.
    pub open spec fn spec_payment_for(self, id: Seq<char>) -> Payment {
        self.payments@[choose|i: int|
            0 <= i < self.payments@.len() && (#[trigger] self.payments@[i]).id@ == id]
    }

    /// The configuration fields two states share.
    pub open spec fn same_config(self, other: Self) -> bool {
        &&& self.admin == other.admin
        &&& self.fee_wallet == other.fee_wallet
        &&& self.token_address == other.token_address
        &&& self.platform_fee_rate == other.platform_fee_rate
    }

    /// The decision of a percentage split request, in validation order:
    /// authorization, amount, idempotency, solvency.
    pub open spec fn spec_split_outcome(
        self,
        invoker: Principal,
        user: Principal,
        id: Seq<char>,
        total_amount: i128,
        payer_balance: i128,
    ) -> Result<(), Error> {
        if invoker != user {
            Err(Error::Unauthorized)
        } else {
            match spec_percentage_plan(
                total_amount,
                self.platform_fee_rate,
                payer_balance,
                self.spec_has_payment(id),
            ) {
                Ok(_) => Ok(()),
                Err(e) => Err(e),
            }
        }
    }

    /// The decision of a fixed split request, in the same order.
    pub open spec fn spec_split_fixed_outcome(
        self,
        invoker: Principal,
        user: Principal,
        id: Seq<char>,
        merchant_amount: i128,
        platform_fee_amount: i128,
        payer_balance: i128,
    ) -> Result<(), Error> {
        if invoker != user {
            Err(Error::Unauthorized)
        } else {
            match spec_fixed_plan(
                merchant_amount,
                platform_fee_amount,
                payer_balance,
                self.spec_has_payment(id),
            ) {
                Ok(_) => Ok(()),
                Err(e) => Err(e),
            }
        }
    }

    /// Sets up the splitter once per deployment: the administrator must
    /// authorize the call and the rate must be within bounds; the counter
    /// is seeded at zero and the ledger starts empty.
    pub fn initialize(
        invoker: &Principal,
        admin: Principal,
        fee_wallet: Principal,
        token_address: Principal,
        platform_fee_rate: u32,
    ) -> (r: Result<CrynkPaymentSplitter, Error>)
        ensures
            *invoker != admin ==> r == Err::<CrynkPaymentSplitter, Error>(Error::Unauthorized),
            *invoker == admin && platform_fee_rate > BPS_DENOMINATOR
                ==> r == Err::<CrynkPaymentSplitter, Error>(Error::InvalidFeeRate),
            *invoker == admin && platform_fee_rate <= BPS_DENOMINATOR
                ==> (r matches Ok(s)
                    && s.wf()
                    && s.admin == admin
                    && s.fee_wallet == fee_wallet
                    && s.token_address == token_address
                    && s.platform_fee_rate == platform_fee_rate
                    && s.payment_count == 0
                    && s.payments@.len() == 0),
    {
        if *invoker != admin {
            return Err(Error::Unauthorized);
        }
        match validate_fee_rate(platform_fee_rate) {
            Err(e) => Err(e),
            Ok(()) => Ok(CrynkPaymentSplitter {
                admin,
                fee_wallet,
                token_address,
                platform_fee_rate,
                payment_count: 0,
                payments: Vec::new(),
            }),
        }
    }

    /// Looks the ledger up by identifier.
    fn find_payment(&self, payment_id: &String) -> (r: Option<usize>)
        ensures
            match r {
                Some(i) => i < self.payments@.len() && self.payments@[i as int].id@ == payment_id@,
                None => !self.spec_has_payment(payment_id@),
            },
    {
        let mut i: usize = 0;
        while i < self.payments.len()
            invariant
                i <= self.payments@.len(),
                forall|j: int| 0 <= j < i ==> (#[trigger] self.payments@[j]).id@ != payment_id@,
            decreases self.payments@.len() - i,
        {
            if self.payments[i].id == *payment_id {
                return Some(i);
            }
            i += 1;
        }
        None
    }

    /// Splits `total_amount` between the platform and the merchant at the
    /// configured rate, records the settlement and returns the transfer
    /// legs the environment must execute against the asset ledger.
    pub fn split_payment(
        &mut self,
        invoker: &Principal,
        user: Principal,
        payment_id: &String,
        merchant: Principal,
        total_amount: i128,
        payer_balance: i128,
        timestamp: u64,
    ) -> (r: Result<Vec<TransferLeg>, Error>)
        requires
            old(self).wf(),
            0 < total_amount ==> total_amount * old(self).platform_fee_rate <= i128::MAX,
        ensures
            final(self).wf(),
            old(self).same_config(*final(self)),
            ((r is Ok) <==> old(self).spec_split_outcome(
                *invoker, user, payment_id@, total_amount, payer_balance) is Ok),
            (r matches Err(e) ==> old(self).spec_split_outcome(
                *invoker, user, payment_id@, total_amount, payer_balance) == Err::<(), Error>(e)
                && *final(self) == *old(self)),
            (r matches Ok(legs) ==> ({
                let rec = final(self).payments@.last();
                &&& final(self).payments@ == old(self).payments@.push(rec)
                &&& final(self).payment_count == old(self).payment_count + 1
                &&& rec.id@ == payment_id@
                &&& rec.user == user
                &&& rec.merchant == merchant
                &&& rec.total_amount == total_amount
                &&& rec.platform_fee == spec_platform_fee(
                    total_amount as int, old(self).platform_fee_rate as int)
                &&& rec.merchant_amount == spec_merchant_amount(
                    total_amount as int, old(self).platform_fee_rate as int)
                &&& rec.timestamp == timestamp
                &&& rec.completed
                &&& rec.payment_type == PaymentType::Percentage
                &&& legs@ == spec_percentage_legs(
                    user, merchant, old(self).fee_wallet, rec.platform_fee, rec.merchant_amount)
                &&& final(self).spec_has_payment(payment_id@)
            })),
    {
        if *invoker != user {
            return Err(Error::Unauthorized);
        }
        let already = self.find_payment(payment_id).is_some();
        match plan_percentage_split(total_amount, self.platform_fee_rate, payer_balance, already) {
            Err(e) => Err(e),
            Ok(a) => {
                proof {
                    lemma_fee_split_partition(
                        total_amount as int, self.platform_fee_rate as int);
                }
                let mut legs: Vec<TransferLeg> = Vec::new();
                if a.platform_fee > 0 {
                    legs.push(TransferLeg {
                        from: user,
                        to: self.fee_wallet,
                        amount: a.platform_fee,
                    });
                }
                if a.merchant_amount > 0 {
                    legs.push(TransferLeg { from: user, to: merchant, amount: a.merchant_amount });
                }
                proof {
                    assert(legs@ =~= spec_percentage_legs(
                        user, merchant, self.fee_wallet, a.platform_fee, a.merchant_amount));
                }
                let record = Payment {
                    id: payment_id.clone(),
                    user,
                    merchant,
                    total_amount: a.total_amount,
                    platform_fee: a.platform_fee,
                    merchant_amount: a.merchant_amount,
                    timestamp,
                    completed: true,
                    payment_type: PaymentType::Percentage,
                };
                self.record_settlement(record);
                Ok(legs)
            }
        }
    }

    /// Splits a payment into caller-supplied legs, records the settlement
    /// and returns both transfer legs unconditionally.
    pub fn split_payment_fixed(
        &mut self,
        invoker: &Principal,
        user: Principal,
        payment_id: &String,
        merchant: Principal,
        merchant_amount: i128,
        platform_fee_amount: i128,
        payer_balance: i128,
        timestamp: u64,
    ) -> (r: Result<Vec<TransferLeg>, Error>)
        requires
            old(self).wf(),
            (0 < merchant_amount && 0 < platform_fee_amount)
                ==> merchant_amount + platform_fee_amount <= i128::MAX,
        ensures
            final(self).wf(),
            old(self).same_config(*final(self)),
            ((r is Ok) <==> old(self).spec_split_fixed_outcome(
                *invoker, user, payment_id@, merchant_amount, platform_fee_amount,
                payer_balance) is Ok),
            (r matches Err(e) ==> old(self).spec_split_fixed_outcome(
                *invoker, user, payment_id@, merchant_amount, platform_fee_amount, payer_balance)
                == Err::<(), Error>(e)
                && *final(self) == *old(self)),
            (r matches Ok(legs) ==> ({
                let rec = final(self).payments@.last();
                &&& final(self).payments@ == old(self).payments@.push(rec)
                &&& final(self).payment_count == old(self).payment_count + 1
                &&& rec.id@ == payment_id@
                &&& rec.user == user
                &&& rec.merchant == merchant
                &&& rec.total_amount == merchant_amount + platform_fee_amount
                &&& rec.platform_fee == platform_fee_amount
                &&& rec.merchant_amount == merchant_amount
                &&& rec.timestamp == timestamp
                &&& rec.completed
                &&& rec.payment_type == PaymentType::Fixed
                &&& legs@ == spec_fixed_legs(
                    user, merchant, old(self).fee_wallet, platform_fee_amount, merchant_amount)
                &&& final(self).spec_has_payment(payment_id@)
            })),
    {
        if *invoker != user {
            return Err(Error::Unauthorized);
        }
        let already = self.find_payment(payment_id).is_some();
        match plan_fixed_split(merchant_amount, platform_fee_amount, payer_balance, already) {
            Err(e) => Err(e),
            Ok(a) => {
                let mut legs: Vec<TransferLeg> = Vec::new();
                legs.push(TransferLeg {
                    from: user,
                    to: self.fee_wallet,
                    amount: a.platform_fee,
                });
                legs.push(TransferLeg { from: user, to: merchant, amount: a.merchant_amount });
                proof {
                    assert(legs@ =~= spec_fixed_legs(
                        user, merchant, self.fee_wallet, a.platform_fee, a.merchant_amount));
                }
                let record = Payment {
                    id: payment_id.clone(),
                    user,
                    merchant,
                    total_amount: a.total_amount,
                    platform_fee: a.platform_fee,
                    merchant_amount: a.merchant_amount,
                    timestamp,
                    completed: true,
                    payment_type: PaymentType::Fixed,
                };
                self.record_settlement(record);
                Ok(legs)
            }
        }
    }

    /// Appends a fresh, consistent record and advances the counter: the
    /// write-once step shared by both split strategies.
    fn record_settlement(&mut self, record: Payment)
        requires
            old(self).wf(),
            record.consistent(),
            !old(self).spec_has_payment(record.id@),
        ensures
            final(self).wf(),
            old(self).same_config(*final(self)),
            final(self).payments@ == old(self).payments@.push(record),
            final(self).payment_count == old(self).payment_count + 1,
            final(self).spec_has_payment(record.id@),
    {
        self.payments.push(record);
        let n = self.payments.len();
        proof {
            assert(n as int == old(self).payments@.len() + 1);
            assert(usize::MAX as int <= u64::MAX as int);
        }
        self.payment_count = n as u64;
        proof {
            let ghost s = self.payments@;
            assert(s[s.len() - 1].id@ == record.id@);
            assert forall|i: int, j: int| 0 <= i < j < s.len()
                implies (#[trigger] s[i]).id@ != (#[trigger] s[j]).id@ by {
                if j < s.len() - 1 {
                    assert(old(self).ids_unique());
                } else {
                    assert(s[i] == old(self).payments@[i]);
                    assert(!old(self).spec_has_payment(record.id@));
                }
            }
            assert forall|i: int| 0 <= i < s.len()
                implies (#[trigger] s[i]).consistent() by {
                if i < s.len() - 1 {
                    assert(s[i] == old(self).payments@[i]);
                }
            }
        }
    }

    /// Returns a copy of the record stored under `payment_id`, if any.
    pub fn get_payment(&self, payment_id: &String) -> (r: Option<Payment>)
        requires
            self.wf(),
        ensures
            (r is Some) == self.spec_has_payment(payment_id@),
            (r matches Some(p) ==> p == self.spec_payment_for(payment_id@)
                && p.id@ == payment_id@),
    {
        match self.find_payment(payment_id) {
            None => None,
            Some(i) => {
                let p = self.payments[i].clone();
                proof {
                    // Identifiers are unique, so the found index is the one
                    // `spec_payment_for` selects.
                    let k = choose|k: int|
                        0 <= k < self.payments@.len()
                            && (#[trigger] self.payments@[k]).id@ == payment_id@;
                    assert(self.payments@[i as int].id@ == payment_id@);
                    if k < i as int {
                        assert(self.payments@[k].id@ != self.payments@[i as int].id@);
                    } else if (i as int) < k {
                        assert(self.payments@[i as int].id@ != self.payments@[k].id@);
                    }
                }
                Some(p)
            }
        }
    }

    /// The number of successful split calls since initialization.
    pub fn get_payment_count(&self) -> (r: u64)
        ensures
            r == self.payment_count,
    {
        self.payment_count
    }

    /// Overwrites the fee wallet; only the administrator may do so.
    pub fn update_fee_wallet(&mut self, invoker: &Principal, new_fee_wallet: Principal) -> (r:
        Result<(), Error>)
        ensures
            *invoker != old(self).admin
                ==> r == Err::<(), Error>(Error::Unauthorized) && *final(self) == *old(self),
            *invoker == old(self).admin
                ==> r == Ok::<(), Error>(())
                    && final(self).fee_wallet == new_fee_wallet
                    && final(self).admin == old(self).admin
                    && final(self).token_address == old(self).token_address
                    && final(self).platform_fee_rate == old(self).platform_fee_rate
                    && final(self).payment_count == old(self).payment_count
                    && final(self).payments == old(self).payments,
            old(self).wf() ==> final(self).wf(),
    {
        if *invoker != self.admin {
            return Err(Error::Unauthorized);
        }
        self.fee_wallet = new_fee_wallet;
        Ok(())
    }

    /// Overwrites the basis-point rate; only the administrator may do so,
    /// and the bound is re-validated on every write.
    pub fn update_platform_fee_rate(&mut self, invoker: &Principal, new_rate: u32) -> (r: Result<
        (),
        Error,
    >)
        ensures
            *invoker != old(self).admin
                ==> r == Err::<(), Error>(Error::Unauthorized) && *final(self) == *old(self),
            *invoker == old(self).admin && new_rate > BPS_DENOMINATOR
                ==> r == Err::<(), Error>(Error::InvalidFeeRate) && *final(self) == *old(self),
            *invoker == old(self).admin && new_rate <= BPS_DENOMINATOR
                ==> r == Ok::<(), Error>(())
                    && final(self).platform_fee_rate == new_rate
                    && final(self).admin == old(self).admin
                    && final(self).fee_wallet == old(self).fee_wallet
                    && final(self).token_address == old(self).token_address
                    && final(self).payment_count == old(self).payment_count
                    && final(self).payments == old(self).payments,
            old(self).wf() ==> final(self).wf(),
    {
        if *invoker != self.admin {
            return Err(Error::Unauthorized);
        }
        match validate_fee_rate(new_rate) {
            Err(e) => Err(e),
            Ok(()) => {
                self.platform_fee_rate = new_rate;
                Ok(())
            }
        }
    }

    /// The current fee wallet.
    pub fn get_fee_wallet(&self) -> (r: Principal)
        ensures
            r == self.fee_wallet,
    {
        self.fee_wallet
    }

    /// The current basis-point rate.
    pub fn get_platform_fee_rate(&self) -> (r: u32)
        ensures
            r == self.platform_fee_rate,
    {
        self.platform_fee_rate
    }

    /// The current asset-ledger reference.
    pub fn get_token_address(&self) -> (r: Principal)
        ensures
            r == self.token_address,
    {
        self.token_address
    }
}

/// Law: settlement is exactly-once per identifier. In any state whose
/// ledger holds a record for `id` — in particular after a successful
/// percentage split for `id` — an authorized percentage split request for
/// `id` with a strictly positive amount reports `PaymentAlreadyCompleted`,
/// whatever its other arguments.
pub proof fn lemma_split_payment_idempotent(
    s: CrynkPaymentSplitter,
    invoker: Principal,
    user: Principal,
    id: Seq<char>,
    total_amount: i128,
    payer_balance: i128,
)
    requires
        s.spec_has_payment(id),
        invoker == user,
        0 < total_amount,
    ensures
        s.spec_split_outcome(invoker, user, id, total_amount, payer_balance)
            == Err::<(), Error>(Error::PaymentAlreadyCompleted),
{
}

/// Law: the fixed strategy honours the same exactly-once rule: once `id`
/// is recorded, an authorized fixed split request for `id` with strictly
/// positive legs reports `PaymentAlreadyCompleted`.
pub proof fn lemma_split_payment_fixed_idempotent(
    s: CrynkPaymentSplitter,
    invoker: Principal,
    user: Principal,
    id: Seq<char>,
    merchant_amount: i128,
    platform_fee_amount: i128,
    payer_balance: i128,
)
    requires
        s.spec_has_payment(id),
        invoker == user,
        0 < merchant_amount,
        0 < platform_fee_amount,
    ensures
        s.spec_split_fixed_outcome(
            invoker, user, id, merchant_amount, platform_fee_amount, payer_balance)
            == Err::<(), Error>(Error::PaymentAlreadyCompleted),
{
}

/// Law: the payment counter counts exactly the successful splits. Each
/// split appends one record and adds one to the counter when it succeeds
/// and leaves the state unchanged when it fails, so in every well-formed
/// state the counter equals the ledger's size.
pub proof fn lemma_payment_count_counts_records(s: CrynkPaymentSplitter)
    requires
        s.wf(),
    ensures
        s.payment_count == s.payments@.len(),
{
}

} // verus!
