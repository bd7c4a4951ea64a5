//! Payment references: storing a payment with its locked-in fee split,
//! quoting a split without storing, and reading records back.
use vstd::prelude::*;
use crate::address::{all_zero, Address, PaymentKey};
use crate::errors::SettlementError;
use crate::events::{effects, valued_outcome_matches, Effects, Event, Step};
use crate::fees::{calculate_split, fee_split_of, split_overflows};
use crate::settlement::{
    effective_rule, payments_readable, SettlementContract, SettlementState, MAX_PAYMENTS_BATCH,
    MIN_PAYMENT_AMOUNT,
};
use crate::types::{FeeSplit, GovFeeLookup, PaymentRecord, SettlementRule};

verus! {

/// The record stored for a payment of `amount` under `rule` at `ledger`.
pub open spec fn payment_record_of(merchant: Address, amount: i128, rule: SettlementRule, split: FeeSplit, ledger: u32) -> PaymentRecord {
    PaymentRecord {
        merchant,
        amount,
        platform_fee_amount: split.platform_fee_amount,
        network_fee_amount: split.network_fee_amount,
        merchant_amount: split.merchant_amount,
        platform_fee_bps: rule.platform_fee_bps,
        network_fee_bps: rule.network_fee_bps,
        ledger,
        settlement_delay_ledger: rule.settlement_delay_ledger,
        auto_settle: rule.auto_settle,
    }
}

/// The split `merchant` would be charged on `amount`, with the events the
/// rule resolution publishes.
pub open spec fn spec_fee_quote(s: SettlementState, merchant: Address, amount: i128, gov: GovFeeLookup) -> Result<(FeeSplit, Seq<Event>), SettlementError> {
    if !s.merchants.contains(merchant) {
        Err(SettlementError::MerchantMissing)
    } else if amount < MIN_PAYMENT_AMOUNT {
        Err(SettlementError::AmountTooSmall)
    } else {
        match effective_rule(s, merchant, gov) {
            Err(e) => Err(e),
            Ok((rule, evs)) => if split_overflows(amount as int, rule) {
                Err(SettlementError::AmountOverflow)
            } else {
                Ok((fee_split_of(amount as int, rule), evs))
            },
        }
    }
}

pub open spec fn spec_store_payment_reference(s: SettlementState, merchant: Address, reference: [u8; 32], amount: i128, gov: GovFeeLookup, ledger: u32) -> Result<(FeeSplit, Step<SettlementState>), SettlementError> {
    let key = PaymentKey { merchant, reference };
    if s.paused {
        Err(SettlementError::Paused)
    } else if !s.merchants.contains(merchant) {
        Err(SettlementError::MerchantMissing)
    } else if forall|i: int| 0 <= i < 32 ==> reference@[i] == 0 {
        Err(SettlementError::InvalidPaymentReference)
    } else if amount < MIN_PAYMENT_AMOUNT {
        Err(SettlementError::AmountTooSmall)
    } else if s.payments.contains_key(key) {
        Err(SettlementError::DuplicatePaymentReference)
    } else {
        match effective_rule(s, merchant, gov) {
            Err(e) => Err(e),
            Ok((rule, evs)) => if split_overflows(amount as int, rule) {
                Err(SettlementError::AmountOverflow)
            } else {
                let split = fee_split_of(amount as int, rule);
                let record = payment_record_of(merchant, amount, rule, split, ledger);
                Ok((split, crate::events::step(
                    SettlementState { payments: s.payments.insert(key, record), ..s },
                    evs + seq![Event::PaymentStored { merchant, reference, record }],
                    seq![merchant],
                )))
            },
        }
    }
}

/// The records of `merchant` found under `refs`, in the order of `refs`;
/// references without a record are skipped.
pub open spec fn found_payments(payments: Map<PaymentKey, PaymentRecord>, merchant: Address, refs: Seq<[u8; 32]>) -> Seq<PaymentRecord>
    decreases refs.len(),
{
    if refs.len() == 0 {
        Seq::empty()
    } else {
        let prefix = found_payments(payments, merchant, refs.drop_last());
        let key = PaymentKey { merchant, reference: refs.last() };
        if payments.contains_key(key) { prefix.push(payments[key]) } else { prefix }
    }
}

impl SettlementContract {
    /// Stores a payment reference for `merchant` and locks in its fee split
    /// under the merchant's effective rule. `ledger` is the current ledger
    /// sequence. The merchant must authorize the call.
    pub fn store_payment_reference(&mut self, merchant: Address, reference: [u8; 32], amount: i128, gov: &GovFeeLookup, ledger: u32) -> (r: Result<(FeeSplit, Effects), SettlementError>)
        requires
            old(self).wf(),
        ensures
            final(self).wf(),
            valued_outcome_matches(old(self)@, final(self)@, r, spec_store_payment_reference(old(self)@, merchant, reference, amount, *gov, ledger)),
    {
        if self.paused {
            return Err(SettlementError::Paused);
        }
        if !self.merchants.contains_key(&merchant) {
            return Err(SettlementError::MerchantMissing);
        }
        if all_zero(&reference) {
            return Err(SettlementError::InvalidPaymentReference);
        }
        if amount < MIN_PAYMENT_AMOUNT {
            return Err(SettlementError::AmountTooSmall);
        }
        let key = PaymentKey { merchant, reference };
        if self.payments.contains_key(&key) {
            return Err(SettlementError::DuplicatePaymentReference);
        }
        let (rule, mut events) = match self.read_rule_or_default(&merchant, gov) {
            Ok(found) => found,
            Err(e) => { return Err(e); },
        };
        let split = match calculate_split(amount, &rule) {
            Ok(split) => split,
            Err(e) => { return Err(e); },
        };
        let record = PaymentRecord {
            merchant,
            amount,
            platform_fee_amount: split.platform_fee_amount,
            network_fee_amount: split.network_fee_amount,
            merchant_amount: split.merchant_amount,
            platform_fee_bps: rule.platform_fee_bps,
            network_fee_bps: rule.network_fee_bps,
            ledger,
            settlement_delay_ledger: rule.settlement_delay_ledger,
            auto_settle: rule.auto_settle,
        };
        self.payments.insert(key, record);
        let ghost rule_events = events@;
        events.push(Event::PaymentStored { merchant, reference, record });
        assert(events@ =~= rule_events + seq![Event::PaymentStored { merchant, reference, record }]);
        Ok((split, effects(events, Address::single(merchant))))
    }

    /// The fee split `merchant` would be charged on `amount`, without storing
    /// anything; also returns the events the rule resolution publishes.
    pub fn calculate_fee_split(&self, merchant: &Address, amount: i128, gov: &GovFeeLookup) -> (r: Result<(FeeSplit, Vec<Event>), SettlementError>)
        requires
            self.wf(),
        ensures
            match spec_fee_quote(self@, *merchant, amount, *gov) {
                Ok((split, evs)) => r matches Ok((rs, ev)) && rs == split && ev@ == evs,
                Err(e) => r matches Err(re) && re == e,
            },
    {
        if !self.merchants.contains_key(merchant) {
            return Err(SettlementError::MerchantMissing);
        }
        if amount < MIN_PAYMENT_AMOUNT {
            return Err(SettlementError::AmountTooSmall);
        }
        let (rule, events) = match self.read_rule_or_default(merchant, gov) {
            Ok(found) => found,
            Err(e) => { return Err(e); },
        };
        match calculate_split(amount, &rule) {
            Ok(split) => Ok((split, events)),
            Err(e) => Err(e),
        }
    }

    fn assert_payments_readable(&self, merchant: &Address) -> (r: Result<(), SettlementError>)
        requires
            self.wf(),
        ensures
            r is Ok <==> payments_readable(self@, *merchant),
            r is Err ==> r == Err::<(), SettlementError>(SettlementError::PaymentOrphaned),
    {
        if self.archived_merchants.contains_key(merchant) || !self.merchants.contains_key(merchant) {
            Err(SettlementError::PaymentOrphaned)
        } else {
            Ok(())
        }
    }

    /// `merchant`'s payment record stored under `reference`, if any. Records
    /// of a merchant that was unregistered stay unreadable.
    pub fn get_payment_reference(&self, merchant: &Address, reference: &[u8; 32]) -> (r: Result<Option<PaymentRecord>, SettlementError>)
        requires
            self.wf(),
        ensures
            !payments_readable(self@, *merchant) ==> r == Err::<Option<PaymentRecord>, SettlementError>(SettlementError::PaymentOrphaned),
            payments_readable(self@, *merchant) ==> r == Ok::<Option<PaymentRecord>, SettlementError>(
                if self@.payments.contains_key(PaymentKey { merchant: *merchant, reference: *reference }) {
                    Some(self@.payments[PaymentKey { merchant: *merchant, reference: *reference }])
                } else {
                    None
                }),
    {
        if let Err(e) = self.assert_payments_readable(merchant) {
            return Err(e);
        }
        let key = PaymentKey { merchant: *merchant, reference: *reference };
        match self.payments.get(&key) {
            Some(record) => Ok(Some(*record)),
            None => Ok(None),
        }
    }

    /// The records of `merchant` stored under `refs`, in the order of `refs`;
    /// references without a record are skipped. At most
    /// `MAX_PAYMENTS_BATCH` references per call.
    pub fn get_payments(&self, merchant: &Address, refs: &Vec<[u8; 32]>) -> (r: Result<Vec<PaymentRecord>, SettlementError>)
        requires
            self.wf(),
        ensures
            !payments_readable(self@, *merchant) ==> r == Err::<Vec<PaymentRecord>, SettlementError>(SettlementError::PaymentOrphaned),
            payments_readable(self@, *merchant) && refs@.len() > MAX_PAYMENTS_BATCH
                ==> r == Err::<Vec<PaymentRecord>, SettlementError>(SettlementError::BatchTooLarge),
            payments_readable(self@, *merchant) && refs@.len() <= MAX_PAYMENTS_BATCH
                ==> (r matches Ok(v) && v@ == found_payments(self@.payments, *merchant, refs@)),
    {
        if let Err(e) = self.assert_payments_readable(merchant) {
            return Err(e);
        }
        if refs.len() > MAX_PAYMENTS_BATCH as usize {
            return Err(SettlementError::BatchTooLarge);
        }
        let mut out: Vec<PaymentRecord> = Vec::new();
        let mut i: usize = 0;
        while i < refs.len()
            invariant
                self.wf(),
                i <= refs@.len(),
                out@ == found_payments(self@.payments, *merchant, refs@.subrange(0, i as int)),
            decreases refs@.len() - i,
        {
            let key = PaymentKey { merchant: *merchant, reference: refs[i] };
            assert(refs@.subrange(0, i + 1).drop_last() =~= refs@.subrange(0, i as int));
            match self.payments.get(&key) {
                Some(record) => out.push(*record),
                None => {},
            }
            i = i + 1;
        }
        assert(refs@.subrange(0, refs@.len() as int) =~= refs@);
        Ok(out)
    }
}

} // verus!
