//! Merchant registration and unregistration. Unregistering a merchant
//! leaves a tombstone that makes its payment history unreadable for good,
//! and removes its merchant-specific rule.
use vstd::prelude::*;
use crate::address::{copy_addresses, is_zero_address, Address};
use crate::errors::SettlementError;
use crate::events::{effects, inner_matches, lift, one_event, outcome_matches, two_events, Effects, Event};
use crate::settlement::{fallback_rule, settle_threshold_gate, SettleStep, SettlementContract, SettlementState};
use crate::types::GovFeeLookup;

verus! {

/// Registration of `merchant` by `actor`, after the pause and zero-address
/// checks: an admin may not become a merchant, and a merchant registers once.
pub open spec fn register_tail(s: SettlementState, merchant: Address, actor: Address) -> Result<(SettlementState, Seq<Event>), SettlementError> {
    match s.admins {
        None => Err(SettlementError::NotInitialized),
        Some(a) => if a.contains(merchant) {
            Err(SettlementError::InvalidAdmin)
        } else if s.merchants.contains(merchant) {
            Err(SettlementError::MerchantExists)
        } else {
            Ok((
                SettlementState { merchants: s.merchants.insert(merchant), ..s },
                seq![Event::MerchantRegistered { merchant, admin: actor }],
            ))
        },
    }
}

/// Unregistration of `merchant` by `actor`, after the pause check: the
/// merchant leaves the registry, a tombstone orphans its payment history,
/// and a merchant-specific rule is removed (announced with the rule that
/// takes over).
pub open spec fn unregister_tail(s: SettlementState, merchant: Address, actor: Address, gov: GovFeeLookup) -> Result<(SettlementState, Seq<Event>), SettlementError> {
    if !s.merchants.contains(merchant) {
        Err(SettlementError::MerchantMissing)
    } else if s.rules.contains_key(merchant) {
        match fallback_rule(s, gov) {
            Err(e) => Err(e),
            Ok(fallback) => Ok((
                SettlementState {
                    merchants: s.merchants.remove(merchant),
                    archived_merchants: s.archived_merchants.insert(merchant),
                    rules: s.rules.remove(merchant),
                    ..s
                },
                seq![
                    Event::SettlementRuleCleared { merchant, admin: actor, removed: s.rules[merchant], fallback },
                    Event::MerchantUnregistered { merchant, admin: actor },
                ],
            )),
        }
    } else {
        Ok((
            SettlementState {
                merchants: s.merchants.remove(merchant),
                archived_merchants: s.archived_merchants.insert(merchant),
                ..s
            },
            seq![Event::MerchantUnregistered { merchant, admin: actor }],
        ))
    }
}

pub open spec fn spec_register_merchant(s: SettlementState, signers: Seq<Address>, merchant: Address) -> SettleStep {
    if s.paused {
        Err(SettlementError::Paused)
    } else if is_zero_address(merchant) {
        Err(SettlementError::ZeroAddress)
    } else if settle_threshold_gate(s, signers) is Err {
        Err(settle_threshold_gate(s, signers)->Err_0)
    } else {
        lift(register_tail(s, merchant, signers[0]), signers)
    }
}

pub open spec fn spec_unregister_merchant(s: SettlementState, signers: Seq<Address>, merchant: Address, gov: GovFeeLookup) -> SettleStep {
    if s.paused {
        Err(SettlementError::Paused)
    } else if settle_threshold_gate(s, signers) is Err {
        Err(settle_threshold_gate(s, signers)->Err_0)
    } else {
        lift(unregister_tail(s, merchant, signers[0], gov), signers)
    }
}

impl SettlementContract {
    pub(crate) fn register_inner(&mut self, merchant: Address, actor: Address) -> (r: Result<Vec<Event>, SettlementError>)
        requires
            old(self).wf(),
        ensures
            final(self).wf(),
            inner_matches(old(self)@, final(self)@, r, register_tail(old(self)@, merchant, actor)),
    {
        match &self.admins {
            None => { return Err(SettlementError::NotInitialized); },
            Some(_) => {},
        }
        if self.is_admin(&merchant) {
            return Err(SettlementError::InvalidAdmin);
        }
        if self.merchants.contains_key(&merchant) {
            return Err(SettlementError::MerchantExists);
        }
        self.merchants.insert(merchant, ());
        proof {
            assert(self@.merchants =~= old(self)@.merchants.insert(merchant));
        }
        Ok(one_event(Event::MerchantRegistered { merchant, admin: actor }))
    }

    pub(crate) fn unregister_inner(&mut self, merchant: Address, actor: Address, gov: &GovFeeLookup) -> (r: Result<Vec<Event>, SettlementError>)
        requires
            old(self).wf(),
        ensures
            final(self).wf(),
            inner_matches(old(self)@, final(self)@, r, unregister_tail(old(self)@, merchant, actor, *gov)),
    {
        if !self.merchants.contains_key(&merchant) {
            return Err(SettlementError::MerchantMissing);
        }
        let removed = match self.rules.get(&merchant) {
            Some(rule) => Some(*rule),
            None => None,
        };
        match removed {
            Some(rule) => {
                let fallback = match self.read_fallback_rule(gov) {
                    Ok(f) => f,
                    Err(e) => { return Err(e); },
                };
                self.merchants.remove(&merchant);
                self.archived_merchants.insert(merchant, ());
                self.rules.remove(&merchant);
                proof {
                    assert(self@.merchants =~= old(self)@.merchants.remove(merchant));
                    assert(self@.archived_merchants =~= old(self)@.archived_merchants.insert(merchant));
                }
                Ok(two_events(
                    Event::SettlementRuleCleared { merchant, admin: actor, removed: rule, fallback },
                    Event::MerchantUnregistered { merchant, admin: actor },
                ))
            },
            None => {
                self.merchants.remove(&merchant);
                self.archived_merchants.insert(merchant, ());
                proof {
                    assert(self@.merchants =~= old(self)@.merchants.remove(merchant));
                    assert(self@.archived_merchants =~= old(self)@.archived_merchants.insert(merchant));
                }
                Ok(one_event(Event::MerchantUnregistered { merchant, admin: actor }))
            },
        }
    }

    /// Registers a new merchant. An admin cannot be registered as a merchant.
    pub fn register_merchant(&mut self, signers: &Vec<Address>, merchant: Address) -> (r: Result<Effects, SettlementError>)
        requires
            old(self).wf(),
        ensures
            final(self).wf(),
            outcome_matches(old(self)@, final(self)@, r, spec_register_merchant(old(self)@, signers@, merchant)),
    {
        if self.paused {
            return Err(SettlementError::Paused);
        }
        if merchant.is_zero() {
            return Err(SettlementError::ZeroAddress);
        }
        if let Err(e) = self.verify_admin_auth(signers) {
            return Err(e);
        }
        let admin = signers[0];
        match self.register_inner(merchant, admin) {
            Ok(events) => Ok(effects(events, copy_addresses(signers))),
            Err(e) => Err(e),
        }
    }

    /// Unregisters a merchant, orphaning its payment history.
    pub fn unregister_merchant(&mut self, signers: &Vec<Address>, merchant: Address, gov: &GovFeeLookup) -> (r: Result<Effects, SettlementError>)
        requires
            old(self).wf(),
        ensures
            final(self).wf(),
            outcome_matches(old(self)@, final(self)@, r, spec_unregister_merchant(old(self)@, signers@, merchant, *gov)),
    {
        if self.paused {
            return Err(SettlementError::Paused);
        }
        if let Err(e) = self.verify_admin_auth(signers) {
            return Err(e);
        }
        let admin = signers[0];
        match self.unregister_inner(merchant, admin, gov) {
            Ok(events) => Ok(effects(events, copy_addresses(signers))),
            Err(e) => Err(e),
        }
    }

    /// Whether `merchant` is registered.
    pub fn is_merchant_registered(&self, merchant: &Address) -> (r: Result<bool, SettlementError>)
        requires
            self.wf(),
        ensures
            r == if self@.admins is None { Err(SettlementError::NotInitialized) } else { Ok(self@.merchants.contains(*merchant)) },
    {
        if self.admins.is_none() {
            return Err(SettlementError::NotInitialized);
        }
        Ok(self.merchants.contains_key(merchant))
    }
}

} // verus!
