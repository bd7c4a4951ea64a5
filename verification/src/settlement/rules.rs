//! Settlement rules: per-merchant rules, the global default rule, and their
//! resolution (merchant rule, else default, else governance's fee
//! configuration, else the bootstrap rule).
use vstd::prelude::*;
use crate::address::{copy_addresses, Address};
use crate::errors::SettlementError;
use crate::events::{effects, inner_matches, lift, one_event, outcome_matches, Effects, Event};
use crate::settlement::{
    bootstrap_default_rule, bootstrap_rule, effective_rule, fallback_rule, governance_ceiling_check,
    rule_bounds_check, settle_threshold_gate, SettleStep, SettlementContract, SettlementState,
};
use crate::types::{GovFeeLookup, SettlementRule};

verus! {

/// Setting `merchant`'s rule, from the registration check on: the rule must
/// be within bounds; the event names the rule it replaces (the merchant's
/// own, or the one it fell back to).
pub open spec fn set_rule_tail(s: SettlementState, merchant: Address, rule: SettlementRule, actor: Address, gov: GovFeeLookup) -> Result<(SettlementState, Seq<Event>), SettlementError> {
    if !s.merchants.contains(merchant) {
        Err(SettlementError::MerchantMissing)
    } else if rule_bounds_check(rule, true) is Err {
        Err(rule_bounds_check(rule, true)->Err_0)
    } else {
        match effective_rule(s, merchant, gov) {
            Err(e) => Err(e),
            Ok((prev, prev_events)) => Ok((
                SettlementState { rules: s.rules.insert(merchant, rule), ..s },
                prev_events + seq![Event::SettlementRuleUpdated { merchant, admin: actor, previous: prev, rule }],
            )),
        }
    }
}

/// Setting the global default rule, from the bounds check on (no bound on
/// the sum of the legs).
pub open spec fn set_default_tail(s: SettlementState, rule: SettlementRule, actor: Address) -> Result<(SettlementState, Seq<Event>), SettlementError> {
    if rule_bounds_check(rule, false) is Err {
        Err(rule_bounds_check(rule, false)->Err_0)
    } else {
        let prev = match s.default_rule { Some(d) => d, None => bootstrap_rule() };
        Ok((
            SettlementState { default_rule: Some(rule), ..s },
            seq![Event::DefaultRuleUpdated { admin: actor, previous: prev, rule }],
        ))
    }
}

pub open spec fn spec_set_settlement_rule(s: SettlementState, signers: Seq<Address>, merchant: Address, rule: SettlementRule, gov: GovFeeLookup) -> SettleStep {
    if s.paused {
        Err(SettlementError::Paused)
    } else if settle_threshold_gate(s, signers) is Err {
        Err(settle_threshold_gate(s, signers)->Err_0)
    } else if governance_ceiling_check(rule, gov) is Err {
        Err(governance_ceiling_check(rule, gov)->Err_0)
    } else {
        lift(set_rule_tail(s, merchant, rule, signers[0], gov), signers)
    }
}

pub open spec fn spec_clear_settlement_rule(s: SettlementState, signers: Seq<Address>, merchant: Address, gov: GovFeeLookup) -> SettleStep {
    if s.paused {
        Err(SettlementError::Paused)
    } else if settle_threshold_gate(s, signers) is Err {
        Err(settle_threshold_gate(s, signers)->Err_0)
    } else if !s.rules.contains_key(merchant) {
        Err(SettlementError::MerchantRuleNotSet)
    } else {
        match fallback_rule(s, gov) {
            Err(e) => Err(e),
            Ok(fallback) => Ok(crate::events::step(
                SettlementState { rules: s.rules.remove(merchant), ..s },
                seq![Event::SettlementRuleCleared { merchant, admin: signers[0], removed: s.rules[merchant], fallback }],
                signers,
            )),
        }
    }
}

/// Clearing `merchant`'s rule through the timelock: the replacement rule is
/// resolved as for a payment, announcing a bootstrap fallback.
pub open spec fn clear_rule_inner(s: SettlementState, merchant: Address, actor: Address, gov: GovFeeLookup) -> Result<(SettlementState, Seq<Event>), SettlementError> {
    if s.paused {
        Err(SettlementError::Paused)
    } else if !s.rules.contains_key(merchant) {
        Err(SettlementError::MerchantRuleNotSet)
    } else {
        let cleared = SettlementState { rules: s.rules.remove(merchant), ..s };
        match effective_rule(cleared, merchant, gov) {
            Err(e) => Err(e),
            Ok((fallback, fallback_events)) => Ok((
                cleared,
                fallback_events + seq![Event::SettlementRuleCleared { merchant, admin: actor, removed: s.rules[merchant], fallback }],
            )),
        }
    }
}

pub open spec fn spec_set_default_rule(s: SettlementState, signers: Seq<Address>, rule: SettlementRule, gov: GovFeeLookup) -> SettleStep {
    if s.paused {
        Err(SettlementError::Paused)
    } else if settle_threshold_gate(s, signers) is Err {
        Err(settle_threshold_gate(s, signers)->Err_0)
    } else if governance_ceiling_check(rule, gov) is Err {
        Err(governance_ceiling_check(rule, gov)->Err_0)
    } else {
        lift(set_default_tail(s, rule, signers[0]), signers)
    }
}

impl SettlementContract {
    pub(crate) fn set_rule_inner(&mut self, merchant: Address, rule: SettlementRule, actor: Address, gov: &GovFeeLookup) -> (r: Result<Vec<Event>, SettlementError>)
        requires
            old(self).wf(),
        ensures
            final(self).wf(),
            inner_matches(old(self)@, final(self)@, r, set_rule_tail(old(self)@, merchant, rule, actor, *gov)),
    {
        if !self.merchants.contains_key(&merchant) {
            return Err(SettlementError::MerchantMissing);
        }
        if let Err(e) = Self::check_rule_bounds(&rule, true) {
            return Err(e);
        }
        let (prev, mut events) = match self.read_rule_or_default(&merchant, gov) {
            Ok(found) => found,
            Err(e) => { return Err(e); },
        };
        let ghost prev_events = events@;
        self.rules.insert(merchant, rule);
        events.push(Event::SettlementRuleUpdated { merchant, admin: actor, previous: prev, rule });
        assert(events@ =~= prev_events + seq![Event::SettlementRuleUpdated { merchant, admin: actor, previous: prev, rule }]);
        Ok(events)
    }

    pub(crate) fn set_default_inner(&mut self, rule: SettlementRule, actor: Address) -> (r: Result<Vec<Event>, SettlementError>)
        requires
            old(self).wf(),
        ensures
            final(self).wf(),
            inner_matches(old(self)@, final(self)@, r, set_default_tail(old(self)@, rule, actor)),
    {
        if let Err(e) = Self::check_rule_bounds(&rule, false) {
            return Err(e);
        }
        let prev = match self.default_rule {
            Some(d) => d,
            None => bootstrap_default_rule(),
        };
        self.default_rule = Some(rule);
        Ok(one_event(Event::DefaultRuleUpdated { admin: actor, previous: prev, rule }))
    }

    pub(crate) fn clear_rule_timelocked(&mut self, merchant: Address, actor: Address, gov: &GovFeeLookup) -> (r: Result<Vec<Event>, SettlementError>)
        requires
            old(self).wf(),
        ensures
            final(self).wf(),
            inner_matches(old(self)@, final(self)@, r, clear_rule_inner(old(self)@, merchant, actor, *gov)),
    {
        if self.paused {
            return Err(SettlementError::Paused);
        }
        let removed = match self.rules.get(&merchant) {
            Some(rule) => *rule,
            None => { return Err(SettlementError::MerchantRuleNotSet); },
        };
        let fallback = self.read_fallback_rule(gov);
        match fallback {
            Err(e) => Err(e),
            Ok(fallback) => {
                self.rules.remove(&merchant);
                let bootstrap = self.default_rule.is_none() && match gov { GovFeeLookup::NotSet => true, _ => false };
                let mut events: Vec<Event> = Vec::new();
                if bootstrap {
                    events.push(Event::BootstrapFallback { rule: fallback });
                }
                events.push(Event::SettlementRuleCleared { merchant, admin: actor, removed, fallback });
                proof {
                    let cleared = SettlementState { rules: old(self)@.rules.remove(merchant), ..old(self)@ };
                    assert(!cleared.rules.contains_key(merchant));
                    if bootstrap {
                        assert(events@ =~= seq![Event::BootstrapFallback { rule: fallback }] + seq![Event::SettlementRuleCleared { merchant, admin: actor, removed, fallback }]);
                    } else {
                        assert(events@ =~= Seq::<Event>::empty() + seq![Event::SettlementRuleCleared { merchant, admin: actor, removed, fallback }]);
                    }
                }
                Ok(events)
            },
        }
    }

    /// Sets (or replaces) `merchant`'s settlement rule: fees within bounds and
    /// under the governance ceiling, delay within bounds.
    pub fn set_settlement_rule(&mut self, signers: &Vec<Address>, merchant: Address, rule: SettlementRule, gov: &GovFeeLookup) -> (r: Result<Effects, SettlementError>)
        requires
            old(self).wf(),
        ensures
            final(self).wf(),
            outcome_matches(old(self)@, final(self)@, r, spec_set_settlement_rule(old(self)@, signers@, merchant, rule, *gov)),
    {
        if self.paused {
            return Err(SettlementError::Paused);
        }
        if let Err(e) = self.verify_admin_auth(signers) {
            return Err(e);
        }
        if let Err(e) = Self::validate_fee_against_governance(&rule, gov) {
            return Err(e);
        }
        let admin = signers[0];
        match self.set_rule_inner(merchant, rule, admin, gov) {
            Ok(events) => Ok(effects(events, copy_addresses(signers))),
            Err(e) => Err(e),
        }
    }

    /// Clears `merchant`'s settlement rule; the event names the rule that
    /// takes over.
    pub fn clear_settlement_rule(&mut self, signers: &Vec<Address>, merchant: Address, gov: &GovFeeLookup) -> (r: Result<Effects, SettlementError>)
        requires
            old(self).wf(),
        ensures
            final(self).wf(),
            outcome_matches(old(self)@, final(self)@, r, spec_clear_settlement_rule(old(self)@, signers@, merchant, *gov)),
    {
        if self.paused {
            return Err(SettlementError::Paused);
        }
        if let Err(e) = self.verify_admin_auth(signers) {
            return Err(e);
        }
        let removed = match self.rules.get(&merchant) {
            Some(rule) => *rule,
            None => { return Err(SettlementError::MerchantRuleNotSet); },
        };
        let fallback = match self.read_fallback_rule(gov) {
            Ok(f) => f,
            Err(e) => { return Err(e); },
        };
        self.rules.remove(&merchant);
        let admin = signers[0];
        Ok(effects(
            one_event(Event::SettlementRuleCleared { merchant, admin, removed, fallback }),
            copy_addresses(signers),
        ))
    }

    /// Sets the global default rule.
    pub fn set_default_rule(&mut self, signers: &Vec<Address>, new_rule: SettlementRule, gov: &GovFeeLookup) -> (r: Result<Effects, SettlementError>)
        requires
            old(self).wf(),
        ensures
            final(self).wf(),
            outcome_matches(old(self)@, final(self)@, r, spec_set_default_rule(old(self)@, signers@, new_rule, *gov)),
    {
        if self.paused {
            return Err(SettlementError::Paused);
        }
        if let Err(e) = self.verify_admin_auth(signers) {
            return Err(e);
        }
        if let Err(e) = Self::validate_fee_against_governance(&new_rule, gov) {
            return Err(e);
        }
        let admin = signers[0];
        match self.set_default_inner(new_rule, admin) {
            Ok(events) => Ok(effects(events, copy_addresses(signers))),
            Err(e) => Err(e),
        }
    }

    /// The global default rule, if one has been set.
    pub fn get_default_rule(&self) -> (r: Option<SettlementRule>)
        ensures
            r == self@.default_rule,
    {
        self.default_rule
    }

    /// `merchant`'s own settlement rule, if one has been set.
    pub fn get_settlement_rule(&self, merchant: &Address) -> (r: Option<SettlementRule>)
        requires
            self.wf(),
        ensures
            r == (if self@.rules.contains_key(*merchant) { Some(self@.rules[*merchant]) } else { None }),
    {
        match self.rules.get(merchant) {
            Some(rule) => Some(*rule),
            None => None,
        }
    }
}

} // verus!
