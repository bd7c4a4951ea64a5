//! The settlement contract: merchant registry, settlement rules (per
//! merchant, global default, governance ceiling, bootstrap fallback),
//! payment records with their locked-in fee split, the admin multisig with
//! timelocked operations and recovery — as a verified state machine over
//! its storage.
//!
//! The pause flag blocks merchant management, rule changes, payment storage,
//! governance updates and the timelock queue; upgrade, admin transfer and
//! the recovery flow stay available while paused.
use vstd::prelude::*;
use crate::address::{is_zero_address, Address, PaymentKey};
use crate::constants::{BPS_DENOMINATOR, MAX_FEE_BPS, MIN_FEE_BPS};
use crate::errors::SettlementError;
use crate::events::{Event, Step};
use crate::multisig::{admin_scan, check_signers, signers_authorized, AdminSetFault};
use crate::table::Table;
use crate::types::{GovFeeConfig, GovFeeLookup, PaymentRecord, PendingRecovery, ScheduledOp, SettlementRule};

pub mod admin;
pub mod history;
pub mod laws;
pub mod merchants;
pub mod payments;
pub mod rules;
pub mod timelock;

verus! {

/// Minimum gross payment amount, in the asset's smallest unit
/// (`BPS_DENOMINATOR / 100`).
pub const MIN_PAYMENT_AMOUNT: i128 = 100;
/// Largest settlement delay, in ledgers, a rule may carry.
pub const MAX_SETTLEMENT_DELAY_LEDGER: u32 = 100_000;
/// Default settlement delay applied as a fallback (one day of ledgers).
pub const FALLBACK_SETTLEMENT_DELAY_LEDGER: u32 = 17_280;
/// Maximum number of payments retrieved in one batch lookup.
pub const MAX_PAYMENTS_BATCH: u32 = 100;
/// Shortest timelock, in seconds, a scheduled operation may carry (48 hours).
pub const DEFAULT_TIMELOCK_DELAY_SECONDS: u64 = 172_800;
/// The interface version `supports_interface` advertises.
pub const SUPPORTED_INTERFACE_VERSION: u32 = 1;

/// The rule used until the admins set a global default rule: 1 % platform
/// fee, the minimum network fee, immediate manual settlement.
pub open spec fn bootstrap_rule() -> SettlementRule {
    SettlementRule { platform_fee_bps: 100, network_fee_bps: MIN_FEE_BPS, settlement_delay_ledger: 0, auto_settle: false }
}

/// The rule used until the admins set a global default rule.
pub fn bootstrap_default_rule() -> (r: SettlementRule)
    ensures
        r == bootstrap_rule(),
{
    SettlementRule { platform_fee_bps: 100, network_fee_bps: MIN_FEE_BPS, settlement_delay_ledger: 0, auto_settle: false }
}

/// The settlement contract's storage. Each field stands for one storage
/// entry or one family of keyed entries; `None` is an absent entry.
pub struct SettlementContract {
    pub deployer: Option<Address>,
    pub admins: Option<Vec<Address>>,
    pub threshold: Option<u32>,
    pub governance: Option<Address>,
    pub recovery_address: Option<Address>,
    pub pending_recovery: Option<PendingRecovery>,
    pub paused: bool,
    pub default_rule: Option<SettlementRule>,
    /// Registered merchants.
    pub merchants: Table<Address, ()>,
    /// Merchant-specific settlement rules.
    pub rules: Table<Address, SettlementRule>,
    /// Tombstones of unregistered merchants, whose payment history stays
    /// unreadable from then on.
    pub archived_merchants: Table<Address, ()>,
    /// Payment records, keyed by merchant and reference.
    pub payments: Table<PaymentKey, PaymentRecord>,
    /// Pending timelocked operations, keyed by the hash of their encoding.
    pub scheduled: Table<[u8; 32], ScheduledOp>,
}

/// The abstract state of the settlement contract.
pub struct SettlementState {
    pub deployer: Option<Address>,
    pub admins: Option<Seq<Address>>,
    pub threshold: Option<u32>,
    pub governance: Option<Address>,
    pub recovery_address: Option<Address>,
    pub pending_recovery: Option<PendingRecovery>,
    pub paused: bool,
    pub default_rule: Option<SettlementRule>,
    pub merchants: Set<Address>,
    pub rules: Map<Address, SettlementRule>,
    pub archived_merchants: Set<Address>,
    pub payments: Map<PaymentKey, PaymentRecord>,
    /// Each pending operation's encoding and due time.
    pub scheduled: Map<[u8; 32], (Seq<u8>, u64)>,
}

impl View for SettlementContract {
    type V = SettlementState;

    open spec fn view(&self) -> SettlementState {
        SettlementState {
            deployer: self.deployer,
            admins: match self.admins { Some(a) => Some(a@), None => None },
            threshold: self.threshold,
            governance: self.governance,
            recovery_address: self.recovery_address,
            pending_recovery: self.pending_recovery,
            paused: self.paused,
            default_rule: self.default_rule,
            merchants: self.merchants@.dom(),
            rules: self.rules@,
            archived_merchants: self.archived_merchants@.dom(),
            payments: self.payments@,
            scheduled: self.scheduled@.map_values(|op: ScheduledOp| (op.operation_xdr@, op.execute_at)),
        }
    }
}

pub type SettleStep = Result<Step<SettlementState>, SettlementError>;

// ----------------------------------------------------------------------------
// Shared checks, as spec functions.
// ----------------------------------------------------------------------------

/// `signers` carry `required` admin signatures in state `s`.
pub open spec fn settle_gate(s: SettlementState, signers: Seq<Address>, required: int) -> Result<(), SettlementError> {
    match s.admins {
        None => Err(SettlementError::NotInitialized),
        Some(a) => if signers_authorized(a, signers, required) { Ok(()) } else { Err(SettlementError::Unauthorized) },
    }
}

/// `signers` carry the stored threshold of admin signatures.
pub open spec fn settle_threshold_gate(s: SettlementState, signers: Seq<Address>) -> Result<(), SettlementError> {
    match s.threshold {
        None => Err(SettlementError::NotInitialized),
        Some(t) => settle_gate(s, signers, t as int),
    }
}

/// The admin set and threshold are acceptable: `1 <= threshold <= len`;
/// the first defective address decides the error (a zero address, or one
/// that appears again later).
pub open spec fn settle_admin_set_check(admins: Seq<Address>, threshold: u32) -> Result<(), SettlementError> {
    if threshold == 0 || threshold > admins.len() {
        Err(SettlementError::InvalidThreshold)
    } else if admins.len() == 0 {
        Err(SettlementError::InvalidAdmin)
    } else {
        match admin_scan(admins, 0) {
            Some(AdminSetFault::ZeroAddress) => Err(SettlementError::ZeroAddress),
            Some(AdminSetFault::Duplicate) => Err(SettlementError::InvalidAdmin),
            None => Ok(()),
        }
    }
}

/// The fee legs and delay of a rule are within bounds; `with_sum` also
/// bounds the sum of both legs by `BPS_DENOMINATOR`.
pub open spec fn rule_bounds_check(rule: SettlementRule, with_sum: bool) -> Result<(), SettlementError> {
    if !(MIN_FEE_BPS <= rule.platform_fee_bps <= MAX_FEE_BPS && MIN_FEE_BPS <= rule.network_fee_bps <= MAX_FEE_BPS
        && (!with_sum || rule.platform_fee_bps + rule.network_fee_bps <= BPS_DENOMINATOR)) {
        Err(SettlementError::InvalidFeeBps)
    } else if rule.settlement_delay_ledger > MAX_SETTLEMENT_DELAY_LEDGER {
        Err(SettlementError::InvalidSettlementDelay)
    } else {
        Ok(())
    }
}

/// The governance fee configuration acts as a ceiling on every fee leg.
pub open spec fn governance_ceiling_check(rule: SettlementRule, gov: GovFeeLookup) -> Result<(), SettlementError> {
    match gov {
        GovFeeLookup::Failed => Err(SettlementError::GovernanceCallFailed),
        GovFeeLookup::NotSet => Ok(()),
        GovFeeLookup::Config(c) => if rule.platform_fee_bps > c.platform_fee_bps || rule.network_fee_bps > c.network_fee_bps {
            Err(SettlementError::FeeExceedsGovernanceConfig)
        } else {
            Ok(())
        },
    }
}

/// The rule derived from governance's fee configuration: its fees, with
/// immediate manual settlement.
pub open spec fn rule_from_governance(c: GovFeeConfig) -> SettlementRule {
    SettlementRule { platform_fee_bps: c.platform_fee_bps, network_fee_bps: c.network_fee_bps, settlement_delay_ledger: 0, auto_settle: false }
}

/// The rule a merchant without a rule of its own falls back to: the global
/// default, else governance's fee configuration, else the bootstrap rule.
pub open spec fn fallback_rule(s: SettlementState, gov: GovFeeLookup) -> Result<SettlementRule, SettlementError> {
    match s.default_rule {
        Some(d) => Ok(d),
        None => match gov {
            GovFeeLookup::Failed => Err(SettlementError::GovernanceCallFailed),
            GovFeeLookup::Config(c) => Ok(rule_from_governance(c)),
            GovFeeLookup::NotSet => Ok(bootstrap_rule()),
        },
    }
}

/// The rule that governs `merchant`'s next payment, with the events its
/// resolution publishes: a `bootstrap_fallback` event when it falls all the
/// way through to the bootstrap rule.
pub open spec fn effective_rule(s: SettlementState, merchant: Address, gov: GovFeeLookup) -> Result<(SettlementRule, Seq<Event>), SettlementError> {
    if s.rules.contains_key(merchant) {
        Ok((s.rules[merchant], Seq::empty()))
    } else {
        match fallback_rule(s, gov) {
            Err(e) => Err(e),
            Ok(r) => Ok((r, if s.default_rule is None && gov is NotSet { seq![Event::BootstrapFallback { rule: r }] } else { Seq::empty() })),
        }
    }
}

/// The admin named by events as "the old admin": the primary admin.
pub open spec fn primary_admin_of(s: SettlementState) -> Result<Address, SettlementError> {
    match s.admins {
        Some(a) => if a.len() > 0 { Ok(a[0]) } else { Err(SettlementError::NotInitialized) },
        None => Err(SettlementError::NotInitialized),
    }
}

/// A merchant's payment history is readable: it is registered and was
/// never unregistered.
pub open spec fn payments_readable(s: SettlementState, merchant: Address) -> bool {
    s.merchants.contains(merchant) && !s.archived_merchants.contains(merchant)
}

// ----------------------------------------------------------------------------
// Shared checks, executable.
// ----------------------------------------------------------------------------

impl SettlementContract {
    /// The storage tables are well formed and a stored threshold is at least one.
    pub open spec fn wf(&self) -> bool {
        &&& self.merchants.wf()
        &&& self.rules.wf()
        &&& self.archived_merchants.wf()
        &&& self.payments.wf()
        &&& self.scheduled.wf()
        &&& self.threshold matches Some(t) ==> t >= 1
    }

    /// A freshly deployed contract: no storage entries at all.
    pub fn new() -> (r: Self)
        ensures
            r.wf(),
            r@.admins is None,
            r@.threshold is None,
            r@.deployer is None,
            r@.governance is None,
            r@.recovery_address is None,
            r@.pending_recovery is None,
            !r@.paused,
            r@.default_rule is None,
            r@.merchants == Set::<Address>::empty(),
            r@.rules == Map::<Address, SettlementRule>::empty(),
            r@.archived_merchants == Set::<Address>::empty(),
            r@.payments == Map::<PaymentKey, PaymentRecord>::empty(),
            r@.scheduled == Map::<[u8; 32], (Seq<u8>, u64)>::empty(),
    {
        let r = SettlementContract {
            deployer: None,
            admins: None,
            threshold: None,
            governance: None,
            recovery_address: None,
            pending_recovery: None,
            paused: false,
            default_rule: None,
            merchants: Table::new(),
            rules: Table::new(),
            archived_merchants: Table::new(),
            payments: Table::new(),
            scheduled: Table::new(),
        };
        assert(r@.merchants =~= Set::<Address>::empty());
        assert(r@.archived_merchants =~= Set::<Address>::empty());
        assert(r@.scheduled =~= Map::<[u8; 32], (Seq<u8>, u64)>::empty());
        r
    }

    pub(crate) fn gate(&self, signers: &Vec<Address>, required: u64) -> (r: Result<(), SettlementError>)
        ensures
            r == settle_gate(self@, signers@, required as int),
    {
        match &self.admins {
            None => Err(SettlementError::NotInitialized),
            Some(a) => if check_signers(a, signers, required) { Ok(()) } else { Err(SettlementError::Unauthorized) },
        }
    }

    /// Checks that `signers` carry the stored threshold of admin signatures.
    pub fn verify_admin_auth(&self, signers: &Vec<Address>) -> (r: Result<(), SettlementError>)
        requires
            self.wf(),
        ensures
            r == settle_threshold_gate(self@, signers@),
            r is Ok ==> signers@.len() >= 1,
    {
        match self.threshold {
            None => Err(SettlementError::NotInitialized),
            Some(t) => self.gate(signers, t as u64),
        }
    }

    /// Checks an admin set and threshold.
    pub fn validate_admins_and_threshold(admins: &Vec<Address>, threshold: u32) -> (r: Result<(), SettlementError>)
        ensures
            r == settle_admin_set_check(admins@, threshold),
    {
        if threshold == 0 || (threshold as usize) > admins.len() {
            return Err(SettlementError::InvalidThreshold);
        }
        if admins.len() == 0 {
            return Err(SettlementError::InvalidAdmin);
        }
        match crate::multisig::scan_admin_set(admins) {
            Some(AdminSetFault::ZeroAddress) => Err(SettlementError::ZeroAddress),
            Some(AdminSetFault::Duplicate) => Err(SettlementError::InvalidAdmin),
            None => Ok(()),
        }
    }

    pub(crate) fn check_rule_bounds(rule: &SettlementRule, with_sum: bool) -> (r: Result<(), SettlementError>)
        ensures
            r == rule_bounds_check(*rule, with_sum),
    {
        if rule.platform_fee_bps > BPS_DENOMINATOR || rule.network_fee_bps > BPS_DENOMINATOR {
            return Err(SettlementError::InvalidFeeBps);
        }
        if rule.platform_fee_bps < MIN_FEE_BPS || rule.network_fee_bps < MIN_FEE_BPS {
            return Err(SettlementError::InvalidFeeBps);
        }
        if rule.platform_fee_bps > MAX_FEE_BPS || rule.network_fee_bps > MAX_FEE_BPS {
            return Err(SettlementError::InvalidFeeBps);
        }
        if with_sum && rule.platform_fee_bps + rule.network_fee_bps > BPS_DENOMINATOR {
            return Err(SettlementError::InvalidFeeBps);
        }
        if rule.settlement_delay_ledger > MAX_SETTLEMENT_DELAY_LEDGER {
            return Err(SettlementError::InvalidSettlementDelay);
        }
        Ok(())
    }

    /// Checks a rule against the governance fee ceiling.
    pub fn validate_fee_against_governance(rule: &SettlementRule, gov: &GovFeeLookup) -> (r: Result<(), SettlementError>)
        ensures
            r == governance_ceiling_check(*rule, *gov),
    {
        match gov {
            GovFeeLookup::Failed => Err(SettlementError::GovernanceCallFailed),
            GovFeeLookup::NotSet => Ok(()),
            GovFeeLookup::Config(c) => {
                if rule.platform_fee_bps > c.platform_fee_bps || rule.network_fee_bps > c.network_fee_bps {
                    Err(SettlementError::FeeExceedsGovernanceConfig)
                } else {
                    Ok(())
                }
            },
        }
    }

    /// The rule a merchant without a rule of its own falls back to.
    pub fn read_fallback_rule(&self, gov: &GovFeeLookup) -> (r: Result<SettlementRule, SettlementError>)
        ensures
            r == fallback_rule(self@, *gov),
    {
        match self.default_rule {
            Some(d) => Ok(d),
            None => match gov {
                GovFeeLookup::Failed => Err(SettlementError::GovernanceCallFailed),
                GovFeeLookup::Config(c) => Ok(SettlementRule {
                    platform_fee_bps: c.platform_fee_bps,
                    network_fee_bps: c.network_fee_bps,
                    settlement_delay_ledger: 0,
                    auto_settle: false,
                }),
                GovFeeLookup::NotSet => Ok(bootstrap_default_rule()),
            },
        }
    }

    /// The rule that governs `merchant`'s next payment, with the events its
    /// resolution publishes.
    pub fn read_rule_or_default(&self, merchant: &Address, gov: &GovFeeLookup) -> (r: Result<(SettlementRule, Vec<Event>), SettlementError>)
        requires
            self.wf(),
        ensures
            match effective_rule(self@, *merchant, *gov) {
                Ok((rule, evs)) => r matches Ok((rr, ev)) && rr == rule && ev@ == evs,
                Err(e) => r matches Err(re) && re == e,
            },
    {
        match self.rules.get(merchant) {
            Some(rule) => Ok((*rule, Vec::new())),
            None => {
                let fallback = self.read_fallback_rule(gov);
                match fallback {
                    Err(e) => Err(e),
                    Ok(rule) => {
                        let bootstrap = self.default_rule.is_none() && match gov { GovFeeLookup::NotSet => true, _ => false };
                        if bootstrap {
                            Ok((rule, crate::events::one_event(Event::BootstrapFallback { rule })))
                        } else {
                            let ev: Vec<Event> = Vec::new();
                            assert(ev@ =~= Seq::<Event>::empty());
                            Ok((rule, ev))
                        }
                    },
                }
            },
        }
    }

    /// Whether `merchant` is registered.
    pub fn is_merchant_registered_internal(&self, merchant: &Address) -> (r: bool)
        requires
            self.wf(),
        ensures
            r == self@.merchants.contains(*merchant),
    {
        self.merchants.contains_key(merchant)
    }

    /// Whether `address` is one of the admins (false when no admin set is stored).
    pub(crate) fn is_admin(&self, address: &Address) -> (r: bool)
        ensures
            r == (self@.admins matches Some(a) && a.contains(*address)),
    {
        match &self.admins {
            Some(a) => crate::address::contains_address(a, address),
            None => false,
        }
    }
}

} // verus!
