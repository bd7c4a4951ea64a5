//! The events both contracts publish, as plain values: the topic-name
//! registry and one variant per event carrying its topic identifiers and
//! data payload.
use vstd::prelude::*;
use crate::address::{Address, ParamKey};
use crate::types::{AdminTransferred, FeeConfig, PaymentRecord, SettlementRule};

verus! {

// Shared: emitted by both contracts.
pub const ADMIN_TRANSFERRED_EVENT: &'static str = "admin_transferred";
pub const PAUSED_EVENT: &'static str = "paused";
pub const UNPAUSED_EVENT: &'static str = "unpaused";
pub const RECOVERY_INITIATED_EVENT: &'static str = "recovery_initiated";
pub const RECOVERY_CANCELLED_EVENT: &'static str = "recovery_cancelled";
pub const RECOVERY_EXECUTED_EVENT: &'static str = "recovery_executed";
pub const CONTRACT_UPGRADED_EVENT: &'static str = "contract_upgraded";
pub const THRESHOLD_CHANGED_EVENT: &'static str = "threshold_changed";
pub const RECOVERY_ADDRESS_UPDATED_EVENT: &'static str = "recovery_address_updated";
// Governance only.
pub const INITIALIZED_EVENT: &'static str = "initialized";
pub const MIGRATED_EVENT: &'static str = "migrated";
pub const SYS_PARAM_UPDATED_EVENT: &'static str = "sys_param_updated";
pub const FEE_CONFIG_UPDATED_EVENT: &'static str = "fee_config_updated";
pub const ANCHOR_UPSERTED_EVENT: &'static str = "anchor_upserted";
pub const ANCHOR_REMOVED_EVENT: &'static str = "anchor_removed";
// Settlement only.
pub const GOVERNANCE_UPDATED_EVENT: &'static str = "governance_updated";
pub const MERCHANT_REGISTERED_EVENT: &'static str = "merchant_registered";
pub const MERCHANT_UNREGISTERED_EVENT: &'static str = "merchant_unregistered";
pub const SETTLEMENT_RULE_UPDATED_EVENT: &'static str = "settlement_rule_updated";
pub const SETTLEMENT_RULE_CLEARED_EVENT: &'static str = "settlement_rule_cleared";
pub const DEFAULT_RULE_UPDATED_EVENT: &'static str = "default_rule_updated";
pub const BOOTSTRAP_FALLBACK_EVENT: &'static str = "bootstrap_fallback";
pub const PAYMENT_STORED_EVENT: &'static str = "payment_stored";
pub const OP_SCHEDULED_EVENT: &'static str = "op_scheduled";
pub const OP_EXECUTED_EVENT: &'static str = "op_executed";
pub const OP_CANCELLED_EVENT: &'static str = "op_cancelled";

/// One published event. The first topic is always the event's name (see
/// [`Event::topic`]); the remaining fields are the entity identifiers that
/// scope it and its data payload.
#[derive(Clone, Copy, Debug, PartialEq, Eq)]
pub enum Event {
    /// Data: `AdminTransferred { old_admin, new_admin }`.
    AdminTransferred(AdminTransferred),
    /// Data: `(admin, true)`.
    Paused { admin: Address },
    /// Data: `(admin, false)`.
    Unpaused { admin: Address },
    /// Data: `(recovery_address, new_admin, execute_after)`.
    RecoveryInitiated { recovery: Address, new_admin: Address, execute_after: u64 },
    /// Data: `admin`.
    RecoveryCancelled { admin: Address },
    /// Data: `AdminTransferred { old_admin, new_admin }`.
    RecoveryExecuted(AdminTransferred),
    /// Topics: `(name, new_wasm_hash)`; data: the admin or executor.
    ContractUpgraded { wasm_hash: [u8; 32], admin: Address },
    /// Data: `(old_threshold, new_threshold)`.
    ThresholdChanged { old_threshold: u32, new_threshold: u32 },
    /// Topics: `(name, new_recovery)`; data: the admin.
    RecoveryAddressUpdated { new_recovery: Address, admin: Address },
    /// Data: the primary admin.
    Initialized { admin: Address },
    /// Data: `(admin, schema_version)`.
    Migrated { admin: Address, schema_version: u32 },
    /// Topics: `(name, key)`; data: `(admin, previous, value)`.
    SysParamUpdated { key: ParamKey, admin: Address, previous: Option<i128>, value: i128 },
    /// Data: `(admin, config)`.
    FeeConfigUpdated { admin: Address, config: FeeConfig },
    /// Topics: `(name, asset)`; data: `(previous, anchor)`.
    AnchorUpserted { asset: Address, previous: Option<Address>, anchor: Address },
    /// Topics: `(name, asset)`; data: `()`.
    AnchorRemoved { asset: Address },
    /// Data: `(admin, new_governance)`.
    GovernanceUpdated { admin: Address, governance: Address },
    /// Topics: `(name, merchant)`; data: the admin.
    MerchantRegistered { merchant: Address, admin: Address },
    /// Topics: `(name, merchant)`; data: the admin.
    MerchantUnregistered { merchant: Address, admin: Address },
    /// Topics: `(name, merchant)`; data: `(admin, previous, rule)`.
    SettlementRuleUpdated { merchant: Address, admin: Address, previous: SettlementRule, rule: SettlementRule },
    /// Topics: `(name, merchant)`; data: `(admin, removed, fallback)`.
    SettlementRuleCleared { merchant: Address, admin: Address, removed: SettlementRule, fallback: SettlementRule },
    /// Data: `(admin, previous, rule)`.
    DefaultRuleUpdated { admin: Address, previous: SettlementRule, rule: SettlementRule },
    /// Data: the bootstrap rule that was applied.
    BootstrapFallback { rule: SettlementRule },
    /// Topics: `(name, merchant, reference)`; data: the stored record.
    PaymentStored { merchant: Address, reference: [u8; 32], record: PaymentRecord },
    /// Topics: `(name, operation_hash)`; data: `(caller, execute_at)`.
    OpScheduled { op_hash: [u8; 32], caller: Address, execute_at: u64 },
    /// Topics: `(name, operation_hash)`; data: `()`.
    OpExecuted { op_hash: [u8; 32] },
    /// Topics: `(name, operation_hash)`; data: the caller.
    OpCancelled { op_hash: [u8; 32], caller: Address },
}

/// The name of event `e`, published as its first topic.
pub open spec fn event_name(e: Event) -> &'static str {
    match e {
        Event::AdminTransferred(_) => ADMIN_TRANSFERRED_EVENT,
        Event::Paused { .. } => PAUSED_EVENT,
        Event::Unpaused { .. } => UNPAUSED_EVENT,
        Event::RecoveryInitiated { .. } => RECOVERY_INITIATED_EVENT,
        Event::RecoveryCancelled { .. } => RECOVERY_CANCELLED_EVENT,
        Event::RecoveryExecuted(_) => RECOVERY_EXECUTED_EVENT,
        Event::ContractUpgraded { .. } => CONTRACT_UPGRADED_EVENT,
        Event::ThresholdChanged { .. } => THRESHOLD_CHANGED_EVENT,
        Event::RecoveryAddressUpdated { .. } => RECOVERY_ADDRESS_UPDATED_EVENT,
        Event::Initialized { .. } => INITIALIZED_EVENT,
        Event::Migrated { .. } => MIGRATED_EVENT,
        Event::SysParamUpdated { .. } => SYS_PARAM_UPDATED_EVENT,
        Event::FeeConfigUpdated { .. } => FEE_CONFIG_UPDATED_EVENT,
        Event::AnchorUpserted { .. } => ANCHOR_UPSERTED_EVENT,
        Event::AnchorRemoved { .. } => ANCHOR_REMOVED_EVENT,
        Event::GovernanceUpdated { .. } => GOVERNANCE_UPDATED_EVENT,
        Event::MerchantRegistered { .. } => MERCHANT_REGISTERED_EVENT,
        Event::MerchantUnregistered { .. } => MERCHANT_UNREGISTERED_EVENT,
        Event::SettlementRuleUpdated { .. } => SETTLEMENT_RULE_UPDATED_EVENT,
        Event::SettlementRuleCleared { .. } => SETTLEMENT_RULE_CLEARED_EVENT,
        Event::DefaultRuleUpdated { .. } => DEFAULT_RULE_UPDATED_EVENT,
        Event::BootstrapFallback { .. } => BOOTSTRAP_FALLBACK_EVENT,
        Event::PaymentStored { .. } => PAYMENT_STORED_EVENT,
        Event::OpScheduled { .. } => OP_SCHEDULED_EVENT,
        Event::OpExecuted { .. } => OP_EXECUTED_EVENT,
        Event::OpCancelled { .. } => OP_CANCELLED_EVENT,
    }
}

impl Event {
    /// The event's name, published as its first topic.
    pub fn topic(&self) -> (r: &'static str)
        ensures
            r == event_name(*self),
    {
        match self {
            Event::AdminTransferred(_) => ADMIN_TRANSFERRED_EVENT,
            Event::Paused { .. } => PAUSED_EVENT,
            Event::Unpaused { .. } => UNPAUSED_EVENT,
            Event::RecoveryInitiated { .. } => RECOVERY_INITIATED_EVENT,
            Event::RecoveryCancelled { .. } => RECOVERY_CANCELLED_EVENT,
            Event::RecoveryExecuted(_) => RECOVERY_EXECUTED_EVENT,
            Event::ContractUpgraded { .. } => CONTRACT_UPGRADED_EVENT,
            Event::ThresholdChanged { .. } => THRESHOLD_CHANGED_EVENT,
            Event::RecoveryAddressUpdated { .. } => RECOVERY_ADDRESS_UPDATED_EVENT,
            Event::Initialized { .. } => INITIALIZED_EVENT,
            Event::Migrated { .. } => MIGRATED_EVENT,
            Event::SysParamUpdated { .. } => SYS_PARAM_UPDATED_EVENT,
            Event::FeeConfigUpdated { .. } => FEE_CONFIG_UPDATED_EVENT,
            Event::AnchorUpserted { .. } => ANCHOR_UPSERTED_EVENT,
            Event::AnchorRemoved { .. } => ANCHOR_REMOVED_EVENT,
            Event::GovernanceUpdated { .. } => GOVERNANCE_UPDATED_EVENT,
            Event::MerchantRegistered { .. } => MERCHANT_REGISTERED_EVENT,
            Event::MerchantUnregistered { .. } => MERCHANT_UNREGISTERED_EVENT,
            Event::SettlementRuleUpdated { .. } => SETTLEMENT_RULE_UPDATED_EVENT,
            Event::SettlementRuleCleared { .. } => SETTLEMENT_RULE_CLEARED_EVENT,
            Event::DefaultRuleUpdated { .. } => DEFAULT_RULE_UPDATED_EVENT,
            Event::BootstrapFallback { .. } => BOOTSTRAP_FALLBACK_EVENT,
            Event::PaymentStored { .. } => PAYMENT_STORED_EVENT,
            Event::OpScheduled { .. } => OP_SCHEDULED_EVENT,
            Event::OpExecuted { .. } => OP_EXECUTED_EVENT,
            Event::OpCancelled { .. } => OP_CANCELLED_EVENT,
        }
    }
}

/// Everything a successful contract call asks of its host besides its own
/// state change: the events to publish, the addresses whose authorization
/// the call requires, and a Wasm executable to install.
#[derive(Debug)]
pub struct Effects {
    pub events: Vec<Event>,
    pub auth: Vec<Address>,
    pub wasm_update: Option<[u8; 32]>,
}

/// The spec counterpart of [`Effects`].
pub struct EffectsView {
    pub events: Seq<Event>,
    pub auth: Seq<Address>,
    pub wasm_update: Option<[u8; 32]>,
}

impl View for Effects {
    type V = EffectsView;

    open spec fn view(&self) -> EffectsView {
        EffectsView { events: self.events@, auth: self.auth@, wasm_update: self.wasm_update }
    }
}

/// A successful transition of a contract whose state views as `S`: the state
/// it leaves behind and the effects it asks of the host.
pub struct Step<S> {
    pub state: S,
    pub effects: EffectsView,
}

/// A step that publishes `events` and requires the authorization of `auth`.
pub open spec fn step<S>(state: S, events: Seq<Event>, auth: Seq<Address>) -> Step<S> {
    Step { state, effects: EffectsView { events, auth, wasm_update: None } }
}

/// A call's result `r`, taking the state from `pre` to `post`, is the one
/// `expected` describes: on success the effects and the new state match; on
/// refusal the error matches and the state is left exactly as it was.
pub open spec fn outcome_matches<S, E>(pre: S, post: S, r: Result<Effects, E>, expected: Result<Step<S>, E>) -> bool {
    match expected {
        Ok(st) => r matches Ok(eff) && eff@ == st.effects && post == st.state,
        Err(e) => r == Err::<Effects, E>(e) && post == pre,
    }
}

/// A list holding the single event `e`.
pub fn one_event(e: Event) -> (r: Vec<Event>)
    ensures
        r@ == seq![e],
{
    let mut r: Vec<Event> = Vec::new();
    r.push(e);
    assert(r@ =~= seq![e]);
    r
}

/// A list holding the events `a` and then `b`.
pub fn two_events(a: Event, b: Event) -> (r: Vec<Event>)
    ensures
        r@ == seq![a, b],
{
    let mut r: Vec<Event> = Vec::new();
    r.push(a);
    r.push(b);
    assert(r@ =~= seq![a, b]);
    r
}

/// A call's result `r`, carrying a value beside its effects, is the one
/// `expected` describes; a refusal leaves the state exactly as it was.
pub open spec fn valued_outcome_matches<S, T, E>(pre: S, post: S, r: Result<(T, Effects), E>, expected: Result<(T, Step<S>), E>) -> bool {
    match expected {
        Ok((v, st)) => r matches Ok((rv, eff)) && rv == v && eff@ == st.effects && post == st.state,
        Err(e) => r == Err::<(T, Effects), E>(e) && post == pre,
    }
}

/// An inner transition's result `r` (the events of one step of a larger
/// call) is the one `expected` describes; a refusal leaves the state as it was.
pub open spec fn inner_matches<S, E>(pre: S, post: S, r: Result<Vec<Event>, E>, expected: Result<(S, Seq<Event>), E>) -> bool {
    match expected {
        Ok((st, evs)) => r matches Ok(ev) && ev@ == evs && post == st,
        Err(e) => r == Err::<Vec<Event>, E>(e) && post == pre,
    }
}

/// Lifts an inner transition to a whole call requiring `auth`.
pub open spec fn lift<S, E>(inner: Result<(S, Seq<Event>), E>, auth: Seq<Address>) -> Result<Step<S>, E> {
    match inner {
        Ok((st, evs)) => Ok(step(st, evs, auth)),
        Err(e) => Err(e),
    }
}

/// Builds the effects of a call that publishes `events` and needs `auth`.
pub fn effects(events: Vec<Event>, auth: Vec<Address>) -> (r: Effects)
    ensures
        r@ == (EffectsView { events: events@, auth: auth@, wasm_update: None }),
{
    Effects { events, auth, wasm_update: None }
}

} // verus!
