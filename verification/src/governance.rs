//! The governance contract: protocol-wide configuration (admin multisig,
//! fee configuration, trusted anchors per asset, numeric system parameters),
//! as a verified state machine over its storage.
//!
//! The pause flag blocks `set_fee_config`, `upsert_anchor`, `remove_anchor`
//! and `migrate`; administrative operations (upgrade, admin transfer,
//! threshold changes, system parameters, recovery) stay available while
//! paused so the admins can repair the cause of an emergency.
use vstd::prelude::*;
use crate::address::{copy_addresses, is_zero_address, same_addresses, Address, ParamKey};
use crate::constants::{BPS_DENOMINATOR, MAX_FEE_BPS, MIN_FEE_BPS, RECOVERY_DELAY_SECONDS};
use crate::errors::GovernanceError;
use crate::events::{effects, one_event, outcome_matches, step, Effects, EffectsView, Event, Step};
use crate::multisig::{
    admin_scan, check_signers, lemma_admin_scan_sound, primary_admin, scan_admin_set,
    signers_authorized, admin_set_sound,
};
use crate::table::Table;
use crate::types::{AdminTransferred, FeeConfig, PendingRecovery};

verus! {

/// The schema version this build writes at `init` and `migrate` advances to.
pub const CURRENT_SCHEMA_VERSION: u32 = 1;

/// The interface version `supports_interface` advertises.
pub const SUPPORTED_INTERFACE_VERSION: u32 = 1;

/// The governance contract's storage. Each field stands for one storage
/// entry; `None` is an absent entry.
pub struct GovernanceContract {
    pub deployer: Option<Address>,
    pub admins: Option<Vec<Address>>,
    pub threshold: Option<u32>,
    pub recovery_address: Option<Address>,
    pub pending_recovery: Option<PendingRecovery>,
    pub paused: bool,
    pub schema_version: Option<u32>,
    pub fee_config: Option<FeeConfig>,
    pub anchors: Table<Address, Address>,
    pub system_params: Table<ParamKey, i128>,
}

/// The abstract state of the governance contract.
pub struct GovernanceState {
    pub deployer: Option<Address>,
    pub admins: Option<Seq<Address>>,
    pub threshold: Option<u32>,
    pub recovery_address: Option<Address>,
    pub pending_recovery: Option<PendingRecovery>,
    pub paused: bool,
    pub schema_version: Option<u32>,
    pub fee_config: Option<FeeConfig>,
    pub anchors: Map<Address, Address>,
    pub system_params: Map<ParamKey, i128>,
}

impl View for GovernanceContract {
    type V = GovernanceState;

    open spec fn view(&self) -> GovernanceState {
        GovernanceState {
            deployer: self.deployer,
            admins: match self.admins { Some(a) => Some(a@), None => None },
            threshold: self.threshold,
            recovery_address: self.recovery_address,
            pending_recovery: self.pending_recovery,
            paused: self.paused,
            schema_version: self.schema_version,
            fee_config: self.fee_config,
            anchors: self.anchors@,
            system_params: self.system_params@,
        }
    }
}

pub type GovStep = Result<Step<GovernanceState>, GovernanceError>;

/// `signers` carry `required` admin signatures in state `s`.
pub open spec fn gov_gate(s: GovernanceState, signers: Seq<Address>, required: int) -> Result<(), GovernanceError> {
    match s.admins {
        None => Err(GovernanceError::NotInitialized),
        Some(a) => if signers_authorized(a, signers, required) { Ok(()) } else { Err(GovernanceError::Unauthorized) },
    }
}

/// `signers` carry the stored threshold of admin signatures.
pub open spec fn gov_threshold_gate(s: GovernanceState, signers: Seq<Address>) -> Result<(), GovernanceError> {
    match s.threshold {
        None => Err(GovernanceError::NotInitialized),
        Some(t) => gov_gate(s, signers, t as int),
    }
}

/// The admin set and threshold are acceptable: `1 <= threshold <= len`, no
/// zero address, no address twice.
pub open spec fn gov_admin_set_check(admins: Seq<Address>, threshold: u32) -> Result<(), GovernanceError> {
    if threshold == 0 || threshold > admins.len() {
        Err(GovernanceError::InvalidThreshold)
    } else if admins.len() == 0 || !admin_set_sound(admins) {
        Err(GovernanceError::InvalidAdmin)
    } else {
        Ok(())
    }
}

/// A fee configuration within the protocol bounds.
pub open spec fn fee_config_valid(c: FeeConfig) -> bool {
    &&& MIN_FEE_BPS <= c.platform_fee_bps <= MAX_FEE_BPS
    &&& MIN_FEE_BPS <= c.network_fee_bps <= MAX_FEE_BPS
    &&& c.platform_fee_bps + c.network_fee_bps <= BPS_DENOMINATOR
}

/// The old admin named by `execute_recovery`'s event: the primary admin, or
/// the zero address when the admin entry is missing or empty.
pub open spec fn recovery_old_admin(s: GovernanceState) -> Address {
    match s.admins {
        Some(a) => if a.len() > 0 { a[0] } else { Address::zero_spec() },
        None => Address::zero_spec(),
    }
}

pub open spec fn spec_init(s: GovernanceState, deployer: Address, admins: Seq<Address>, threshold: u32, recovery: Address) -> GovStep {
    if s.admins is Some {
        Err(GovernanceError::AlreadyInitialized)
    } else if gov_admin_set_check(admins, threshold) is Err {
        Err(gov_admin_set_check(admins, threshold)->Err_0)
    } else if is_zero_address(recovery) {
        Err(GovernanceError::InvalidRecoveryAddress)
    } else {
        Ok(step(
            GovernanceState {
                deployer: Some(deployer),
                admins: Some(admins),
                threshold: Some(threshold),
                recovery_address: Some(recovery),
                schema_version: Some(CURRENT_SCHEMA_VERSION),
                ..s
            },
            seq![Event::Initialized { admin: admins[0] }],
            seq![deployer] + admins.subrange(0, threshold as int),
        ))
    }
}

pub open spec fn spec_update_recovery_address(s: GovernanceState, signers: Seq<Address>, new_recovery: Address) -> GovStep {
    if gov_threshold_gate(s, signers) is Err {
        Err(gov_threshold_gate(s, signers)->Err_0)
    } else if is_zero_address(new_recovery) {
        Err(GovernanceError::InvalidRecoveryAddress)
    } else {
        Ok(step(
            GovernanceState { recovery_address: Some(new_recovery), ..s },
            seq![Event::RecoveryAddressUpdated { new_recovery, admin: signers[0] }],
            signers,
        ))
    }
}

pub open spec fn spec_upgrade(s: GovernanceState, signers: Seq<Address>, new_wasm_hash: [u8; 32], interface_supported: bool) -> GovStep {
    if gov_threshold_gate(s, signers) is Err {
        Err(gov_threshold_gate(s, signers)->Err_0)
    } else if !interface_supported {
        Err(GovernanceError::InvalidWasmInterface)
    } else {
        Ok(Step {
            state: s,
            effects: EffectsView {
                events: seq![Event::ContractUpgraded { wasm_hash: new_wasm_hash, admin: signers[0] }],
                auth: signers,
                wasm_update: Some(new_wasm_hash),
            },
        })
    }
}

pub open spec fn spec_initiate_recovery(s: GovernanceState, new_admin: Address, now: u64) -> GovStep {
    match s.recovery_address {
        None => Err(GovernanceError::NotInitialized),
        Some(recovery) => if is_zero_address(new_admin) {
            Err(GovernanceError::InvalidAdmin)
        } else {
            let execute_after = (now + RECOVERY_DELAY_SECONDS) as u64;
            Ok(step(
                GovernanceState { pending_recovery: Some(PendingRecovery { new_admin, execute_after }), ..s },
                seq![Event::RecoveryInitiated { recovery, new_admin, execute_after }],
                seq![recovery],
            ))
        },
    }
}

pub open spec fn spec_cancel_recovery(s: GovernanceState, signers: Seq<Address>) -> GovStep {
    if gov_threshold_gate(s, signers) is Err {
        Err(gov_threshold_gate(s, signers)->Err_0)
    } else if s.pending_recovery is None {
        Err(GovernanceError::RecoveryNotPending)
    } else {
        Ok(step(
            GovernanceState { pending_recovery: None, ..s },
            seq![Event::RecoveryCancelled { admin: signers[0] }],
            signers,
        ))
    }
}

pub open spec fn spec_execute_recovery(s: GovernanceState, now: u64) -> GovStep {
    match s.pending_recovery {
        None => Err(GovernanceError::RecoveryNotPending),
        Some(p) => if now < p.execute_after {
            Err(GovernanceError::RecoveryDelayActive)
        } else {
            Ok(step(
                GovernanceState { admins: Some(seq![p.new_admin]), threshold: Some(1), pending_recovery: None, ..s },
                seq![Event::RecoveryExecuted(AdminTransferred { old_admin: recovery_old_admin(s), new_admin: p.new_admin })],
                Seq::empty(),
            ))
        },
    }
}

pub open spec fn spec_transfer_admin(s: GovernanceState, signers: Seq<Address>, new_admins: Seq<Address>, new_threshold: u32) -> GovStep {
    if gov_threshold_gate(s, signers) is Err {
        Err(gov_threshold_gate(s, signers)->Err_0)
    } else if new_admins.len() == 0 {
        Err(GovernanceError::InvalidAdmin)
    } else if gov_admin_set_check(new_admins, new_threshold) is Err {
        Err(gov_admin_set_check(new_admins, new_threshold)->Err_0)
    } else if s.admins == Some(new_admins) && s.threshold == Some(new_threshold) {
        Err(GovernanceError::SameAdmin)
    } else {
        Ok(step(
            GovernanceState { admins: Some(new_admins), threshold: Some(new_threshold), ..s },
            seq![Event::AdminTransferred(AdminTransferred { old_admin: s.admins->Some_0[0], new_admin: new_admins[0] })],
            signers,
        ))
    }
}

pub open spec fn spec_change_threshold(s: GovernanceState, signers: Seq<Address>, new_threshold: u32) -> GovStep {
    match s.admins {
        None => Err(GovernanceError::NotInitialized),
        Some(a) => if new_threshold == 0 || new_threshold > a.len() {
            Err(GovernanceError::InvalidThreshold)
        } else {
            match s.threshold {
                None => Err(GovernanceError::NotInitialized),
                Some(t) => if gov_gate(s, signers, t + 1) is Err {
                    Err(gov_gate(s, signers, t + 1)->Err_0)
                } else {
                    Ok(step(
                        GovernanceState { threshold: Some(new_threshold), ..s },
                        seq![Event::ThresholdChanged { old_threshold: t, new_threshold }],
                        signers,
                    ))
                },
            }
        },
    }
}

pub open spec fn spec_pause(s: GovernanceState, signers: Seq<Address>) -> GovStep {
    if gov_threshold_gate(s, signers) is Err {
        Err(gov_threshold_gate(s, signers)->Err_0)
    } else if s.paused {
        Err(GovernanceError::AlreadyPaused)
    } else {
        Ok(step(GovernanceState { paused: true, ..s }, seq![Event::Paused { admin: signers[0] }], signers))
    }
}

pub open spec fn spec_unpause(s: GovernanceState, signers: Seq<Address>) -> GovStep {
    if gov_threshold_gate(s, signers) is Err {
        Err(gov_threshold_gate(s, signers)->Err_0)
    } else if !s.paused {
        Err(GovernanceError::AlreadyUnpaused)
    } else {
        Ok(step(GovernanceState { paused: false, ..s }, seq![Event::Unpaused { admin: signers[0] }], signers))
    }
}

/// The stored schema version; an absent marker reads as the current version.
pub open spec fn schema_version_of(s: GovernanceState) -> u32 {
    match s.schema_version { Some(v) => v, None => CURRENT_SCHEMA_VERSION }
}

pub open spec fn spec_migrate(s: GovernanceState, signers: Seq<Address>) -> GovStep {
    if s.paused {
        Err(GovernanceError::Paused)
    } else if gov_threshold_gate(s, signers) is Err {
        Err(gov_threshold_gate(s, signers)->Err_0)
    } else {
        Ok(step(
            if schema_version_of(s) < CURRENT_SCHEMA_VERSION {
                GovernanceState { schema_version: Some(CURRENT_SCHEMA_VERSION), ..s }
            } else {
                s
            },
            seq![Event::Migrated { admin: signers[0], schema_version: CURRENT_SCHEMA_VERSION }],
            signers,
        ))
    }
}

pub open spec fn spec_update_system_param(s: GovernanceState, signers: Seq<Address>, key: ParamKey, value: i128) -> GovStep {
    if gov_threshold_gate(s, signers) is Err {
        Err(gov_threshold_gate(s, signers)->Err_0)
    } else if value < 0 {
        Err(GovernanceError::InvalidParamValue)
    } else {
        Ok(step(
            GovernanceState { system_params: s.system_params.insert(key, value), ..s },
            seq![Event::SysParamUpdated {
                key,
                admin: signers[0],
                previous: if s.system_params.contains_key(key) { Some(s.system_params[key]) } else { None },
                value,
            }],
            signers,
        ))
    }
}

pub open spec fn spec_set_fee_config(s: GovernanceState, signers: Seq<Address>, config: FeeConfig) -> GovStep {
    if s.paused {
        Err(GovernanceError::Paused)
    } else if gov_threshold_gate(s, signers) is Err {
        Err(gov_threshold_gate(s, signers)->Err_0)
    } else if !fee_config_valid(config) {
        Err(GovernanceError::InvalidFeeBps)
    } else {
        Ok(step(
            GovernanceState { fee_config: Some(config), ..s },
            seq![Event::FeeConfigUpdated { admin: signers[0], config }],
            signers,
        ))
    }
}

pub open spec fn spec_upsert_anchor(s: GovernanceState, signers: Seq<Address>, asset: Address, anchor: Address) -> GovStep {
    if s.paused {
        Err(GovernanceError::Paused)
    } else if gov_threshold_gate(s, signers) is Err {
        Err(gov_threshold_gate(s, signers)->Err_0)
    } else if is_zero_address(asset) || is_zero_address(anchor) || asset == anchor {
        Err(GovernanceError::InvalidAdmin)
    } else {
        Ok(step(
            GovernanceState { anchors: s.anchors.insert(asset, anchor), ..s },
            seq![Event::AnchorUpserted {
                asset,
                previous: if s.anchors.contains_key(asset) { Some(s.anchors[asset]) } else { None },
                anchor,
            }],
            signers,
        ))
    }
}

pub open spec fn spec_remove_anchor(s: GovernanceState, signers: Seq<Address>, asset: Address) -> GovStep {
    if s.paused {
        Err(GovernanceError::Paused)
    } else if gov_threshold_gate(s, signers) is Err {
        Err(gov_threshold_gate(s, signers)->Err_0)
    } else if !s.anchors.contains_key(asset) {
        Err(GovernanceError::AnchorMissing)
    } else {
        Ok(step(
            GovernanceState { anchors: s.anchors.remove(asset), ..s },
            seq![Event::AnchorRemoved { asset }],
            signers,
        ))
    }
}

impl GovernanceContract {
    /// The storage tables are well formed and a stored threshold is at least one.
    pub open spec fn wf(&self) -> bool {
        &&& self.anchors.wf()
        &&& self.system_params.wf()
        &&& self.threshold matches Some(t) ==> t >= 1
    }

    /// A freshly deployed contract: no storage entries at all.
    pub fn new() -> (r: Self)
        ensures
            r.wf(),
            r@ == (GovernanceState {
                deployer: None,
                admins: None,
                threshold: None,
                recovery_address: None,
                pending_recovery: None,
                paused: false,
                schema_version: None,
                fee_config: None,
                anchors: Map::empty(),
                system_params: Map::empty(),
            }),
    {
        GovernanceContract {
            deployer: None,
            admins: None,
            threshold: None,
            recovery_address: None,
            pending_recovery: None,
            paused: false,
            schema_version: None,
            fee_config: None,
            anchors: Table::new(),
            system_params: Table::new(),
        }
    }

    /// Whether this contract implements interface `version`.
    pub fn supports_interface(version: u32) -> (r: bool)
        ensures
            r == (version == SUPPORTED_INTERFACE_VERSION),
    {
        version == SUPPORTED_INTERFACE_VERSION
    }

    fn gate(&self, signers: &Vec<Address>, required: u64) -> (r: Result<(), GovernanceError>)
        ensures
            r == gov_gate(self@, signers@, required as int),
    {
        match &self.admins {
            None => Err(GovernanceError::NotInitialized),
            Some(a) => if check_signers(a, signers, required) { Ok(()) } else { Err(GovernanceError::Unauthorized) },
        }
    }

    /// Checks that `signers` carry the stored threshold of admin signatures.
    pub fn verify_admin_auth(&self, signers: &Vec<Address>) -> (r: Result<(), GovernanceError>)
        requires
            self.wf(),
        ensures
            r == gov_threshold_gate(self@, signers@),
            r is Ok ==> signers@.len() >= 1,
    {
        match self.threshold {
            None => Err(GovernanceError::NotInitialized),
            Some(t) => self.gate(signers, t as u64),
        }
    }

    fn validate_admins_and_threshold(admins: &Vec<Address>, threshold: u32) -> (r: Result<(), GovernanceError>)
        ensures
            r == gov_admin_set_check(admins@, threshold),
    {
        if threshold == 0 || (threshold as usize) > admins.len() {
            return Err(GovernanceError::InvalidThreshold);
        }
        if admins.len() == 0 {
            return Err(GovernanceError::InvalidAdmin);
        }
        proof {
            lemma_admin_scan_sound(admins@);
        }
        match scan_admin_set(admins) {
            Some(_) => Err(GovernanceError::InvalidAdmin),
            None => Ok(()),
        }
    }

    /// Initialises the contract: records the deployer, the admin set and
    /// threshold, the recovery address and the schema-version marker.
    pub fn init(&mut self, deployer: Address, admins: &Vec<Address>, threshold: u32, recovery_address: Address) -> (r: Result<Effects, GovernanceError>)
        requires
            old(self).wf(),
        ensures
            final(self).wf(),
            outcome_matches(old(self)@, final(self)@, r, spec_init(old(self)@, deployer, admins@, threshold, recovery_address)),
    {
        if self.admins.is_some() {
            return Err(GovernanceError::AlreadyInitialized);
        }
        if let Err(e) = Self::validate_admins_and_threshold(admins, threshold) {
            return Err(e);
        }
        if recovery_address.is_zero() {
            return Err(GovernanceError::InvalidRecoveryAddress);
        }
        let mut auth: Vec<Address> = Vec::new();
        auth.push(deployer);
        let mut i: usize = 0;
        while i < threshold as usize
            invariant
                threshold as int <= admins@.len(),
                i <= threshold,
                auth@ == seq![deployer] + admins@.subrange(0, i as int),
            decreases threshold - i,
        {
            auth.push(admins[i]);
            i = i + 1;
            assert(auth@ =~= seq![deployer] + admins@.subrange(0, i as int));
        }
        let admin = admins[0];
        self.deployer = Some(deployer);
        self.admins = Some(copy_addresses(admins));
        self.threshold = Some(threshold);
        self.recovery_address = Some(recovery_address);
        self.schema_version = Some(CURRENT_SCHEMA_VERSION);
        Ok(effects(one_event(Event::Initialized { admin }), auth))
    }

    /// Whether `init` has run.
    pub fn is_initialized(&self) -> (r: bool)
        ensures
            r == self@.admins is Some,
    {
        self.admins.is_some()
    }

    /// The admin set.
    pub fn get_admin(&self) -> (r: Result<Vec<Address>, GovernanceError>)
        ensures
            self@.admins is None ==> r == Err::<Vec<Address>, GovernanceError>(GovernanceError::NotInitialized),
            self@.admins matches Some(a) ==> r matches Ok(v) && v@ == a,
    {
        match &self.admins {
            Some(a) => Ok(copy_addresses(a)),
            None => Err(GovernanceError::NotInitialized),
        }
    }

    /// The multisig threshold.
    pub fn get_threshold(&self) -> (r: Result<u32, GovernanceError>)
        ensures
            r == match self@.threshold { Some(t) => Ok(t), None => Err(GovernanceError::NotInitialized) },
    {
        match self.threshold {
            Some(t) => Ok(t),
            None => Err(GovernanceError::NotInitialized),
        }
    }

    /// The recovery address.
    pub fn get_recovery_address(&self) -> (r: Result<Address, GovernanceError>)
        ensures
            r == match self@.recovery_address { Some(a) => Ok(a), None => Err(GovernanceError::NotInitialized) },
    {
        match self.recovery_address {
            Some(a) => Ok(a),
            None => Err(GovernanceError::NotInitialized),
        }
    }

    /// Rotates the recovery address.
    pub fn update_recovery_address(&mut self, signers: &Vec<Address>, new_recovery: Address) -> (r: Result<Effects, GovernanceError>)
        requires
            old(self).wf(),
        ensures
            final(self).wf(),
            outcome_matches(old(self)@, final(self)@, r, spec_update_recovery_address(old(self)@, signers@, new_recovery)),
    {
        if let Err(e) = self.verify_admin_auth(signers) {
            return Err(e);
        }
        if new_recovery.is_zero() {
            return Err(GovernanceError::InvalidRecoveryAddress);
        }
        self.recovery_address = Some(new_recovery);
        let admin = signers[0];
        Ok(effects(one_event(Event::RecoveryAddressUpdated { new_recovery, admin }), copy_addresses(signers)))
    }

    /// Replaces the contract's Wasm with `new_wasm_hash`, provided the new
    /// Wasm advertises the supported interface (`interface_supported` is
    /// what its `supports_interface(1)` answered; a trap counts as `false`).
    pub fn upgrade(&mut self, signers: &Vec<Address>, new_wasm_hash: [u8; 32], interface_supported: bool) -> (r: Result<Effects, GovernanceError>)
        requires
            old(self).wf(),
        ensures
            final(self).wf(),
            outcome_matches(old(self)@, final(self)@, r, spec_upgrade(old(self)@, signers@, new_wasm_hash, interface_supported)),
    {
        if let Err(e) = self.verify_admin_auth(signers) {
            return Err(e);
        }
        if !interface_supported {
            return Err(GovernanceError::InvalidWasmInterface);
        }
        let admin = signers[0];
        Ok(Effects {
            events: one_event(Event::ContractUpgraded { wasm_hash: new_wasm_hash, admin }),
            auth: copy_addresses(signers),
            wasm_update: Some(new_wasm_hash),
        })
    }

    /// The recovery address starts a timelocked handover of the admin role to
    /// `new_admin`, executable `RECOVERY_DELAY_SECONDS` after `now`.
    pub fn initiate_recovery(&mut self, new_admin: Address, now: u64) -> (r: Result<Effects, GovernanceError>)
        requires
            old(self).wf(),
            now + RECOVERY_DELAY_SECONDS <= u64::MAX,
        ensures
            final(self).wf(),
            outcome_matches(old(self)@, final(self)@, r, spec_initiate_recovery(old(self)@, new_admin, now)),
    {
        let recovery = match self.recovery_address {
            Some(a) => a,
            None => { return Err(GovernanceError::NotInitialized); },
        };
        if new_admin.is_zero() {
            return Err(GovernanceError::InvalidAdmin);
        }
        let execute_after = now + RECOVERY_DELAY_SECONDS;
        self.pending_recovery = Some(PendingRecovery { new_admin, execute_after });
        Ok(effects(one_event(Event::RecoveryInitiated { recovery, new_admin, execute_after }), Address::single(recovery)))
    }

    /// The admins cancel a pending recovery.
    pub fn cancel_recovery(&mut self, signers: &Vec<Address>) -> (r: Result<Effects, GovernanceError>)
        requires
            old(self).wf(),
        ensures
            final(self).wf(),
            outcome_matches(old(self)@, final(self)@, r, spec_cancel_recovery(old(self)@, signers@)),
    {
        if let Err(e) = self.verify_admin_auth(signers) {
            return Err(e);
        }
        if self.pending_recovery.is_none() {
            return Err(GovernanceError::RecoveryNotPending);
        }
        self.pending_recovery = None;
        let admin = signers[0];
        Ok(effects(one_event(Event::RecoveryCancelled { admin }), copy_addresses(signers)))
    }

    /// Completes a pending recovery once its delay has elapsed: the admin set
    /// becomes the recovery target alone, with threshold one. A missing or
    /// empty admin entry is repaired rather than blocking the recovery.
    pub fn execute_recovery(&mut self, now: u64) -> (r: Result<Effects, GovernanceError>)
        requires
            old(self).wf(),
        ensures
            final(self).wf(),
            outcome_matches(old(self)@, final(self)@, r, spec_execute_recovery(old(self)@, now)),
    {
        let pending = match self.pending_recovery {
            Some(p) => p,
            None => { return Err(GovernanceError::RecoveryNotPending); },
        };
        if now < pending.execute_after {
            return Err(GovernanceError::RecoveryDelayActive);
        }
        let old_admin = match &self.admins {
            Some(a) => match primary_admin(a) {
                Some(p) => p,
                None => Address::zero(),
            },
            None => Address::zero(),
        };
        self.admins = Some(Address::single(pending.new_admin));
        self.threshold = Some(1);
        self.pending_recovery = None;
        Ok(effects(
            one_event(Event::RecoveryExecuted(AdminTransferred { old_admin, new_admin: pending.new_admin })),
            Vec::new(),
        ))
    }

    /// Replaces the admin set and threshold. An empty, zero-address or
    /// duplicate admin set is refused with `InvalidAdmin`; the same set and
    /// threshold as now with `SameAdmin`.
    pub fn transfer_admin(&mut self, signers: &Vec<Address>, new_admins: &Vec<Address>, new_threshold: u32) -> (r: Result<Effects, GovernanceError>)
        requires
            old(self).wf(),
        ensures
            final(self).wf(),
            outcome_matches(old(self)@, final(self)@, r, spec_transfer_admin(old(self)@, signers@, new_admins@, new_threshold)),
    {
        if let Err(e) = self.verify_admin_auth(signers) {
            return Err(e);
        }
        // An empty new admin set is refused as an invalid admin set, whatever
        // the threshold.
        if new_admins.len() == 0 {
            return Err(GovernanceError::InvalidAdmin);
        }
        if let Err(e) = Self::validate_admins_and_threshold(new_admins, new_threshold) {
            return Err(e);
        }
        let old_threshold = self.threshold.unwrap();
        let old_primary = match &self.admins {
            Some(old_admins) => {
                if same_addresses(old_admins, new_admins) && old_threshold == new_threshold {
                    return Err(GovernanceError::SameAdmin);
                }
                proof {
                    assert(old_admins@.contains(signers@[0]));
                }
                old_admins[0]
            },
            None => { return Err(GovernanceError::NotInitialized); },
        };
        self.admins = Some(copy_addresses(new_admins));
        self.threshold = Some(new_threshold);
        let new_primary = new_admins[0];
        Ok(effects(
            one_event(Event::AdminTransferred(AdminTransferred { old_admin: old_primary, new_admin: new_primary })),
            copy_addresses(signers),
        ))
    }

    /// Changes the multisig threshold; needs one signature more than the
    /// current threshold.
    pub fn change_threshold(&mut self, signers: &Vec<Address>, new_threshold: u32) -> (r: Result<Effects, GovernanceError>)
        requires
            old(self).wf(),
            old(self).threshold != Some(u32::MAX),
        ensures
            final(self).wf(),
            outcome_matches(old(self)@, final(self)@, r, spec_change_threshold(old(self)@, signers@, new_threshold)),
    {
        let admin_count = match &self.admins {
            Some(a) => a.len(),
            None => { return Err(GovernanceError::NotInitialized); },
        };
        if new_threshold == 0 || (new_threshold as usize) > admin_count {
            return Err(GovernanceError::InvalidThreshold);
        }
        let current = match self.threshold {
            Some(t) => t,
            None => { return Err(GovernanceError::NotInitialized); },
        };
        if let Err(e) = self.gate(signers, current as u64 + 1) {
            return Err(e);
        }
        self.threshold = Some(new_threshold);
        Ok(effects(one_event(Event::ThresholdChanged { old_threshold: current, new_threshold }), copy_addresses(signers)))
    }

    /// Pauses the fee-configuration and anchor writes.
    pub fn pause(&mut self, signers: &Vec<Address>) -> (r: Result<Effects, GovernanceError>)
        requires
            old(self).wf(),
        ensures
            final(self).wf(),
            outcome_matches(old(self)@, final(self)@, r, spec_pause(old(self)@, signers@)),
    {
        if let Err(e) = self.verify_admin_auth(signers) {
            return Err(e);
        }
        if self.paused {
            return Err(GovernanceError::AlreadyPaused);
        }
        self.paused = true;
        let admin = signers[0];
        Ok(effects(one_event(Event::Paused { admin }), copy_addresses(signers)))
    }

    /// Lifts a pause.
    pub fn unpause(&mut self, signers: &Vec<Address>) -> (r: Result<Effects, GovernanceError>)
        requires
            old(self).wf(),
        ensures
            final(self).wf(),
            outcome_matches(old(self)@, final(self)@, r, spec_unpause(old(self)@, signers@)),
    {
        if let Err(e) = self.verify_admin_auth(signers) {
            return Err(e);
        }
        if !self.paused {
            return Err(GovernanceError::AlreadyUnpaused);
        }
        self.paused = false;
        let admin = signers[0];
        Ok(effects(one_event(Event::Unpaused { admin }), copy_addresses(signers)))
    }

    /// Whether the contract is paused.
    pub fn is_paused(&self) -> (r: bool)
        ensures
            r == self@.paused,
    {
        self.paused
    }

    /// Idempotent schema migration: advances a stored schema version below
    /// the current one to the current one.
    pub fn migrate(&mut self, signers: &Vec<Address>) -> (r: Result<Effects, GovernanceError>)
        requires
            old(self).wf(),
        ensures
            final(self).wf(),
            outcome_matches(old(self)@, final(self)@, r, spec_migrate(old(self)@, signers@)),
    {
        if self.paused {
            return Err(GovernanceError::Paused);
        }
        if let Err(e) = self.verify_admin_auth(signers) {
            return Err(e);
        }
        let version = match self.schema_version { Some(v) => v, None => CURRENT_SCHEMA_VERSION };
        if version < CURRENT_SCHEMA_VERSION {
            self.schema_version = Some(CURRENT_SCHEMA_VERSION);
        }
        let admin = signers[0];
        Ok(effects(one_event(Event::Migrated { admin, schema_version: CURRENT_SCHEMA_VERSION }), copy_addresses(signers)))
    }

    /// Stores a non-negative numeric system parameter under `key`.
    pub fn update_system_param(&mut self, signers: &Vec<Address>, key: ParamKey, value: i128) -> (r: Result<Effects, GovernanceError>)
        requires
            old(self).wf(),
        ensures
            final(self).wf(),
            outcome_matches(old(self)@, final(self)@, r, spec_update_system_param(old(self)@, signers@, key, value)),
    {
        if let Err(e) = self.verify_admin_auth(signers) {
            return Err(e);
        }
        if value < 0 {
            return Err(GovernanceError::InvalidParamValue);
        }
        let previous = match self.system_params.get(&key) {
            Some(v) => Some(*v),
            None => None,
        };
        self.system_params.insert(key, value);
        let admin = signers[0];
        Ok(effects(one_event(Event::SysParamUpdated { key, admin, previous, value }), copy_addresses(signers)))
    }

    /// The system parameter stored under `key`, if any.
    pub fn get_system_param(&self, key: &ParamKey) -> (r: Option<i128>)
        requires
            self.wf(),
        ensures
            r == (if self@.system_params.contains_key(*key) { Some(self@.system_params[*key]) } else { None }),
    {
        match self.system_params.get(key) {
            Some(v) => Some(*v),
            None => None,
        }
    }

    /// Sets the protocol-wide fee configuration: each leg within
    /// `[MIN_FEE_BPS, MAX_FEE_BPS]` and both together at most `BPS_DENOMINATOR`.
    pub fn set_fee_config(&mut self, signers: &Vec<Address>, config: FeeConfig) -> (r: Result<Effects, GovernanceError>)
        requires
            old(self).wf(),
        ensures
            final(self).wf(),
            outcome_matches(old(self)@, final(self)@, r, spec_set_fee_config(old(self)@, signers@, config)),
    {
        if self.paused {
            return Err(GovernanceError::Paused);
        }
        if let Err(e) = self.verify_admin_auth(signers) {
            return Err(e);
        }
        if config.platform_fee_bps < MIN_FEE_BPS || config.platform_fee_bps > MAX_FEE_BPS
            || config.network_fee_bps < MIN_FEE_BPS || config.network_fee_bps > MAX_FEE_BPS
        {
            return Err(GovernanceError::InvalidFeeBps);
        }
        if config.platform_fee_bps + config.network_fee_bps > BPS_DENOMINATOR {
            return Err(GovernanceError::InvalidFeeBps);
        }
        self.fee_config = Some(config);
        let admin = signers[0];
        Ok(effects(one_event(Event::FeeConfigUpdated { admin, config }), copy_addresses(signers)))
    }

    /// The fee configuration, if set.
    pub fn get_fee_config(&self) -> (r: Option<FeeConfig>)
        ensures
            r == self@.fee_config,
    {
        self.fee_config
    }

    /// Creates or replaces the trusted anchor of `asset`.
    pub fn upsert_anchor(&mut self, signers: &Vec<Address>, asset: Address, anchor: Address) -> (r: Result<Effects, GovernanceError>)
        requires
            old(self).wf(),
        ensures
            final(self).wf(),
            outcome_matches(old(self)@, final(self)@, r, spec_upsert_anchor(old(self)@, signers@, asset, anchor)),
    {
        if self.paused {
            return Err(GovernanceError::Paused);
        }
        if let Err(e) = self.verify_admin_auth(signers) {
            return Err(e);
        }
        if asset.is_zero() || anchor.is_zero() || asset.same_as(&anchor) {
            return Err(GovernanceError::InvalidAdmin);
        }
        let previous = match self.anchors.get(&asset) {
            Some(a) => Some(*a),
            None => None,
        };
        self.anchors.insert(asset, anchor);
        Ok(effects(one_event(Event::AnchorUpserted { asset, previous, anchor }), copy_addresses(signers)))
    }

    /// Removes the trusted anchor of `asset`.
    pub fn remove_anchor(&mut self, signers: &Vec<Address>, asset: Address) -> (r: Result<Effects, GovernanceError>)
        requires
            old(self).wf(),
        ensures
            final(self).wf(),
            outcome_matches(old(self)@, final(self)@, r, spec_remove_anchor(old(self)@, signers@, asset)),
    {
        if self.paused {
            return Err(GovernanceError::Paused);
        }
        if let Err(e) = self.verify_admin_auth(signers) {
            return Err(e);
        }
        if !self.anchors.contains_key(&asset) {
            return Err(GovernanceError::AnchorMissing);
        }
        self.anchors.remove(&asset);
        Ok(effects(one_event(Event::AnchorRemoved { asset }), copy_addresses(signers)))
    }

    /// The trusted anchor of `asset`, if any.
    pub fn get_anchor(&self, asset: &Address) -> (r: Option<Address>)
        requires
            self.wf(),
        ensures
            r == (if self@.anchors.contains_key(*asset) { Some(self@.anchors[*asset]) } else { None }),
    {
        match self.anchors.get(asset) {
            Some(a) => Some(*a),
            None => None,
        }
    }
}

} // verus!
