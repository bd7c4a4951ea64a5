//! Initialisation, the admin multisig, recovery, pause and upgrade of the
//! settlement contract.
use vstd::prelude::*;
use crate::address::{copy_addresses, is_zero_address, Address};
use crate::constants::RECOVERY_DELAY_SECONDS;
use crate::errors::SettlementError;
use crate::events::{effects, one_event, outcome_matches, step, Effects, EffectsView, Event, Step};
use crate::settlement::{
    primary_admin_of, settle_admin_set_check, settle_gate, settle_threshold_gate, SettleStep,
    SettlementContract, SettlementState, SUPPORTED_INTERFACE_VERSION,
};
use crate::types::{AdminTransferred, PendingRecovery};

verus! {

/// Some address of `admins` is a registered merchant.
pub open spec fn any_merchant(s: SettlementState, admins: Seq<Address>) -> bool {
    exists|i: int| 0 <= i < admins.len() && s.merchants.contains(#[trigger] admins[i])
}

pub open spec fn spec_init(s: SettlementState, deployer: Address, admins: Seq<Address>, threshold: u32, governance: Address, recovery: Address) -> SettleStep {
    if s.admins is Some {
        Err(SettlementError::AlreadyInitialized)
    } else if settle_admin_set_check(admins, threshold) is Err {
        Err(settle_admin_set_check(admins, threshold)->Err_0)
    } else if is_zero_address(governance) {
        Err(SettlementError::InvalidGovernance)
    } else if is_zero_address(recovery) {
        Err(SettlementError::InvalidRecoveryAddress)
    } else {
        Ok(step(
            SettlementState {
                deployer: Some(deployer),
                admins: Some(admins),
                threshold: Some(threshold),
                governance: Some(governance),
                recovery_address: Some(recovery),
                ..s
            },
            Seq::empty(),
            seq![deployer] + admins.subrange(0, threshold as int),
        ))
    }
}

pub open spec fn spec_update_governance(s: SettlementState, signers: Seq<Address>, new_governance: Address) -> SettleStep {
    if settle_threshold_gate(s, signers) is Err {
        Err(settle_threshold_gate(s, signers)->Err_0)
    } else if s.paused {
        Err(SettlementError::Paused)
    } else if is_zero_address(new_governance) {
        Err(SettlementError::InvalidGovernance)
    } else {
        Ok(step(
            SettlementState { governance: Some(new_governance), ..s },
            seq![Event::GovernanceUpdated { admin: signers[0], governance: new_governance }],
            signers,
        ))
    }
}

pub open spec fn spec_initiate_recovery(s: SettlementState, new_admin: Address, now: u64) -> SettleStep {
    match s.recovery_address {
        None => Err(SettlementError::NotInitialized),
        Some(recovery) => if is_zero_address(new_admin) {
            Err(SettlementError::InvalidAdmin)
        } else {
            let execute_after = (now + RECOVERY_DELAY_SECONDS) as u64;
            Ok(step(
                SettlementState { pending_recovery: Some(PendingRecovery { new_admin, execute_after }), ..s },
                seq![Event::RecoveryInitiated { recovery, new_admin, execute_after }],
                seq![recovery],
            ))
        },
    }
}

pub open spec fn spec_cancel_recovery(s: SettlementState, signers: Seq<Address>) -> SettleStep {
    if settle_threshold_gate(s, signers) is Err {
        Err(settle_threshold_gate(s, signers)->Err_0)
    } else if s.pending_recovery is None {
        Err(SettlementError::RecoveryNotPending)
    } else {
        Ok(step(
            SettlementState { pending_recovery: None, ..s },
            seq![Event::RecoveryCancelled { admin: signers[0] }],
            signers,
        ))
    }
}

pub open spec fn spec_update_recovery_address(s: SettlementState, signers: Seq<Address>, new_recovery: Address) -> SettleStep {
    if settle_threshold_gate(s, signers) is Err {
        Err(settle_threshold_gate(s, signers)->Err_0)
    } else if is_zero_address(new_recovery) {
        Err(SettlementError::InvalidRecoveryAddress)
    } else {
        Ok(step(
            SettlementState { recovery_address: Some(new_recovery), ..s },
            seq![Event::RecoveryAddressUpdated { new_recovery, admin: signers[0] }],
            signers,
        ))
    }
}

/// The old admin named by `execute_recovery`'s event: the primary admin, or
/// the zero address when the admin entry is missing or empty.
pub open spec fn recovery_old_admin(s: SettlementState) -> Address {
    match s.admins {
        Some(a) => if a.len() > 0 { a[0] } else { Address::zero_spec() },
        None => Address::zero_spec(),
    }
}

pub open spec fn spec_execute_recovery(s: SettlementState, now: u64) -> SettleStep {
    match s.pending_recovery {
        None => Err(SettlementError::RecoveryNotPending),
        Some(p) => if now < p.execute_after {
            Err(SettlementError::RecoveryDelayActive)
        } else if is_zero_address(p.new_admin) {
            Err(SettlementError::ZeroAddress)
        } else {
            Ok(step(
                SettlementState { admins: Some(seq![p.new_admin]), threshold: Some(1), pending_recovery: None, ..s },
                seq![Event::RecoveryExecuted(AdminTransferred { old_admin: recovery_old_admin(s), new_admin: p.new_admin })],
                Seq::empty(),
            ))
        },
    }
}

pub open spec fn spec_transfer_admin(s: SettlementState, signers: Seq<Address>, new_admins: Seq<Address>, new_threshold: u32) -> SettleStep {
    if settle_threshold_gate(s, signers) is Err {
        Err(settle_threshold_gate(s, signers)->Err_0)
    } else if settle_admin_set_check(new_admins, new_threshold) is Err {
        Err(settle_admin_set_check(new_admins, new_threshold)->Err_0)
    } else if any_merchant(s, new_admins) {
        Err(SettlementError::InvalidAdmin)
    } else {
        Ok(step(
            SettlementState { admins: Some(new_admins), threshold: Some(new_threshold), ..s },
            seq![Event::AdminTransferred(AdminTransferred { old_admin: primary_admin_of(s)->Ok_0, new_admin: new_admins[0] })],
            signers,
        ))
    }
}

pub open spec fn spec_change_threshold(s: SettlementState, signers: Seq<Address>, new_threshold: u32) -> SettleStep {
    match s.admins {
        None => Err(SettlementError::NotInitialized),
        Some(a) => if new_threshold == 0 || new_threshold > a.len() {
            Err(SettlementError::InvalidThreshold)
        } else {
            match s.threshold {
                None => Err(SettlementError::NotInitialized),
                Some(t) => if settle_gate(s, signers, t + 1) is Err {
                    Err(settle_gate(s, signers, t + 1)->Err_0)
                } else {
                    Ok(step(
                        SettlementState { threshold: Some(new_threshold), ..s },
                        seq![Event::ThresholdChanged { old_threshold: t, new_threshold }],
                        signers,
                    ))
                },
            }
        },
    }
}

pub open spec fn spec_upgrade(s: SettlementState, signers: Seq<Address>, new_wasm_hash: [u8; 32], interface_supported: bool) -> SettleStep {
    if settle_threshold_gate(s, signers) is Err {
        Err(settle_threshold_gate(s, signers)->Err_0)
    } else if !interface_supported {
        Err(SettlementError::InvalidWasmInterface)
    } else {
        Ok(Step {
            state: s,
            effects: EffectsView {
                events: seq![Event::ContractUpgraded { wasm_hash: new_wasm_hash, admin: signers[0] }],
                auth: signers,
                wasm_update: Some(new_wasm_hash),
            },
        })
    }
}

pub open spec fn spec_pause(s: SettlementState, signers: Seq<Address>) -> SettleStep {
    if settle_threshold_gate(s, signers) is Err {
        Err(settle_threshold_gate(s, signers)->Err_0)
    } else if s.paused {
        Err(SettlementError::AlreadyPaused)
    } else {
        Ok(step(SettlementState { paused: true, ..s }, seq![Event::Paused { admin: signers[0] }], signers))
    }
}

pub open spec fn spec_unpause(s: SettlementState, signers: Seq<Address>) -> SettleStep {
    if settle_threshold_gate(s, signers) is Err {
        Err(settle_threshold_gate(s, signers)->Err_0)
    } else if !s.paused {
        Err(SettlementError::AlreadyUnpaused)
    } else {
        Ok(step(SettlementState { paused: false, ..s }, seq![Event::Unpaused { admin: signers[0] }], signers))
    }
}

impl SettlementContract {
    /// Whether this contract implements interface `version`.
    pub fn supports_interface(version: u32) -> (r: bool)
        ensures
            r == (version == SUPPORTED_INTERFACE_VERSION),
    {
        version == SUPPORTED_INTERFACE_VERSION
    }

    /// Whether some address of `admins` is a registered merchant.
    pub(crate) fn any_registered(&self, admins: &Vec<Address>) -> (r: bool)
        requires
            self.wf(),
        ensures
            r == any_merchant(self@, admins@),
    {
        let mut i: usize = 0;
        while i < admins.len()
            invariant
                self.wf(),
                i <= admins@.len(),
                forall|k: int| 0 <= k < i ==> !self@.merchants.contains(#[trigger] admins@[k]),
            decreases admins@.len() - i,
        {
            if self.merchants.contains_key(&admins[i]) {
                assert(self@.merchants.contains(admins@[i as int]));
                return true;
            }
            i = i + 1;
        }
        false
    }

    /// Initialises the contract with its deployer, admin set and threshold,
    /// governance contract and recovery address.
    pub fn init(&mut self, deployer: Address, admins: &Vec<Address>, threshold: u32, governance: Address, recovery_address: Address) -> (r: Result<Effects, SettlementError>)
        requires
            old(self).wf(),
        ensures
            final(self).wf(),
            outcome_matches(old(self)@, final(self)@, r, spec_init(old(self)@, deployer, admins@, threshold, governance, recovery_address)),
    {
        if self.admins.is_some() {
            return Err(SettlementError::AlreadyInitialized);
        }
        if let Err(e) = Self::validate_admins_and_threshold(admins, threshold) {
            return Err(e);
        }
        if governance.is_zero() {
            return Err(SettlementError::InvalidGovernance);
        }
        if recovery_address.is_zero() {
            return Err(SettlementError::InvalidRecoveryAddress);
        }
        let mut auth: Vec<Address> = Vec::new();
        auth.push(deployer);
        let mut i: usize = 0;
        while i < threshold as usize
            invariant
                threshold as int <= admins@.len(),
                i <= threshold,
                auth@ == seq![deployer] + admins@.subrange(0, i as int),
            decreases threshold - i,
        {
            auth.push(admins[i]);
            i = i + 1;
            assert(auth@ =~= seq![deployer] + admins@.subrange(0, i as int));
        }
        self.deployer = Some(deployer);
        self.admins = Some(copy_addresses(admins));
        self.threshold = Some(threshold);
        self.governance = Some(governance);
        self.recovery_address = Some(recovery_address);
        let ev: Vec<Event> = Vec::new();
        assert(ev@ =~= Seq::<Event>::empty());
        Ok(effects(ev, auth))
    }

    /// Whether `init` has run.
    pub fn is_initialized(&self) -> (r: bool)
        ensures
            r == self@.admins is Some,
    {
        self.admins.is_some()
    }

    /// The admin set.
    pub fn get_admin(&self) -> (r: Result<Vec<Address>, SettlementError>)
        ensures
            self@.admins is None ==> r == Err::<Vec<Address>, SettlementError>(SettlementError::NotInitialized),
            self@.admins matches Some(a) ==> r matches Ok(v) && v@ == a,
    {
        match &self.admins {
            Some(a) => Ok(copy_addresses(a)),
            None => Err(SettlementError::NotInitialized),
        }
    }

    /// The multisig threshold.
    pub fn get_threshold(&self) -> (r: Result<u32, SettlementError>)
        ensures
            r == match self@.threshold { Some(t) => Ok(t), None => Err(SettlementError::NotInitialized) },
    {
        match self.threshold {
            Some(t) => Ok(t),
            None => Err(SettlementError::NotInitialized),
        }
    }

    /// The governance contract's address.
    pub fn get_governance(&self) -> (r: Result<Address, SettlementError>)
        ensures
            r == match self@.governance { Some(g) => Ok(g), None => Err(SettlementError::NotInitialized) },
    {
        match self.governance {
            Some(g) => Ok(g),
            None => Err(SettlementError::NotInitialized),
        }
    }

    /// The recovery address.
    pub fn get_recovery_address(&self) -> (r: Result<Address, SettlementError>)
        ensures
            r == match self@.recovery_address { Some(a) => Ok(a), None => Err(SettlementError::NotInitialized) },
    {
        match self.recovery_address {
            Some(a) => Ok(a),
            None => Err(SettlementError::NotInitialized),
        }
    }

    /// Points the contract at another governance contract.
    pub fn update_governance(&mut self, signers: &Vec<Address>, new_governance: Address) -> (r: Result<Effects, SettlementError>)
        requires
            old(self).wf(),
        ensures
            final(self).wf(),
            outcome_matches(old(self)@, final(self)@, r, spec_update_governance(old(self)@, signers@, new_governance)),
    {
        if let Err(e) = self.verify_admin_auth(signers) {
            return Err(e);
        }
        if self.paused {
            return Err(SettlementError::Paused);
        }
        if new_governance.is_zero() {
            return Err(SettlementError::InvalidGovernance);
        }
        self.governance = Some(new_governance);
        let admin = signers[0];
        Ok(effects(one_event(Event::GovernanceUpdated { admin, governance: new_governance }), copy_addresses(signers)))
    }

    /// The recovery address starts a timelocked handover of the admin role.
    pub fn initiate_recovery(&mut self, new_admin: Address, now: u64) -> (r: Result<Effects, SettlementError>)
        requires
            old(self).wf(),
            now + RECOVERY_DELAY_SECONDS <= u64::MAX,
        ensures
            final(self).wf(),
            outcome_matches(old(self)@, final(self)@, r, spec_initiate_recovery(old(self)@, new_admin, now)),
    {
        let recovery = match self.recovery_address {
            Some(a) => a,
            None => { return Err(SettlementError::NotInitialized); },
        };
        if new_admin.is_zero() {
            return Err(SettlementError::InvalidAdmin);
        }
        let execute_after = now + RECOVERY_DELAY_SECONDS;
        self.pending_recovery = Some(PendingRecovery { new_admin, execute_after });
        Ok(effects(one_event(Event::RecoveryInitiated { recovery, new_admin, execute_after }), Address::single(recovery)))
    }

    /// The admins cancel a pending recovery.
    pub fn cancel_recovery(&mut self, signers: &Vec<Address>) -> (r: Result<Effects, SettlementError>)
        requires
            old(self).wf(),
        ensures
            final(self).wf(),
            outcome_matches(old(self)@, final(self)@, r, spec_cancel_recovery(old(self)@, signers@)),
    {
        if let Err(e) = self.verify_admin_auth(signers) {
            return Err(e);
        }
        if self.pending_recovery.is_none() {
            return Err(SettlementError::RecoveryNotPending);
        }
        self.pending_recovery = None;
        let admin = signers[0];
        Ok(effects(one_event(Event::RecoveryCancelled { admin }), copy_addresses(signers)))
    }

    /// Rotates the recovery address.
    pub fn update_recovery_address(&mut self, signers: &Vec<Address>, new_recovery: Address) -> (r: Result<Effects, SettlementError>)
        requires
            old(self).wf(),
        ensures
            final(self).wf(),
            outcome_matches(old(self)@, final(self)@, r, spec_update_recovery_address(old(self)@, signers@, new_recovery)),
    {
        if let Err(e) = self.verify_admin_auth(signers) {
            return Err(e);
        }
        if new_recovery.is_zero() {
            return Err(SettlementError::InvalidRecoveryAddress);
        }
        self.recovery_address = Some(new_recovery);
        let admin = signers[0];
        Ok(effects(one_event(Event::RecoveryAddressUpdated { new_recovery, admin }), copy_addresses(signers)))
    }

    /// Completes a pending recovery once its delay has elapsed: the admin set
    /// becomes the recovery target alone, with threshold one. A target the
    /// admin-set validation refuses leaves the recovery pending.
    pub fn execute_recovery(&mut self, now: u64) -> (r: Result<Effects, SettlementError>)
        requires
            old(self).wf(),
        ensures
            final(self).wf(),
            outcome_matches(old(self)@, final(self)@, r, spec_execute_recovery(old(self)@, now)),
    {
        let pending = match self.pending_recovery {
            Some(p) => p,
            None => { return Err(SettlementError::RecoveryNotPending); },
        };
        if now < pending.execute_after {
            return Err(SettlementError::RecoveryDelayActive);
        }
        let old_admin = match &self.admins {
            Some(a) => if a.len() > 0 { a[0] } else { Address::zero() },
            None => Address::zero(),
        };
        let new_admins = Address::single(pending.new_admin);
        proof {
            assert(!crate::multisig::has_later_duplicate(new_admins@, 0));
            reveal_with_fuel(crate::multisig::admin_scan, 2);
        }
        if let Err(e) = Self::validate_admins_and_threshold(&new_admins, 1) {
            return Err(e);
        }
        self.admins = Some(new_admins);
        self.threshold = Some(1);
        self.pending_recovery = None;
        Ok(effects(
            one_event(Event::RecoveryExecuted(AdminTransferred { old_admin, new_admin: pending.new_admin })),
            Vec::new(),
        ))
    }

    /// Replaces the admin set and threshold; no new admin may be a
    /// registered merchant.
    pub fn transfer_admin(&mut self, signers: &Vec<Address>, new_admins: &Vec<Address>, new_threshold: u32) -> (r: Result<Effects, SettlementError>)
        requires
            old(self).wf(),
        ensures
            final(self).wf(),
            outcome_matches(old(self)@, final(self)@, r, spec_transfer_admin(old(self)@, signers@, new_admins@, new_threshold)),
    {
        if let Err(e) = self.verify_admin_auth(signers) {
            return Err(e);
        }
        if let Err(e) = Self::validate_admins_and_threshold(new_admins, new_threshold) {
            return Err(e);
        }
        if self.any_registered(new_admins) {
            return Err(SettlementError::InvalidAdmin);
        }
        let old_admin = match &self.admins {
            Some(a) => {
                proof {
                    assert(a@.contains(signers@[0]));
                }
                a[0]
            },
            None => { return Err(SettlementError::NotInitialized); },
        };
        self.admins = Some(copy_addresses(new_admins));
        self.threshold = Some(new_threshold);
        let new_admin = new_admins[0];
        Ok(effects(
            one_event(Event::AdminTransferred(AdminTransferred { old_admin, new_admin })),
            copy_addresses(signers),
        ))
    }

    /// Changes the multisig threshold; needs one signature more than the
    /// current threshold.
    pub fn change_threshold(&mut self, signers: &Vec<Address>, new_threshold: u32) -> (r: Result<Effects, SettlementError>)
        requires
            old(self).wf(),
            old(self).threshold != Some(u32::MAX),
        ensures
            final(self).wf(),
            outcome_matches(old(self)@, final(self)@, r, spec_change_threshold(old(self)@, signers@, new_threshold)),
    {
        let admin_count = match &self.admins {
            Some(a) => a.len(),
            None => { return Err(SettlementError::NotInitialized); },
        };
        if new_threshold == 0 || (new_threshold as usize) > admin_count {
            return Err(SettlementError::InvalidThreshold);
        }
        let current = match self.threshold {
            Some(t) => t,
            None => { return Err(SettlementError::NotInitialized); },
        };
        if let Err(e) = self.gate(signers, current as u64 + 1) {
            return Err(e);
        }
        self.threshold = Some(new_threshold);
        Ok(effects(one_event(Event::ThresholdChanged { old_threshold: current, new_threshold }), copy_addresses(signers)))
    }

    /// Replaces the contract's Wasm with `new_wasm_hash`, provided the new
    /// Wasm advertises the supported interface (`interface_supported` is
    /// what its `supports_interface(1)` answered; a trap counts as `false`).
    pub fn upgrade(&mut self, signers: &Vec<Address>, new_wasm_hash: [u8; 32], interface_supported: bool) -> (r: Result<Effects, SettlementError>)
        requires
            old(self).wf(),
        ensures
            final(self).wf(),
            outcome_matches(old(self)@, final(self)@, r, spec_upgrade(old(self)@, signers@, new_wasm_hash, interface_supported)),
    {
        if let Err(e) = self.verify_admin_auth(signers) {
            return Err(e);
        }
        if !interface_supported {
            return Err(SettlementError::InvalidWasmInterface);
        }
        let admin = signers[0];
        Ok(Effects {
            events: one_event(Event::ContractUpgraded { wasm_hash: new_wasm_hash, admin }),
            auth: copy_addresses(signers),
            wasm_update: Some(new_wasm_hash),
        })
    }

    /// Pauses merchant management, rule changes, payments and the timelock.
    pub fn pause(&mut self, signers: &Vec<Address>) -> (r: Result<Effects, SettlementError>)
        requires
            old(self).wf(),
        ensures
            final(self).wf(),
            outcome_matches(old(self)@, final(self)@, r, spec_pause(old(self)@, signers@)),
    {
        if let Err(e) = self.verify_admin_auth(signers) {
            return Err(e);
        }
        if self.paused {
            return Err(SettlementError::AlreadyPaused);
        }
        self.paused = true;
        let admin = signers[0];
        Ok(effects(one_event(Event::Paused { admin }), copy_addresses(signers)))
    }

    /// Lifts a pause.
    pub fn unpause(&mut self, signers: &Vec<Address>) -> (r: Result<Effects, SettlementError>)
        requires
            old(self).wf(),
        ensures
            final(self).wf(),
            outcome_matches(old(self)@, final(self)@, r, spec_unpause(old(self)@, signers@)),
    {
        if let Err(e) = self.verify_admin_auth(signers) {
            return Err(e);
        }
        if !self.paused {
            return Err(SettlementError::AlreadyUnpaused);
        }
        self.paused = false;
        let admin = signers[0];
        Ok(effects(one_event(Event::Unpaused { admin }), copy_addresses(signers)))
    }

    /// Whether the contract is paused.
    pub fn is_paused(&self) -> (r: bool)
        ensures
            r == self@.paused,
    {
        self.paused
    }
}

} // verus!
