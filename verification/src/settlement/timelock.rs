//! The admin timelock: operations are scheduled by the admin multisig under
//! the SHA-256 of their XDR encoding, and once due any caller may execute
//! them. The full encoding is stored beside the due time, so a hash match
//! alone never lets an unscheduled operation through.
use vstd::prelude::*;
use crate::address::{copy_addresses, is_zero_address, same_bytes, Address};
use crate::crypto::{sha256, sha256_digest, MAX_HASH_INPUT_LEN};
use crate::errors::SettlementError;
use crate::events::{effects, inner_matches, one_event, outcome_matches, step, Effects, EffectsView, Event, Step};
use crate::settlement::admin::any_merchant;
use crate::settlement::merchants::{register_tail, unregister_tail};
use crate::settlement::rules::{clear_rule_inner, set_default_tail, set_rule_tail};
use crate::settlement::{
    primary_admin_of, settle_admin_set_check, settle_threshold_gate, SettleStep, SettlementContract,
    SettlementState, DEFAULT_TIMELOCK_DELAY_SECONDS,
};
use crate::types::{AdminTransferred, GovFeeLookup, Operation, ScheduledOp};

verus! {

/// The storage key of an operation: the SHA-256 of its encoding.
pub open spec fn op_hash_of(operation_xdr: Seq<u8>) -> [u8; 32] {
    choose|k: [u8; 32]| k@ == sha256_digest(operation_xdr)
}

proof fn lemma_op_hash(h: [u8; 32], operation_xdr: Seq<u8>)
    requires
        h@ == sha256_digest(operation_xdr),
    ensures
        h == op_hash_of(operation_xdr),
{
    broadcast use vstd::array::group_array_axioms;
    let c = op_hash_of(operation_xdr);
    assert(c@ == sha256_digest(operation_xdr));
    assert(h =~= c) by {
        assert forall|i: int| 0 <= i < 32 implies h[i] == c[i] by {
            assert(h@[i] == c@[i]);
        }
    }
}

/// The spec view of an operation's arguments.
pub open spec fn apply_operation(s: SettlementState, executor: Address, op: Operation, gov: GovFeeLookup) -> Result<(SettlementState, Seq<Event>), SettlementError> {
    match op {
        Operation::UpdateGovernance(g) => if s.paused {
            Err(SettlementError::Paused)
        } else if is_zero_address(g) {
            Err(SettlementError::InvalidGovernance)
        } else {
            Ok((SettlementState { governance: Some(g), ..s }, seq![Event::GovernanceUpdated { admin: executor, governance: g }]))
        },
        Operation::CancelRecovery => if s.pending_recovery is None {
            Err(SettlementError::RecoveryNotPending)
        } else {
            Ok((SettlementState { pending_recovery: None, ..s }, seq![Event::RecoveryCancelled { admin: executor }]))
        },
        Operation::TransferAdmin(new_admins, t) => if primary_admin_of(s) is Err {
            Err(primary_admin_of(s)->Err_0)
        } else if settle_admin_set_check(new_admins@, t) is Err {
            Err(settle_admin_set_check(new_admins@, t)->Err_0)
        } else if any_merchant(s, new_admins@) {
            Err(SettlementError::InvalidAdmin)
        } else {
            Ok((
                SettlementState { admins: Some(new_admins@), threshold: Some(t), ..s },
                seq![Event::AdminTransferred(AdminTransferred { old_admin: primary_admin_of(s)->Ok_0, new_admin: new_admins@[0] })],
            ))
        },
        Operation::Upgrade(h) => Ok((s, seq![Event::ContractUpgraded { wasm_hash: h, admin: executor }])),
        Operation::RegisterMerchant(m) => if s.paused {
            Err(SettlementError::Paused)
        } else if is_zero_address(m) {
            Err(SettlementError::ZeroAddress)
        } else {
            register_tail(s, m, executor)
        },
        Operation::UnregisterMerchant(m) => if s.paused {
            Err(SettlementError::Paused)
        } else {
            unregister_tail(s, m, executor, gov)
        },
        Operation::SetSettlementRule(m, rule) => if s.paused {
            Err(SettlementError::Paused)
        } else {
            set_rule_tail(s, m, rule, executor, gov)
        },
        Operation::ClearSettlementRule(m) => clear_rule_inner(s, m, executor, gov),
        Operation::SetDefaultRule(rule) => if s.paused {
            Err(SettlementError::Paused)
        } else {
            set_default_tail(s, rule, executor)
        },
    }
}

/// The Wasm an executed operation installs.
pub open spec fn op_wasm(op: Operation) -> Option<[u8; 32]> {
    match op {
        Operation::Upgrade(h) => Some(h),
        _ => None,
    }
}

pub open spec fn spec_schedule(s: SettlementState, signers: Seq<Address>, operation_xdr: Seq<u8>, execute_in: u64, now: u64) -> SettleStep {
    let h = op_hash_of(operation_xdr);
    if settle_threshold_gate(s, signers) is Err {
        Err(settle_threshold_gate(s, signers)->Err_0)
    } else if s.paused {
        Err(SettlementError::Paused)
    } else if execute_in < DEFAULT_TIMELOCK_DELAY_SECONDS {
        Err(SettlementError::ExecutionNotReady)
    } else if s.scheduled.contains_key(h) {
        if s.scheduled[h].0 == operation_xdr {
            Err(SettlementError::OperationAlreadyScheduled)
        } else {
            Err(SettlementError::OperationHashCollision)
        }
    } else {
        let execute_at = (now + execute_in) as u64;
        Ok(step(
            SettlementState { scheduled: s.scheduled.insert(h, (operation_xdr, execute_at)), ..s },
            seq![Event::OpScheduled { op_hash: h, caller: signers[0], execute_at }],
            signers,
        ))
    }
}

pub open spec fn spec_execute(s: SettlementState, executor: Address, operation: Operation, operation_xdr: Seq<u8>, now: u64, gov: GovFeeLookup) -> SettleStep {
    let h = op_hash_of(operation_xdr);
    if s.paused {
        Err(SettlementError::Paused)
    } else if !s.scheduled.contains_key(h) || s.scheduled[h].0 != operation_xdr {
        Err(SettlementError::OperationNotScheduled)
    } else if now < s.scheduled[h].1 {
        Err(SettlementError::ExecutionNotReady)
    } else {
        match apply_operation(SettlementState { scheduled: s.scheduled.remove(h), ..s }, executor, operation, gov) {
            Err(e) => Err(e),
            Ok((st, evs)) => Ok(Step {
                state: st,
                effects: EffectsView {
                    events: evs + seq![Event::OpExecuted { op_hash: h }],
                    auth: Seq::empty(),
                    wasm_update: op_wasm(operation),
                },
            }),
        }
    }
}

pub open spec fn spec_cancel(s: SettlementState, signers: Seq<Address>, operation_xdr: Seq<u8>) -> SettleStep {
    let h = op_hash_of(operation_xdr);
    if settle_threshold_gate(s, signers) is Err {
        Err(settle_threshold_gate(s, signers)->Err_0)
    } else if s.paused {
        Err(SettlementError::Paused)
    } else if !s.scheduled.contains_key(h) || s.scheduled[h].0 != operation_xdr {
        Err(SettlementError::OperationNotScheduled)
    } else {
        Ok(step(
            SettlementState { scheduled: s.scheduled.remove(h), ..s },
            seq![Event::OpCancelled { op_hash: h, caller: signers[0] }],
            signers,
        ))
    }
}

impl SettlementContract {
    /// The storage key of an operation's encoding.
    fn operation_key(env: &soroban_sdk::Env, operation_xdr: &Vec<u8>) -> (r: [u8; 32])
        requires
            operation_xdr@.len() <= MAX_HASH_INPUT_LEN,
        ensures
            r == op_hash_of(operation_xdr@),
    {
        let h = sha256(env, operation_xdr);
        proof {
            lemma_op_hash(h, operation_xdr@);
        }
        h
    }

    /// Schedules the operation encoded as `operation_xdr` (at most
    /// `MAX_HASH_INPUT_LEN` bytes) to become executable `execute_in` seconds
    /// after `now` (at least `DEFAULT_TIMELOCK_DELAY_SECONDS`).
    pub fn schedule(&mut self, env: &soroban_sdk::Env, signers: &Vec<Address>, operation_xdr: &Vec<u8>, execute_in: u64, now: u64) -> (r: Result<Effects, SettlementError>)
        requires
            old(self).wf(),
            operation_xdr@.len() <= MAX_HASH_INPUT_LEN,
            now + execute_in <= u64::MAX,
        ensures
            final(self).wf(),
            outcome_matches(old(self)@, final(self)@, r, spec_schedule(old(self)@, signers@, operation_xdr@, execute_in, now)),
    {
        if let Err(e) = self.verify_admin_auth(signers) {
            return Err(e);
        }
        if self.paused {
            return Err(SettlementError::Paused);
        }
        if execute_in < DEFAULT_TIMELOCK_DELAY_SECONDS {
            return Err(SettlementError::ExecutionNotReady);
        }
        let h = Self::operation_key(env, operation_xdr);
        match self.scheduled.get(&h) {
            Some(existing) => {
                if same_bytes(&existing.operation_xdr, operation_xdr) {
                    return Err(SettlementError::OperationAlreadyScheduled);
                }
                return Err(SettlementError::OperationHashCollision);
            },
            None => {},
        }
        let execute_at = now + execute_in;
        let ghost old_scheduled = self.scheduled@;
        let stored = ScheduledOp { operation_xdr: operation_xdr.clone(), execute_at };
        assert(stored.operation_xdr@ == operation_xdr@);
        self.scheduled.insert(h, stored);
        proof {
            assert(self@.scheduled =~= old(self)@.scheduled.insert(h, (operation_xdr@, execute_at)));
        }
        let caller = signers[0];
        Ok(effects(one_event(Event::OpScheduled { op_hash: h, caller, execute_at }), copy_addresses(signers)))
    }

    fn apply_operation_exec(&mut self, executor: Address, operation: &Operation, gov: &GovFeeLookup) -> (r: Result<Vec<Event>, SettlementError>)
        requires
            old(self).wf(),
        ensures
            final(self).wf(),
            inner_matches(old(self)@, final(self)@, r, apply_operation(old(self)@, executor, *operation, *gov)),
    {
        match operation {
            Operation::UpdateGovernance(g) => {
                if self.paused {
                    return Err(SettlementError::Paused);
                }
                if g.is_zero() {
                    return Err(SettlementError::InvalidGovernance);
                }
                self.governance = Some(*g);
                Ok(one_event(Event::GovernanceUpdated { admin: executor, governance: *g }))
            },
            Operation::CancelRecovery => {
                if self.pending_recovery.is_none() {
                    return Err(SettlementError::RecoveryNotPending);
                }
                self.pending_recovery = None;
                Ok(one_event(Event::RecoveryCancelled { admin: executor }))
            },
            Operation::TransferAdmin(new_admins, t) => {
                let old_admin = match &self.admins {
                    Some(a) => if a.len() > 0 { a[0] } else { return Err(SettlementError::NotInitialized); },
                    None => { return Err(SettlementError::NotInitialized); },
                };
                if let Err(e) = Self::validate_admins_and_threshold(new_admins, *t) {
                    return Err(e);
                }
                if self.any_registered(new_admins) {
                    return Err(SettlementError::InvalidAdmin);
                }
                self.admins = Some(copy_addresses(new_admins));
                self.threshold = Some(*t);
                let new_admin = new_admins[0];
                Ok(one_event(Event::AdminTransferred(AdminTransferred { old_admin, new_admin })))
            },
            Operation::Upgrade(h) => Ok(one_event(Event::ContractUpgraded { wasm_hash: *h, admin: executor })),
            Operation::RegisterMerchant(m) => {
                if self.paused {
                    return Err(SettlementError::Paused);
                }
                if m.is_zero() {
                    return Err(SettlementError::ZeroAddress);
                }
                self.register_inner(*m, executor)
            },
            Operation::UnregisterMerchant(m) => {
                if self.paused {
                    return Err(SettlementError::Paused);
                }
                self.unregister_inner(*m, executor, gov)
            },
            Operation::SetSettlementRule(m, rule) => {
                if self.paused {
                    return Err(SettlementError::Paused);
                }
                self.set_rule_inner(*m, *rule, executor, gov)
            },
            Operation::ClearSettlementRule(m) => self.clear_rule_timelocked(*m, executor, gov),
            Operation::SetDefaultRule(rule) => {
                if self.paused {
                    return Err(SettlementError::Paused);
                }
                self.set_default_inner(*rule, executor)
            },
        }
    }

    /// Executes a scheduled operation once its timelock has elapsed.
    /// Execution is permissionless: the admins authorized the operation when
    /// they scheduled it, so no caller authorization is asked for; `executor`
    /// is named as the actor in the operation's events. `operation_xdr` is
    /// the XDR encoding of `operation`.
    pub fn execute(&mut self, env: &soroban_sdk::Env, executor: Address, operation: &Operation, operation_xdr: &Vec<u8>, now: u64, gov: &GovFeeLookup) -> (r: Result<Effects, SettlementError>)
        requires
            old(self).wf(),
            operation_xdr@.len() <= MAX_HASH_INPUT_LEN,
        ensures
            final(self).wf(),
            outcome_matches(old(self)@, final(self)@, r, spec_execute(old(self)@, executor, *operation, operation_xdr@, now, *gov)),
    {
        if self.paused {
            return Err(SettlementError::Paused);
        }
        let h = Self::operation_key(env, operation_xdr);
        let execute_at = match self.scheduled.get(&h) {
            Some(scheduled) => {
                if !same_bytes(&scheduled.operation_xdr, operation_xdr) {
                    return Err(SettlementError::OperationNotScheduled);
                }
                scheduled.execute_at
            },
            None => { return Err(SettlementError::OperationNotScheduled); },
        };
        if now < execute_at {
            return Err(SettlementError::ExecutionNotReady);
        }
        let ghost pre = self@;
        let removed = self.scheduled.get(&h).unwrap().clone_op();
        self.scheduled.remove(&h);
        proof {
            assert(self@ == SettlementState { scheduled: pre.scheduled.remove(h), ..pre }) by {
                assert(self@.scheduled =~= pre.scheduled.remove(h));
            }
        }
        match self.apply_operation_exec(executor, operation, gov) {
            Ok(mut events) => {
                let ghost inner = events@;
                events.push(Event::OpExecuted { op_hash: h });
                assert(events@ =~= inner + seq![Event::OpExecuted { op_hash: h }]);
                let wasm_update = match operation {
                    Operation::Upgrade(w) => Some(*w),
                    _ => None,
                };
                let auth: Vec<Address> = Vec::new();
                assert(auth@ =~= Seq::<Address>::empty());
                Ok(Effects { events, auth, wasm_update })
            },
            Err(e) => {
                let ghost kept = (removed.operation_xdr@, removed.execute_at);
                assert(kept == pre.scheduled[h]);
                self.scheduled.insert(h, removed);
                proof {
                    assert(self@.scheduled =~= pre.scheduled.remove(h).insert(h, kept));
                    assert(pre.scheduled.remove(h).insert(h, kept) =~= pre.scheduled);
                }
                Err(e)
            },
        }
    }

    /// Cancels a scheduled operation.
    pub fn cancel(&mut self, env: &soroban_sdk::Env, signers: &Vec<Address>, operation_xdr: &Vec<u8>) -> (r: Result<Effects, SettlementError>)
        requires
            old(self).wf(),
            operation_xdr@.len() <= MAX_HASH_INPUT_LEN,
        ensures
            final(self).wf(),
            outcome_matches(old(self)@, final(self)@, r, spec_cancel(old(self)@, signers@, operation_xdr@)),
    {
        if let Err(e) = self.verify_admin_auth(signers) {
            return Err(e);
        }
        if self.paused {
            return Err(SettlementError::Paused);
        }
        let h = Self::operation_key(env, operation_xdr);
        match self.scheduled.get(&h) {
            Some(scheduled) => {
                if !same_bytes(&scheduled.operation_xdr, operation_xdr) {
                    return Err(SettlementError::OperationNotScheduled);
                }
            },
            None => { return Err(SettlementError::OperationNotScheduled); },
        }
        self.scheduled.remove(&h);
        proof {
            assert(self@.scheduled =~= old(self)@.scheduled.remove(h));
        }
        let caller = signers[0];
        Ok(effects(one_event(Event::OpCancelled { op_hash: h, caller }), copy_addresses(signers)))
    }
}

} // verus!
