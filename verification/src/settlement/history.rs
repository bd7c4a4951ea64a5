//! The settlement contract over a whole history of calls: any sequence of
//! entry-point calls, each taking effect when it succeeds and leaving the
//! state alone when it is refused. Two properties hold across every such
//! history: a merchant's payment history, once orphaned, stays unreadable,
//! and an operation that left the timelock queue can only run again after
//! it has been scheduled again.
use vstd::prelude::*;
use crate::address::Address;
use crate::errors::SettlementError;
use crate::events::Step;
use crate::settlement::admin::{
    spec_cancel_recovery, spec_change_threshold, spec_execute_recovery, spec_init, spec_initiate_recovery,
    spec_pause, spec_transfer_admin, spec_unpause, spec_update_governance, spec_update_recovery_address,
    spec_upgrade,
};
use crate::settlement::merchants::{spec_register_merchant, spec_unregister_merchant};
use crate::settlement::payments::spec_store_payment_reference;
use crate::settlement::rules::{spec_clear_settlement_rule, spec_set_default_rule, spec_set_settlement_rule};
use crate::settlement::timelock::{apply_operation, op_hash_of, spec_cancel, spec_execute, spec_schedule};
use crate::settlement::{payments_readable, SettlementState};
use crate::types::{GovFeeLookup, Operation, SettlementRule};

verus! {

/// One call of a settlement entry point that can change state, with its
/// arguments (and, where the call consults them, the governance reply, the
/// time, the ledger sequence or the interface probe's answer).
pub enum SettlementCall {
    Init { deployer: Address, admins: Seq<Address>, threshold: u32, governance: Address, recovery: Address },
    UpdateGovernance { signers: Seq<Address>, governance: Address },
    InitiateRecovery { new_admin: Address, now: u64 },
    CancelRecovery { signers: Seq<Address> },
    UpdateRecoveryAddress { signers: Seq<Address>, recovery: Address },
    ExecuteRecovery { now: u64 },
    TransferAdmin { signers: Seq<Address>, admins: Seq<Address>, threshold: u32 },
    ChangeThreshold { signers: Seq<Address>, threshold: u32 },
    Upgrade { signers: Seq<Address>, wasm: [u8; 32], interface_supported: bool },
    Pause { signers: Seq<Address> },
    Unpause { signers: Seq<Address> },
    RegisterMerchant { signers: Seq<Address>, merchant: Address },
    UnregisterMerchant { signers: Seq<Address>, merchant: Address, gov: GovFeeLookup },
    SetSettlementRule { signers: Seq<Address>, merchant: Address, rule: SettlementRule, gov: GovFeeLookup },
    ClearSettlementRule { signers: Seq<Address>, merchant: Address, gov: GovFeeLookup },
    SetDefaultRule { signers: Seq<Address>, rule: SettlementRule, gov: GovFeeLookup },
    StorePaymentReference { merchant: Address, reference: [u8; 32], amount: i128, gov: GovFeeLookup, ledger: u32 },
    Schedule { signers: Seq<Address>, operation_xdr: Seq<u8>, execute_in: u64, now: u64 },
    Execute { executor: Address, operation: Operation, operation_xdr: Seq<u8>, now: u64, gov: GovFeeLookup },
    Cancel { signers: Seq<Address>, operation_xdr: Seq<u8> },
}

/// The outcome of call `c` in state `s`, as the entry point's own contract
/// gives it.
pub open spec fn call_step(s: SettlementState, c: SettlementCall) -> Result<Step<SettlementState>, SettlementError> {
    match c {
        SettlementCall::Init { deployer, admins, threshold, governance, recovery } =>
            spec_init(s, deployer, admins, threshold, governance, recovery),
        SettlementCall::UpdateGovernance { signers, governance } => spec_update_governance(s, signers, governance),
        SettlementCall::InitiateRecovery { new_admin, now } => spec_initiate_recovery(s, new_admin, now),
        SettlementCall::CancelRecovery { signers } => spec_cancel_recovery(s, signers),
        SettlementCall::UpdateRecoveryAddress { signers, recovery } => spec_update_recovery_address(s, signers, recovery),
        SettlementCall::ExecuteRecovery { now } => spec_execute_recovery(s, now),
        SettlementCall::TransferAdmin { signers, admins, threshold } => spec_transfer_admin(s, signers, admins, threshold),
        SettlementCall::ChangeThreshold { signers, threshold } => spec_change_threshold(s, signers, threshold),
        SettlementCall::Upgrade { signers, wasm, interface_supported } => spec_upgrade(s, signers, wasm, interface_supported),
        SettlementCall::Pause { signers } => spec_pause(s, signers),
        SettlementCall::Unpause { signers } => spec_unpause(s, signers),
        SettlementCall::RegisterMerchant { signers, merchant } => spec_register_merchant(s, signers, merchant),
        SettlementCall::UnregisterMerchant { signers, merchant, gov } => spec_unregister_merchant(s, signers, merchant, gov),
        SettlementCall::SetSettlementRule { signers, merchant, rule, gov } =>
            spec_set_settlement_rule(s, signers, merchant, rule, gov),
        SettlementCall::ClearSettlementRule { signers, merchant, gov } => spec_clear_settlement_rule(s, signers, merchant, gov),
        SettlementCall::SetDefaultRule { signers, rule, gov } => spec_set_default_rule(s, signers, rule, gov),
        SettlementCall::StorePaymentReference { merchant, reference, amount, gov, ledger } =>
            match spec_store_payment_reference(s, merchant, reference, amount, gov, ledger) {
                Ok((_, st)) => Ok(st),
                Err(e) => Err(e),
            },
        SettlementCall::Schedule { signers, operation_xdr, execute_in, now } =>
            spec_schedule(s, signers, operation_xdr, execute_in, now),
        SettlementCall::Execute { executor, operation, operation_xdr, now, gov } =>
            spec_execute(s, executor, operation, operation_xdr, now, gov),
        SettlementCall::Cancel { signers, operation_xdr } => spec_cancel(s, signers, operation_xdr),
    }
}

/// The state after the calls `cs`, in order, starting from `s`: a successful
/// call moves to its new state, a refused one leaves the state as it was.
pub open spec fn run_calls(s: SettlementState, cs: Seq<SettlementCall>) -> SettlementState
    decreases cs.len(),
{
    if cs.len() == 0 {
        s
    } else {
        let prev = run_calls(s, cs.drop_last());
        match call_step(prev, cs.last()) {
            Ok(st) => st.state,
            Err(_) => prev,
        }
    }
}

/// Call `c` schedules an operation whose queue key is `h`.
pub open spec fn schedules_key(c: SettlementCall, h: [u8; 32]) -> bool {
    c matches SettlementCall::Schedule { operation_xdr, .. } && op_hash_of(operation_xdr) == h
}

/// An operation applied through the timelock adds no queue entry and keeps
/// every tombstone.
proof fn lemma_apply_frame(s: SettlementState, executor: Address, op: Operation, gov: GovFeeLookup)
    requires
        apply_operation(s, executor, op, gov) is Ok,
    ensures
        apply_operation(s, executor, op, gov)->Ok_0.0.scheduled == s.scheduled,
        s.archived_merchants.subset_of(apply_operation(s, executor, op, gov)->Ok_0.0.archived_merchants),
{
}

/// One call keeps every tombstone, and adds no queue key other than the one
/// it schedules.
proof fn lemma_call_frame(s: SettlementState, c: SettlementCall, h: [u8; 32])
    requires
        call_step(s, c) is Ok,
    ensures
        s.archived_merchants.subset_of(call_step(s, c)->Ok_0.state.archived_merchants),
        call_step(s, c)->Ok_0.state.scheduled.contains_key(h) && !schedules_key(c, h) ==> s.scheduled.contains_key(h),
{
    match c {
        SettlementCall::Execute { executor, operation, operation_xdr, now, gov } => {
            let k = op_hash_of(operation_xdr);
            let removed = SettlementState { scheduled: s.scheduled.remove(k), ..s };
            lemma_apply_frame(removed, executor, operation, gov);
        },
        _ => {},
    }
}

/// The frame properties carry over a whole history.
proof fn lemma_history_frame(s: SettlementState, cs: Seq<SettlementCall>, h: [u8; 32])
    ensures
        s.archived_merchants.subset_of(run_calls(s, cs).archived_merchants),
        run_calls(s, cs).scheduled.contains_key(h) && (forall|i: int| 0 <= i < cs.len() ==> !schedules_key(#[trigger] cs[i], h))
            ==> s.scheduled.contains_key(h),
    decreases cs.len(),
{
    if cs.len() > 0 {
        let prefix = cs.drop_last();
        lemma_history_frame(s, prefix, h);
        let prev = run_calls(s, prefix);
        if call_step(prev, cs.last()) is Ok {
            lemma_call_frame(prev, cs.last(), h);
        }
        if forall|i: int| 0 <= i < cs.len() ==> !schedules_key(#[trigger] cs[i], h) {
            assert forall|i: int| 0 <= i < prefix.len() implies !schedules_key(#[trigger] prefix[i], h) by {
                assert(prefix[i] == cs[i]);
            }
            assert(!schedules_key(cs[cs.len() - 1], h));
        }
    }
}

/// Once a merchant has been unregistered its earlier payment history stays
/// unreadable through every later history of calls, re-registration
/// included.
pub proof fn lemma_orphaned_history_stays_unreadable(s: SettlementState, merchant: Address, cs: Seq<SettlementCall>)
    requires
        s.archived_merchants.contains(merchant),
    ensures
        !payments_readable(run_calls(s, cs), merchant),
{
    lemma_history_frame(s, cs, arbitrary());
}

/// An operation that is not in the queue (it was executed, cancelled, or
/// never scheduled) stays out of it through every history that does not
/// schedule it again: executing or cancelling it is then refused, with
/// `OperationNotScheduled` unless the contract is paused or the cancelling
/// signers fail the admin check.
pub proof fn lemma_consumed_operation_stays_consumed(
    s: SettlementState,
    cs: Seq<SettlementCall>,
    executor: Address,
    operation: Operation,
    operation_xdr: Seq<u8>,
    now: u64,
    gov: GovFeeLookup,
    signers: Seq<Address>,
)
    requires
        !s.scheduled.contains_key(op_hash_of(operation_xdr)),
        forall|i: int| 0 <= i < cs.len() ==> !schedules_key(#[trigger] cs[i], op_hash_of(operation_xdr)),
    ensures
        ({
            let t = run_calls(s, cs);
            &&& !t.scheduled.contains_key(op_hash_of(operation_xdr))
            &&& spec_execute(t, executor, operation, operation_xdr, now, gov) is Err
            &&& !t.paused ==> spec_execute(t, executor, operation, operation_xdr, now, gov)
                == Err::<Step<SettlementState>, SettlementError>(SettlementError::OperationNotScheduled)
            &&& spec_cancel(t, signers, operation_xdr) is Err
        }),
{
    lemma_history_frame(s, cs, op_hash_of(operation_xdr));
}

/// Executing or cancelling an operation takes it out of the queue.
pub proof fn lemma_execute_and_cancel_consume(
    s: SettlementState,
    executor: Address,
    operation: Operation,
    operation_xdr: Seq<u8>,
    now: u64,
    gov: GovFeeLookup,
    signers: Seq<Address>,
)
    ensures
        spec_execute(s, executor, operation, operation_xdr, now, gov) is Ok
            ==> !spec_execute(s, executor, operation, operation_xdr, now, gov)->Ok_0.state.scheduled.contains_key(op_hash_of(operation_xdr)),
        spec_cancel(s, signers, operation_xdr) is Ok
            ==> !spec_cancel(s, signers, operation_xdr)->Ok_0.state.scheduled.contains_key(op_hash_of(operation_xdr)),
{
    let k = op_hash_of(operation_xdr);
    let removed = SettlementState { scheduled: s.scheduled.remove(k), ..s };
    if apply_operation(removed, executor, operation, gov) is Ok {
        lemma_apply_frame(removed, executor, operation, gov);
    }
}

} // verus!
