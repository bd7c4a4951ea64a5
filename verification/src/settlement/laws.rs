//! Properties of the settlement contract that span several calls or hold
//! of every state, stated over the spec functions its operations follow.
use vstd::prelude::*;
use crate::address::{Address, PaymentKey};
use crate::errors::SettlementError;
use crate::events::{Event, Step};
use crate::settlement::admin::{
    spec_cancel_recovery, spec_change_threshold, spec_execute_recovery, spec_initiate_recovery, spec_pause,
    spec_transfer_admin, spec_unpause, spec_update_governance, spec_upgrade,
};
use crate::settlement::merchants::{spec_register_merchant, spec_unregister_merchant};
use crate::settlement::payments::{found_payments, spec_fee_quote, spec_store_payment_reference};
use crate::settlement::rules::{clear_rule_inner, spec_clear_settlement_rule, spec_set_default_rule, spec_set_settlement_rule};
use crate::settlement::timelock::{apply_operation, op_hash_of, spec_cancel, spec_execute, spec_schedule};
use crate::settlement::{
    bootstrap_rule, effective_rule, payments_readable, primary_admin_of, rule_from_governance, settle_threshold_gate,
    SettlementState, MIN_PAYMENT_AMOUNT,
};
use crate::types::{GovFeeLookup, Operation, PaymentRecord, SettlementRule};

verus! {

/// Pausing and then unpausing with the same signers succeeds and restores
/// the state exactly as it was before the pause.
pub proof fn lemma_settlement_pause_unpause_round_trip(s: SettlementState, signers: Seq<Address>)
    requires
        spec_pause(s, signers) is Ok,
    ensures
        spec_unpause(spec_pause(s, signers)->Ok_0.state, signers) is Ok,
        spec_unpause(spec_pause(s, signers)->Ok_0.state, signers)->Ok_0.state == s,
{
}

/// While paused, no merchant, rule, payment, governance or timelock write
/// succeeds.
pub proof fn lemma_settlement_pause_blocks_writes(
    s: SettlementState,
    signers: Seq<Address>,
    merchant: Address,
    rule: SettlementRule,
    gov: GovFeeLookup,
    reference: [u8; 32],
    amount: i128,
    ledger: u32,
    new_governance: Address,
    executor: Address,
    operation: Operation,
    operation_xdr: Seq<u8>,
    execute_in: u64,
    now: u64,
)
    requires
        s.paused,
    ensures
        spec_register_merchant(s, signers, merchant) is Err,
        spec_unregister_merchant(s, signers, merchant, gov) is Err,
        spec_set_settlement_rule(s, signers, merchant, rule, gov) is Err,
        spec_clear_settlement_rule(s, signers, merchant, gov) is Err,
        spec_set_default_rule(s, signers, rule, gov) is Err,
        spec_store_payment_reference(s, merchant, reference, amount, gov, ledger) is Err,
        spec_update_governance(s, signers, new_governance) is Err,
        spec_schedule(s, signers, operation_xdr, execute_in, now) is Err,
        spec_execute(s, executor, operation, operation_xdr, now, gov) is Err,
        spec_cancel(s, signers, operation_xdr) is Err,
{
}

/// Unregistering a merchant orphans its payment history, and registering
/// the same address again does not make that history readable.
pub proof fn lemma_unregister_orphans_payments(
    s: SettlementState,
    signers: Seq<Address>,
    merchant: Address,
    gov: GovFeeLookup,
    later_signers: Seq<Address>,
)
    requires
        spec_unregister_merchant(s, signers, merchant, gov) is Ok,
    ensures
        ({
            let t = spec_unregister_merchant(s, signers, merchant, gov)->Ok_0.state;
            &&& !payments_readable(t, merchant)
            &&& t.payments == s.payments
            &&& spec_register_merchant(t, later_signers, merchant) is Ok
                ==> !payments_readable(spec_register_merchant(t, later_signers, merchant)->Ok_0.state, merchant)
        }),
{
}

/// A stored payment is what `get_payment_reference` reads back, and the
/// same reference cannot be stored twice for the same merchant.
pub proof fn lemma_payment_read_after_write(
    s: SettlementState,
    merchant: Address,
    reference: [u8; 32],
    amount: i128,
    gov: GovFeeLookup,
    ledger: u32,
    amount2: i128,
    gov2: GovFeeLookup,
    ledger2: u32,
)
    requires
        spec_store_payment_reference(s, merchant, reference, amount, gov, ledger) is Ok,
    ensures
        ({
            let (split, st) = spec_store_payment_reference(s, merchant, reference, amount, gov, ledger)->Ok_0;
            let key = PaymentKey { merchant, reference };
            let t = st.state;
            &&& t.payments.contains_key(key)
            &&& t.payments[key].merchant == merchant
            &&& t.payments[key].amount == amount
            &&& t.payments[key].platform_fee_amount == split.platform_fee_amount
            &&& t.payments[key].network_fee_amount == split.network_fee_amount
            &&& t.payments[key].merchant_amount == split.merchant_amount
            &&& t.payments[key].ledger == ledger
            &&& spec_store_payment_reference(t, merchant, reference, amount2, gov2, ledger2) is Err
            &&& amount2 >= MIN_PAYMENT_AMOUNT ==> spec_store_payment_reference(t, merchant, reference, amount2, gov2, ledger2)
                == Err::<(crate::types::FeeSplit, Step<SettlementState>), SettlementError>(SettlementError::DuplicatePaymentReference)
        }),
{
}

/// Governance's fee configuration is a ceiling: a merchant rule or default
/// rule accepted while governance has a configuration charges no leg above
/// it.
pub proof fn lemma_governance_fee_ceiling(
    s: SettlementState,
    signers: Seq<Address>,
    merchant: Address,
    rule: SettlementRule,
    gov: GovFeeLookup,
)
    requires
        gov is Config,
        spec_set_settlement_rule(s, signers, merchant, rule, gov) is Ok || spec_set_default_rule(s, signers, rule, gov) is Ok,
    ensures
        rule.platform_fee_bps <= gov->Config_0.platform_fee_bps,
        rule.network_fee_bps <= gov->Config_0.network_fee_bps,
{
}

/// Cancelling an operation right after scheduling it succeeds with the same
/// signers and restores the state exactly as it was.
pub proof fn lemma_schedule_then_cancel_restores_state(
    s: SettlementState,
    signers: Seq<Address>,
    operation_xdr: Seq<u8>,
    execute_in: u64,
    now: u64,
)
    requires
        spec_schedule(s, signers, operation_xdr, execute_in, now) is Ok,
    ensures
        spec_cancel(spec_schedule(s, signers, operation_xdr, execute_in, now)->Ok_0.state, signers, operation_xdr) is Ok,
        spec_cancel(spec_schedule(s, signers, operation_xdr, execute_in, now)->Ok_0.state, signers, operation_xdr)->Ok_0.state == s,
{
    let h = op_hash_of(operation_xdr);
    let t = spec_schedule(s, signers, operation_xdr, execute_in, now)->Ok_0.state;
    assert(t.scheduled.remove(h) =~= s.scheduled);
}

/// An operation applied through the timelock never touches the queue itself.
proof fn lemma_apply_keeps_queue(s: SettlementState, executor: Address, op: Operation, gov: GovFeeLookup)
    requires
        apply_operation(s, executor, op, gov) is Ok,
    ensures
        apply_operation(s, executor, op, gov)->Ok_0.0.scheduled == s.scheduled,
        apply_operation(s, executor, op, gov)->Ok_0.0.paused == s.paused,
{
}

/// A scheduled operation is refused with `ExecutionNotReady` before its due
/// time; once it has been executed its slot is consumed, so executing it
/// again is refused with `OperationNotScheduled`.
pub proof fn lemma_timelock_execution(
    s: SettlementState,
    signers: Seq<Address>,
    executor: Address,
    operation: Operation,
    operation_xdr: Seq<u8>,
    execute_in: u64,
    now: u64,
    at: u64,
    gov: GovFeeLookup,
    at2: u64,
    gov2: GovFeeLookup,
)
    requires
        spec_schedule(s, signers, operation_xdr, execute_in, now) is Ok,
        now + execute_in <= u64::MAX,
    ensures
        ({
            let t = spec_schedule(s, signers, operation_xdr, execute_in, now)->Ok_0.state;
            &&& at < now + execute_in ==> spec_execute(t, executor, operation, operation_xdr, at, gov)
                == Err::<Step<SettlementState>, SettlementError>(SettlementError::ExecutionNotReady)
            &&& spec_execute(t, executor, operation, operation_xdr, at, gov) is Ok ==> {
                let u = spec_execute(t, executor, operation, operation_xdr, at, gov)->Ok_0.state;
                spec_execute(u, executor, operation, operation_xdr, at2, gov2)
                    == Err::<Step<SettlementState>, SettlementError>(SettlementError::OperationNotScheduled)
            }
        }),
{
    let h = op_hash_of(operation_xdr);
    let t = spec_schedule(s, signers, operation_xdr, execute_in, now)->Ok_0.state;
    assert(t.scheduled.contains_key(h));
    assert(t.scheduled[h] == (operation_xdr, (now + execute_in) as u64));
    if spec_execute(t, executor, operation, operation_xdr, at, gov) is Ok {
        let removed = SettlementState { scheduled: t.scheduled.remove(h), ..t };
        lemma_apply_keeps_queue(removed, executor, operation, gov);
    }
}

/// An admin transfer through the timelock leaves the same admin set,
/// threshold and event as the direct call, given signers the direct call
/// accepts and a stored primary admin.
pub proof fn lemma_timelocked_transfer_matches_direct(
    s: SettlementState,
    signers: Seq<Address>,
    executor: Address,
    new_admins: Vec<Address>,
    threshold: u32,
    gov: GovFeeLookup,
)
    requires
        settle_threshold_gate(s, signers) is Ok,
        primary_admin_of(s) is Ok,
    ensures
        ({
            let op = Operation::TransferAdmin(new_admins, threshold);
            let via_timelock = apply_operation(s, executor, op, gov);
            let direct = spec_transfer_admin(s, signers, new_admins@, threshold);
            &&& via_timelock is Ok <==> direct is Ok
            &&& via_timelock is Err ==> via_timelock->Err_0 == direct->Err_0
            &&& via_timelock is Ok ==> via_timelock->Ok_0.0 == direct->Ok_0.state
                && via_timelock->Ok_0.1 == direct->Ok_0.effects.events
        }),
{
}

/// Clearing a merchant rule through the timelock leaves the same state and
/// publishes the same `settlement_rule_cleared` event as the direct call by
/// the same actor.
pub proof fn lemma_timelocked_clear_matches_direct(
    s: SettlementState,
    signers: Seq<Address>,
    merchant: Address,
    gov: GovFeeLookup,
)
    requires
        spec_clear_settlement_rule(s, signers, merchant, gov) is Ok,
    ensures
        ({
            let direct = spec_clear_settlement_rule(s, signers, merchant, gov)->Ok_0;
            let via_timelock = clear_rule_inner(s, merchant, signers[0], gov);
            &&& via_timelock is Ok
            &&& via_timelock->Ok_0.0 == direct.state
            &&& via_timelock->Ok_0.1.last() == direct.effects.events.last()
        }),
{
    let cleared = SettlementState { rules: s.rules.remove(merchant), ..s };
    assert(!cleared.rules.contains_key(merchant));
}

/// The split locked into a stored payment is the one `calculate_fee_split`
/// quotes for the same merchant, amount and governance reply beforehand.
pub proof fn lemma_store_locks_quoted_split(
    s: SettlementState,
    merchant: Address,
    reference: [u8; 32],
    amount: i128,
    gov: GovFeeLookup,
    ledger: u32,
)
    requires
        spec_store_payment_reference(s, merchant, reference, amount, gov, ledger) is Ok,
    ensures
        spec_fee_quote(s, merchant, amount, gov) is Ok,
        spec_fee_quote(s, merchant, amount, gov)->Ok_0.0 == spec_store_payment_reference(s, merchant, reference, amount, gov, ledger)->Ok_0.0,
{
}

/// The rule a merchant's payments follow is resolved in order: its own
/// rule, else the global default, else governance's fee configuration, else
/// the bootstrap rule (announced with a `bootstrap_fallback` event).
pub proof fn lemma_rule_resolution_order(s: SettlementState, merchant: Address, gov: GovFeeLookup)
    ensures
        s.rules.contains_key(merchant) ==> effective_rule(s, merchant, gov) == Ok::<(SettlementRule, Seq<Event>), SettlementError>((s.rules[merchant], Seq::empty())),
        !s.rules.contains_key(merchant) && s.default_rule is Some
            ==> effective_rule(s, merchant, gov) == Ok::<(SettlementRule, Seq<Event>), SettlementError>((s.default_rule->Some_0, Seq::empty())),
        !s.rules.contains_key(merchant) && s.default_rule is None && gov is Config
            ==> effective_rule(s, merchant, gov) == Ok::<(SettlementRule, Seq<Event>), SettlementError>((rule_from_governance(gov->Config_0), Seq::empty())),
        !s.rules.contains_key(merchant) && s.default_rule is None && gov is NotSet
            ==> effective_rule(s, merchant, gov) == Ok::<(SettlementRule, Seq<Event>), SettlementError>((bootstrap_rule(), seq![Event::BootstrapFallback { rule: bootstrap_rule() }])),
{
}

/// A merchant rule that was set is the rule that merchant's payments follow
/// next, whatever governance replies; a default rule that was set is the
/// rule of every merchant without a rule of its own.
pub proof fn lemma_rule_read_after_write(
    s: SettlementState,
    signers: Seq<Address>,
    merchant: Address,
    rule: SettlementRule,
    gov: GovFeeLookup,
    other: Address,
    later_gov: GovFeeLookup,
)
    ensures
        spec_set_settlement_rule(s, signers, merchant, rule, gov) is Ok
            ==> effective_rule(spec_set_settlement_rule(s, signers, merchant, rule, gov)->Ok_0.state, merchant, later_gov)
                == Ok::<(SettlementRule, Seq<Event>), SettlementError>((rule, Seq::empty())),
        spec_set_default_rule(s, signers, rule, gov) is Ok && !s.rules.contains_key(other)
            ==> effective_rule(spec_set_default_rule(s, signers, rule, gov)->Ok_0.state, other, later_gov)
                == Ok::<(SettlementRule, Seq<Event>), SettlementError>((rule, Seq::empty())),
{
}

/// The pause flag has no say in upgrade, admin transfer, threshold change
/// and the recovery flow: they succeed or fail alike whether the contract
/// is paused or not.
pub proof fn lemma_settlement_pause_leaves_admin_operations_available(
    s: SettlementState,
    signers: Seq<Address>,
    new_admins: Seq<Address>,
    new_threshold: u32,
    wasm: [u8; 32],
    interface_supported: bool,
    new_admin: Address,
    now: u64,
)
    ensures
        ({
            let p = SettlementState { paused: !s.paused, ..s };
            &&& spec_transfer_admin(p, signers, new_admins, new_threshold) is Ok == spec_transfer_admin(s, signers, new_admins, new_threshold) is Ok
            &&& spec_change_threshold(p, signers, new_threshold) is Ok == spec_change_threshold(s, signers, new_threshold) is Ok
            &&& spec_upgrade(p, signers, wasm, interface_supported) is Ok == spec_upgrade(s, signers, wasm, interface_supported) is Ok
            &&& spec_initiate_recovery(p, new_admin, now) is Ok == spec_initiate_recovery(s, new_admin, now) is Ok
            &&& spec_cancel_recovery(p, signers) is Ok == spec_cancel_recovery(s, signers) is Ok
            &&& spec_execute_recovery(p, now) is Ok == spec_execute_recovery(s, now) is Ok
        }),
{
}

/// An accepted upgrade changes no storage entry: it only installs the new
/// Wasm.
pub proof fn lemma_settlement_upgrade_keeps_storage(s: SettlementState, signers: Seq<Address>, wasm: [u8; 32], interface_supported: bool)
    requires
        spec_upgrade(s, signers, wasm, interface_supported) is Ok,
    ensures
        spec_upgrade(s, signers, wasm, interface_supported)->Ok_0.state == s,
        spec_upgrade(s, signers, wasm, interface_supported)->Ok_0.effects.wasm_update == Some(wasm),
{
}

/// The batch lookup of a single reference gives that reference's record
/// when it has one, and nothing otherwise.
pub proof fn lemma_batch_lookup_single(p: Map<PaymentKey, PaymentRecord>, merchant: Address, reference: [u8; 32])
    ensures
        p.contains_key(PaymentKey { merchant, reference })
            ==> found_payments(p, merchant, seq![reference]) == seq![p[PaymentKey { merchant, reference }]],
        !p.contains_key(PaymentKey { merchant, reference })
            ==> found_payments(p, merchant, seq![reference]) == Seq::<PaymentRecord>::empty(),
{
    reveal_with_fuel(found_payments, 2);
    assert(seq![reference].drop_last() =~= Seq::<[u8; 32]>::empty());
    assert(Seq::<PaymentRecord>::empty().push(p[PaymentKey { merchant, reference }]) =~= seq![p[PaymentKey { merchant, reference }]]);
}

/// Looking up `a` followed by `b` gives the records of `a` followed by the
/// records of `b`: the lookup of one reference never depends on the
/// references before it.
pub proof fn lemma_batch_lookup_concat(p: Map<PaymentKey, PaymentRecord>, merchant: Address, a: Seq<[u8; 32]>, b: Seq<[u8; 32]>)
    ensures
        found_payments(p, merchant, a + b) == found_payments(p, merchant, a) + found_payments(p, merchant, b),
    decreases b.len(),
{
    if b.len() == 0 {
        assert(a + b =~= a);
        assert(found_payments(p, merchant, a) + found_payments(p, merchant, b) =~= found_payments(p, merchant, a));
    } else {
        lemma_batch_lookup_concat(p, merchant, a, b.drop_last());
        assert((a + b).drop_last() =~= a + b.drop_last());
        assert((a + b).last() == b.last());
        let fa = found_payments(p, merchant, a);
        let fb = found_payments(p, merchant, b.drop_last());
        let key = PaymentKey { merchant, reference: b.last() };
        if p.contains_key(key) {
            assert((fa + fb).push(p[key]) =~= fa + fb.push(p[key]));
        }
    }
}

/// `rec` is the stored record of `merchant` under one of `refs`.
pub open spec fn is_record_of_some_reference(p: Map<PaymentKey, PaymentRecord>, merchant: Address, refs: Seq<[u8; 32]>, rec: PaymentRecord) -> bool {
    exists|i: int| 0 <= i < refs.len() && p.contains_key(PaymentKey { merchant, reference: #[trigger] refs[i] })
        && rec == p[PaymentKey { merchant, reference: refs[i] }]
}

/// Every reference of the batch that has a record contributes that record
/// to the result, wherever it stands and whatever the references before it
/// hold; and every record in the result is the record of one of the
/// references.
pub proof fn lemma_batch_lookup_finds_every_record(p: Map<PaymentKey, PaymentRecord>, merchant: Address, refs: Seq<[u8; 32]>)
    ensures
        forall|i: int| 0 <= i < refs.len() && p.contains_key(PaymentKey { merchant, reference: #[trigger] refs[i] })
            ==> found_payments(p, merchant, refs).contains(p[PaymentKey { merchant, reference: refs[i] }]),
        forall|j: int| 0 <= j < found_payments(p, merchant, refs).len()
            ==> is_record_of_some_reference(p, merchant, refs, #[trigger] found_payments(p, merchant, refs)[j]),
    decreases refs.len(),
{
    if refs.len() > 0 {
        let prefix = refs.drop_last();
        lemma_batch_lookup_finds_every_record(p, merchant, prefix);
        let f = found_payments(p, merchant, prefix);
        let key = PaymentKey { merchant, reference: refs.last() };
        assert(found_payments(p, merchant, refs) == if p.contains_key(key) { f.push(p[key]) } else { f });
        assert forall|i: int| 0 <= i < refs.len() && p.contains_key(PaymentKey { merchant, reference: #[trigger] refs[i] })
            implies found_payments(p, merchant, refs).contains(p[PaymentKey { merchant, reference: refs[i] }]) by {
            if i < refs.len() - 1 {
                assert(prefix[i] == refs[i]);
                let w = choose|j: int| 0 <= j < f.len() && f[j] == p[PaymentKey { merchant, reference: refs[i] }];
                if p.contains_key(key) {
                    assert(f.push(p[key])[w] == f[w]);
                }
            } else {
                assert(found_payments(p, merchant, refs) == f.push(p[key]));
                assert(f.push(p[key])[f.len() as int] == p[key]);
            }
        }
    }
    assert forall|j: int| 0 <= j < found_payments(p, merchant, refs).len()
        implies is_record_of_some_reference(p, merchant, refs, #[trigger] found_payments(p, merchant, refs)[j]) by {
        let i = lemma_record_origin(p, merchant, refs, j);
        assert(refs[i] == refs[i]);
    }
}

/// The reference a record of the batch result comes from.
proof fn lemma_record_origin(p: Map<PaymentKey, PaymentRecord>, merchant: Address, refs: Seq<[u8; 32]>, j: int) -> (i: int)
    requires
        0 <= j < found_payments(p, merchant, refs).len(),
    ensures
        0 <= i < refs.len(),
        p.contains_key(PaymentKey { merchant, reference: refs[i] }),
        found_payments(p, merchant, refs)[j] == p[PaymentKey { merchant, reference: refs[i] }],
    decreases refs.len(),
{
    let prefix = refs.drop_last();
    let f = found_payments(p, merchant, prefix);
    let key = PaymentKey { merchant, reference: refs.last() };
    if j < f.len() {
        let i = lemma_record_origin(p, merchant, prefix, j);
        assert(prefix[i] == refs[i]);
        if p.contains_key(key) {
            assert(f.push(p[key])[j] == f[j]);
        }
        i
    } else {
        assert(p.contains_key(key));
        assert(f.push(p[key])[j] == p[key]);
        refs.len() - 1
    }
}

/// Unregistering a merchant removes its own rule and leaves every other
/// merchant's rule as it was, on the direct path and through the timelock:
/// the merchant's payments then resolve to the fallback rule.
pub proof fn lemma_unregister_removes_own_rule(
    s: SettlementState,
    signers: Seq<Address>,
    merchant: Address,
    gov: GovFeeLookup,
    executor: Address,
    other: Address,
    later_gov: GovFeeLookup,
)
    ensures
        spec_unregister_merchant(s, signers, merchant, gov) is Ok ==> {
            let t = spec_unregister_merchant(s, signers, merchant, gov)->Ok_0.state;
            &&& !t.rules.contains_key(merchant)
            &&& other != merchant ==> t.rules.contains_key(other) == s.rules.contains_key(other)
                && (t.rules.contains_key(other) ==> t.rules[other] == s.rules[other])
            &&& effective_rule(t, merchant, later_gov) is Ok ==> effective_rule(t, merchant, later_gov)->Ok_0.0
                == match t.default_rule {
                    Some(d) => d,
                    None => match later_gov {
                        GovFeeLookup::Config(c) => rule_from_governance(c),
                        _ => bootstrap_rule(),
                    },
                }
        },
        apply_operation(s, executor, Operation::UnregisterMerchant(merchant), gov) is Ok ==> {
            let t = apply_operation(s, executor, Operation::UnregisterMerchant(merchant), gov)->Ok_0.0;
            &&& !t.rules.contains_key(merchant)
            &&& other != merchant ==> t.rules.contains_key(other) == s.rules.contains_key(other)
                && (t.rules.contains_key(other) ==> t.rules[other] == s.rules[other])
        },
{
}

/// A scheduled operation is refused with `ExecutionNotReady` exactly while
/// its due time lies ahead: from the due time on, at any later time, that
/// refusal never comes, and execution succeeds whenever the operation itself
/// applies.
pub proof fn lemma_due_operation_is_executable(
    s: SettlementState,
    executor: Address,
    operation: Operation,
    operation_xdr: Seq<u8>,
    now: u64,
    gov: GovFeeLookup,
)
    requires
        !s.paused,
        s.scheduled.contains_key(op_hash_of(operation_xdr)),
        s.scheduled[op_hash_of(operation_xdr)].0 == operation_xdr,
    ensures
        ({
            let due = s.scheduled[op_hash_of(operation_xdr)].1;
            let r = spec_execute(s, executor, operation, operation_xdr, now, gov);
            &&& (r == Err::<Step<SettlementState>, SettlementError>(SettlementError::ExecutionNotReady)) <==> now < due
            &&& now >= due ==> (r is Ok <==> apply_operation(
                    SettlementState { scheduled: s.scheduled.remove(op_hash_of(operation_xdr)), ..s }, executor, operation, gov) is Ok)
        }),
{
    let removed = SettlementState { scheduled: s.scheduled.remove(op_hash_of(operation_xdr)), ..s };
    if now >= s.scheduled[op_hash_of(operation_xdr)].1 && apply_operation(removed, executor, operation, gov) is Err {
        lemma_apply_never_not_ready(removed, executor, operation, gov);
    }
}

/// No operation applied through the timelock is refused as not ready.
proof fn lemma_apply_never_not_ready(s: SettlementState, executor: Address, op: Operation, gov: GovFeeLookup)
    ensures
        apply_operation(s, executor, op, gov) is Err ==> apply_operation(s, executor, op, gov)->Err_0 != SettlementError::ExecutionNotReady,
{
}

/// An operation scheduled at `now` to run `execute_in` seconds later can be
/// executed at any time from then on without being refused as not ready.
pub proof fn lemma_scheduled_operation_becomes_executable(
    s: SettlementState,
    signers: Seq<Address>,
    executor: Address,
    operation: Operation,
    operation_xdr: Seq<u8>,
    execute_in: u64,
    now: u64,
    at: u64,
    gov: GovFeeLookup,
)
    requires
        spec_schedule(s, signers, operation_xdr, execute_in, now) is Ok,
        now + execute_in <= u64::MAX,
        at >= now + execute_in,
    ensures
        spec_execute(spec_schedule(s, signers, operation_xdr, execute_in, now)->Ok_0.state, executor, operation, operation_xdr, at, gov)
            != Err::<Step<SettlementState>, SettlementError>(SettlementError::ExecutionNotReady),
{
    let t = spec_schedule(s, signers, operation_xdr, execute_in, now)->Ok_0.state;
    lemma_due_operation_is_executable(t, executor, operation, operation_xdr, at, gov);
}

/// A stored payment records the rule it was charged under: the fee rates,
/// settlement delay and auto-settle flag of the merchant's effective rule
/// (its own rule if it has one, else the default rule), together with the
/// amount, the ledger and the fees, each `ceil(amount * bps / 10_000)`.
pub proof fn lemma_stored_record_carries_its_rule(
    s: SettlementState,
    merchant: Address,
    reference: [u8; 32],
    amount: i128,
    gov: GovFeeLookup,
    ledger: u32,
)
    requires
        spec_store_payment_reference(s, merchant, reference, amount, gov, ledger) is Ok,
    ensures
        ({
            let rec = spec_store_payment_reference(s, merchant, reference, amount, gov, ledger)->Ok_0.1.state.payments[PaymentKey { merchant, reference }];
            let rule = effective_rule(s, merchant, gov)->Ok_0.0;
            &&& effective_rule(s, merchant, gov) is Ok
            &&& rec.merchant == merchant
            &&& rec.amount == amount
            &&& rec.ledger == ledger
            &&& rec.platform_fee_bps == rule.platform_fee_bps
            &&& rec.network_fee_bps == rule.network_fee_bps
            &&& rec.settlement_delay_ledger == rule.settlement_delay_ledger
            &&& rec.auto_settle == rule.auto_settle
            &&& rec.platform_fee_amount == crate::types::fee_ceil(amount as int, rule.platform_fee_bps as int)
            &&& rec.network_fee_amount == crate::types::fee_ceil(amount as int, rule.network_fee_bps as int)
            &&& s.rules.contains_key(merchant) ==> rec.auto_settle == s.rules[merchant].auto_settle
                && rec.settlement_delay_ledger == s.rules[merchant].settlement_delay_ledger
            &&& !s.rules.contains_key(merchant) && s.default_rule is Some ==> rec.auto_settle == s.default_rule->Some_0.auto_settle
                && rec.settlement_delay_ledger == s.default_rule->Some_0.settlement_delay_ledger
            &&& !s.rules.contains_key(merchant) && s.default_rule is None ==> !rec.auto_settle && rec.settlement_delay_ledger == 0
        }),
{
    crate::fees::lemma_split_legs_fit(amount as int, effective_rule(s, merchant, gov)->Ok_0.0);
}

} // verus!
