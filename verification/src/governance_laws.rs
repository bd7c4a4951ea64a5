//! Properties of the governance contract that span several calls or hold
//! of every state, stated over the spec functions its operations follow.
use vstd::prelude::*;
use crate::address::{is_zero_address, Address, ParamKey};
use crate::constants::RECOVERY_DELAY_SECONDS;
use crate::errors::GovernanceError;
use crate::governance::{
    gov_admin_set_check, gov_threshold_gate, spec_cancel_recovery, spec_change_threshold, spec_execute_recovery, spec_init,
    spec_initiate_recovery, spec_migrate, spec_pause, spec_remove_anchor, spec_set_fee_config,
    spec_transfer_admin, spec_unpause, spec_update_system_param, spec_upgrade, spec_upsert_anchor,
    GovernanceState,
};
use crate::types::FeeConfig;

verus! {

/// The stored admin set and threshold pass the checks every admin writer
/// applies: `1 <= threshold <= len`, no zero address, no address twice.
pub open spec fn gov_admin_state_valid(s: GovernanceState) -> bool {
    &&& s.admins is Some
    &&& s.threshold is Some
    &&& gov_admin_set_check(s.admins->Some_0, s.threshold->Some_0) is Ok
}

/// Pausing and then unpausing with the same signers succeeds and restores
/// the state exactly as it was before the pause.
pub proof fn lemma_pause_unpause_round_trip(s: GovernanceState, signers: Seq<Address>)
    requires
        spec_pause(s, signers) is Ok,
    ensures
        spec_unpause(spec_pause(s, signers)->Ok_0.state, signers) is Ok,
        spec_unpause(spec_pause(s, signers)->Ok_0.state, signers)->Ok_0.state == s,
{
}

/// While paused, fee configuration, anchor writes and migration are refused
/// with `Paused`, whoever signs.
pub proof fn lemma_pause_blocks_config_writes(
    s: GovernanceState,
    signers: Seq<Address>,
    config: FeeConfig,
    asset: Address,
    anchor: Address,
)
    requires
        s.paused,
    ensures
        spec_set_fee_config(s, signers, config) == Err::<crate::events::Step<GovernanceState>, GovernanceError>(GovernanceError::Paused),
        spec_upsert_anchor(s, signers, asset, anchor) == Err::<crate::events::Step<GovernanceState>, GovernanceError>(GovernanceError::Paused),
        spec_remove_anchor(s, signers, asset) == Err::<crate::events::Step<GovernanceState>, GovernanceError>(GovernanceError::Paused),
        spec_migrate(s, signers) == Err::<crate::events::Step<GovernanceState>, GovernanceError>(GovernanceError::Paused),
{
}

/// The pause flag has no say in the administrative operations: upgrade,
/// admin transfer, threshold change, system parameters and the recovery
/// flow succeed or fail alike whether the contract is paused or not.
pub proof fn lemma_pause_leaves_admin_operations_available(
    s: GovernanceState,
    signers: Seq<Address>,
    new_admins: Seq<Address>,
    new_threshold: u32,
    key: ParamKey,
    value: i128,
    wasm: [u8; 32],
    interface_supported: bool,
    new_admin: Address,
    now: u64,
)
    ensures
        ({
            let p = GovernanceState { paused: !s.paused, ..s };
            &&& spec_transfer_admin(p, signers, new_admins, new_threshold) is Ok == spec_transfer_admin(s, signers, new_admins, new_threshold) is Ok
            &&& spec_change_threshold(p, signers, new_threshold) is Ok == spec_change_threshold(s, signers, new_threshold) is Ok
            &&& spec_update_system_param(p, signers, key, value) is Ok == spec_update_system_param(s, signers, key, value) is Ok
            &&& spec_upgrade(p, signers, wasm, interface_supported) is Ok == spec_upgrade(s, signers, wasm, interface_supported) is Ok
            &&& spec_initiate_recovery(p, new_admin, now) is Ok == spec_initiate_recovery(s, new_admin, now) is Ok
            &&& spec_cancel_recovery(p, signers) is Ok == spec_cancel_recovery(s, signers) is Ok
            &&& spec_execute_recovery(p, now) is Ok == spec_execute_recovery(s, now) is Ok
        }),
{
}

/// What `set_fee_config` writes is what `get_fee_config` reads next.
pub proof fn lemma_fee_config_read_after_write(s: GovernanceState, signers: Seq<Address>, config: FeeConfig)
    requires
        spec_set_fee_config(s, signers, config) is Ok,
    ensures
        spec_set_fee_config(s, signers, config)->Ok_0.state.fee_config == Some(config),
{
}

/// An anchor upserted for `asset` is the one `get_anchor` reads next, and
/// the anchors of other assets are left alone; removing it leaves `asset`
/// without an anchor.
pub proof fn lemma_anchor_read_after_write(s: GovernanceState, signers: Seq<Address>, asset: Address, anchor: Address, other: Address)
    requires
        spec_upsert_anchor(s, signers, asset, anchor) is Ok,
        other != asset,
    ensures
        ({
            let t = spec_upsert_anchor(s, signers, asset, anchor)->Ok_0.state;
            &&& t.anchors.contains_key(asset)
            &&& t.anchors[asset] == anchor
            &&& t.anchors.contains_key(other) == s.anchors.contains_key(other)
            &&& t.anchors.contains_key(other) ==> t.anchors[other] == s.anchors[other]
            &&& spec_remove_anchor(t, signers, asset) is Ok
            &&& !spec_remove_anchor(t, signers, asset)->Ok_0.state.anchors.contains_key(asset)
        }),
{
}

/// A system parameter written under `key` is the value read next under
/// `key`, overwriting any earlier value; other keys are untouched.
pub proof fn lemma_system_param_read_after_write(s: GovernanceState, signers: Seq<Address>, key: ParamKey, value: i128, other: ParamKey)
    requires
        spec_update_system_param(s, signers, key, value) is Ok,
        other != key,
    ensures
        ({
            let t = spec_update_system_param(s, signers, key, value)->Ok_0.state;
            &&& t.system_params.contains_key(key)
            &&& t.system_params[key] == value
            &&& t.system_params.contains_key(other) == s.system_params.contains_key(other)
            &&& t.system_params.contains_key(other) ==> t.system_params[other] == s.system_params[other]
        }),
{
}

/// Every writer of the admin set leaves a valid admin set and threshold:
/// `init` and `transfer_admin` check what they store, `change_threshold`
/// keeps the threshold within the stored set, and recovery installs its
/// target as the single admin with threshold one.
pub proof fn lemma_admin_writers_keep_admin_set_valid(
    s: GovernanceState,
    deployer: Address,
    signers: Seq<Address>,
    admins: Seq<Address>,
    threshold: u32,
    recovery: Address,
    now: u64,
)
    ensures
        spec_init(s, deployer, admins, threshold, recovery) is Ok
            ==> gov_admin_state_valid(spec_init(s, deployer, admins, threshold, recovery)->Ok_0.state),
        spec_transfer_admin(s, signers, admins, threshold) is Ok
            ==> gov_admin_state_valid(spec_transfer_admin(s, signers, admins, threshold)->Ok_0.state),
        gov_admin_state_valid(s) && spec_change_threshold(s, signers, threshold) is Ok
            ==> gov_admin_state_valid(spec_change_threshold(s, signers, threshold)->Ok_0.state),
        spec_execute_recovery(s, now) is Ok && !is_zero_address(s.pending_recovery->Some_0.new_admin)
            ==> gov_admin_state_valid(spec_execute_recovery(s, now)->Ok_0.state),
{
    if spec_execute_recovery(s, now) is Ok && !is_zero_address(s.pending_recovery->Some_0.new_admin) {
        let a = seq![s.pending_recovery->Some_0.new_admin];
        assert(crate::multisig::admin_set_sound(a));
    }
}

/// A recovery initiated at `now` can be executed from
/// `now + RECOVERY_DELAY_SECONDS` on, and installs its target as the single
/// admin with threshold one; before then it is refused with
/// `RecoveryDelayActive`.
pub proof fn lemma_recovery_after_delay(s: GovernanceState, new_admin: Address, now: u64, later: u64)
    requires
        spec_initiate_recovery(s, new_admin, now) is Ok,
        now + RECOVERY_DELAY_SECONDS <= u64::MAX,
    ensures
        ({
            let t = spec_initiate_recovery(s, new_admin, now)->Ok_0.state;
            &&& later < now + RECOVERY_DELAY_SECONDS ==> spec_execute_recovery(t, later) == Err::<crate::events::Step<GovernanceState>, GovernanceError>(GovernanceError::RecoveryDelayActive)
            &&& later >= now + RECOVERY_DELAY_SECONDS ==> {
                &&& spec_execute_recovery(t, later) is Ok
                &&& spec_execute_recovery(t, later)->Ok_0.state.admins == Some(seq![new_admin])
                &&& spec_execute_recovery(t, later)->Ok_0.state.threshold == Some(1u32)
                &&& spec_execute_recovery(t, later)->Ok_0.state.pending_recovery is None
            }
        }),
{
}

/// Running `migrate` again right after it succeeded succeeds and changes
/// nothing more.
pub proof fn lemma_migrate_idempotent(s: GovernanceState, signers: Seq<Address>)
    requires
        spec_migrate(s, signers) is Ok,
    ensures
        spec_migrate(spec_migrate(s, signers)->Ok_0.state, signers) is Ok,
        spec_migrate(spec_migrate(s, signers)->Ok_0.state, signers)->Ok_0.state == spec_migrate(s, signers)->Ok_0.state,
{
}

/// An accepted upgrade changes no storage entry: it only installs the new
/// Wasm.
pub proof fn lemma_upgrade_keeps_storage(s: GovernanceState, signers: Seq<Address>, wasm: [u8; 32], interface_supported: bool)
    requires
        spec_upgrade(s, signers, wasm, interface_supported) is Ok,
    ensures
        spec_upgrade(s, signers, wasm, interface_supported)->Ok_0.state == s,
        spec_upgrade(s, signers, wasm, interface_supported)->Ok_0.effects.wasm_update == Some(wasm),
{
}

/// `transfer_admin` refuses with `SameAdmin` exactly when the target admin
/// set and threshold are both identical to the stored ones. For signers the
/// stored threshold accepts and a valid target (non-empty, no zero address,
/// no address twice, `1 <= threshold <= len`) that differs from the stored
/// set or threshold in any way, the transfer succeeds and stores exactly
/// the target, announcing the old and new primary admins.
pub proof fn lemma_transfer_admin_refuses_only_identical_target(
    s: GovernanceState,
    signers: Seq<Address>,
    new_admins: Seq<Address>,
    new_threshold: u32,
)
    requires
        gov_threshold_gate(s, signers) is Ok,
        new_admins.len() > 0,
        1 <= new_threshold <= new_admins.len(),
        crate::multisig::admin_set_sound(new_admins),
    ensures
        (spec_transfer_admin(s, signers, new_admins, new_threshold)
            == Err::<crate::events::Step<GovernanceState>, GovernanceError>(GovernanceError::SameAdmin))
            <==> (s.admins == Some(new_admins) && s.threshold == Some(new_threshold)),
        !(s.admins == Some(new_admins) && s.threshold == Some(new_threshold)) ==> {
            let r = spec_transfer_admin(s, signers, new_admins, new_threshold);
            &&& r is Ok
            &&& r->Ok_0.state.admins == Some(new_admins)
            &&& r->Ok_0.state.threshold == Some(new_threshold)
            &&& r->Ok_0.effects.events == seq![crate::events::Event::AdminTransferred(crate::types::AdminTransferred {
                old_admin: s.admins->Some_0[0],
                new_admin: new_admins[0],
            })]
        },
{
}

} // verus!
