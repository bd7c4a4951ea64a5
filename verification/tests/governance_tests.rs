use bettapay::address::{Address, ParamKey};
use bettapay::constants::RECOVERY_DELAY_SECONDS;
use bettapay::errors::GovernanceError;
use bettapay::events::{Event, FEE_CONFIG_UPDATED_EVENT, INITIALIZED_EVENT, MIGRATED_EVENT, PAUSED_EVENT, UNPAUSED_EVENT};
use bettapay::governance::{GovernanceContract, CURRENT_SCHEMA_VERSION, SUPPORTED_INTERFACE_VERSION};
use bettapay::types::FeeConfig;

fn addr(n: u32) -> Address {
    let mut k = [b'A'; 56];
    k[0] = b'G';
    k[1] = b'B' + (n % 20) as u8;
    k[2] = b'B' + ((n / 20) % 20) as u8;
    k[3] = b'B' + ((n / 400) % 20) as u8;
    Address::new(k)
}

fn key(name: &str) -> ParamKey {
    let mut bytes = [0u8; 32];
    bytes[..name.len()].copy_from_slice(name.as_bytes());
    ParamKey { bytes }
}

/// A governance contract with two admins and threshold two, the admin set
/// and the recovery address.
fn setup() -> (GovernanceContract, Vec<Address>, Address) {
    let mut c = GovernanceContract::new();
    let admins = vec![addr(1), addr(2)];
    let recovery = addr(92);
    c.init(addr(90), &admins, 2, recovery).unwrap();
    (c, admins, recovery)
}

/// A governance contract with a single admin and threshold one.
fn setup_single() -> (GovernanceContract, Vec<Address>) {
    let mut c = GovernanceContract::new();
    let admins = vec![addr(1)];
    c.init(addr(90), &admins, 1, addr(92)).unwrap();
    (c, admins)
}

fn valid_fee_config() -> FeeConfig {
    FeeConfig { platform_fee_bps: 120, network_fee_bps: 35 }
}

#[test]
fn lib_supports_interface_returns_true_for_current_version() {
    assert!(
        GovernanceContract::supports_interface(SUPPORTED_INTERFACE_VERSION),
        "supports_interface must return true for the current interface version ({})",
        SUPPORTED_INTERFACE_VERSION,
    );
}

#[test]
fn lib_supports_interface_returns_false_for_version_zero() {
    assert!(!GovernanceContract::supports_interface(0u32), "supports_interface must return false for version 0");
}

#[test]
fn lib_supports_interface_returns_false_for_unknown_future_version() {
    assert!(!GovernanceContract::supports_interface(SUPPORTED_INTERFACE_VERSION + 1));
}

#[test]
fn lib_supports_interface_returns_false_for_large_sentinel() {
    assert!(!GovernanceContract::supports_interface(u32::MAX));
}

#[test]
fn lib_executes_contract_wasm_upgrade_successfully() {
    let (mut c, admins, _recovery) = setup();
    let result = c.upgrade(&admins, [9u8; 32], false);
    assert_eq!(result.unwrap_err(), GovernanceError::InvalidWasmInterface);
    assert_eq!(c.get_admin(), Ok(admins));
}

#[test]
fn governance_upgrade_with_conforming_wasm_installs_it() {
    let (mut c, admins, _recovery) = setup();
    let eff = c.upgrade(&admins, [9u8; 32], true).unwrap();
    assert_eq!(eff.wasm_update, Some([9u8; 32]));
    assert_eq!(eff.events, vec![Event::ContractUpgraded { wasm_hash: [9u8; 32], admin: admins[0] }]);
}

#[test]
fn updates_system_parameters() {
    let (mut c, admins, _recovery) = setup();
    let k = key("max_settle");
    let eff = c.update_system_param(&admins, k, 1440).unwrap();
    assert_eq!(c.get_system_param(&k), Some(1440));
    assert!(!eff.events.is_empty());
}

#[test]
fn system_parameter_key_uniqueness_overwrites_value() {
    let (mut c, admins, _recovery) = setup();
    let k = key("test_param");

    c.update_system_param(&admins, k, 100).unwrap();
    assert_eq!(c.get_system_param(&k), Some(100));

    let eff = c.update_system_param(&admins, k, 200).unwrap();
    assert_eq!(c.get_system_param(&k), Some(200));
    assert_eq!(eff.events, vec![Event::SysParamUpdated { key: k, admin: admins[0], previous: Some(100), value: 200 }]);

    c.update_system_param(&admins, k, 300).unwrap();
    assert_eq!(c.get_system_param(&k), Some(300));
}

#[test]
fn sets_fee_config() {
    let (mut c, admins, _recovery) = setup();
    let cfg = valid_fee_config();
    let eff = c.set_fee_config(&admins, cfg).unwrap();
    let got = c.get_fee_config().expect("expected config");
    assert_eq!(got.platform_fee_bps, 120);
    assert_eq!(got.network_fee_bps, 35);
    assert!(!eff.events.is_empty());
}

#[test]
fn fee_config_event_emitted_with_correct_fields() {
    let (mut c, admins, _recovery) = setup();
    let cfg = valid_fee_config();
    let eff = c.set_fee_config(&admins, cfg).unwrap();
    let event = *eff.events.last().unwrap();
    assert_eq!(event.topic(), FEE_CONFIG_UPDATED_EVENT);
    match event {
        Event::FeeConfigUpdated { admin, config } => {
            assert_eq!(admin, admins[0]);
            assert_eq!(config.platform_fee_bps, 120);
            assert_eq!(config.network_fee_bps, 35);
        },
        other => panic!("unexpected event {:?}", other),
    }
}

#[test]
fn upserts_and_removes_anchor() {
    let (mut c, admins, _recovery) = setup();
    let asset = addr(20);
    let anchor = addr(21);

    let eff = c.upsert_anchor(&admins, asset, anchor).unwrap();
    assert_eq!(c.get_anchor(&asset), Some(anchor));
    assert!(!eff.events.is_empty());

    let eff = c.remove_anchor(&admins, asset).unwrap();
    assert_eq!(c.get_anchor(&asset), None);
    assert!(!eff.events.is_empty());
}

#[test]
fn get_anchor_extends_anchor_ttl() {
    let (mut c, admins, _recovery) = setup();
    let asset = addr(20);
    let anchor = addr(21);

    c.upsert_anchor(&admins, asset, anchor).unwrap();
    assert_eq!(c.get_anchor(&asset), Some(anchor));
    assert_eq!(c.get_anchor(&asset), Some(anchor));
}

#[test]
fn anchor_upsert_overwrites_existing_anchor() {
    let (mut c, admins, _recovery) = setup();
    let asset = addr(20);
    let anchor_one = addr(21);
    let anchor_two = addr(22);

    c.upsert_anchor(&admins, asset, anchor_one).unwrap();
    assert_eq!(c.get_anchor(&asset), Some(anchor_one));

    let eff = c.upsert_anchor(&admins, asset, anchor_two).unwrap();
    assert_eq!(c.get_anchor(&asset), Some(anchor_two));
    assert_eq!(eff.events, vec![Event::AnchorUpserted { asset, previous: Some(anchor_one), anchor: anchor_two }]);
}

#[test]
fn accepts_fee_bps_at_boundaries() {
    let (mut c, admins, _recovery) = setup();
    c.set_fee_config(&admins, FeeConfig { platform_fee_bps: 5, network_fee_bps: 5 }).unwrap();
    c.set_fee_config(&admins, FeeConfig { platform_fee_bps: 5_000, network_fee_bps: 5_000 }).unwrap();
}

#[test]
fn checks_if_initialized() {
    let mut c = GovernanceContract::new();
    assert!(!c.is_initialized());
    c.init(addr(90), &vec![addr(1)], 1, addr(92)).unwrap();
    assert!(c.is_initialized());
}

#[test]
fn lib_emits_event_on_initialization() {
    let mut c = GovernanceContract::new();
    let admin = addr(1);
    let admins = vec![admin];
    let eff = c.init(addr(90), &admins, 1, addr(92)).unwrap();
    assert!(c.is_initialized());
    assert_eq!(c.get_admin(), Ok(admins));
    assert_eq!(c.get_threshold(), Ok(1));

    assert_eq!(eff.events.len(), 1, "exactly one event emitted on init");
    assert_eq!(eff.events[0].topic(), INITIALIZED_EVENT);
    assert_eq!(eff.events[0], Event::Initialized { admin });
}

#[test]
fn accepts_valid_symbol_key() {
    let (mut c, admins, _recovery) = setup();
    let k = key("valid_key_32_chars_or_less");
    c.update_system_param(&admins, k, 123).unwrap();
    assert_eq!(c.get_system_param(&k), Some(123));
}

#[test]
fn changes_threshold_with_threshold_plus_one_signatures() {
    let mut c = GovernanceContract::new();
    let (a1, a2, a3) = (addr(1), addr(2), addr(3));
    c.init(addr(90), &vec![a1, a2, a3], 1, addr(92)).unwrap();
    assert_eq!(c.get_threshold(), Ok(1));

    // Threshold one, so changing it takes two signatures.
    assert_eq!(c.change_threshold(&vec![a1], 2).unwrap_err(), GovernanceError::Unauthorized);
    let eff = c.change_threshold(&vec![a1, a2], 2).unwrap();
    assert_eq!(c.get_threshold(), Ok(2));
    assert_eq!(eff.events, vec![Event::ThresholdChanged { old_threshold: 1, new_threshold: 2 }]);
}

#[test]
fn transfers_admin_successfully() {
    let (mut c, admins, _recovery) = setup();
    let new_admins = vec![addr(10)];
    c.transfer_admin(&admins, &new_admins, 1).unwrap();
    assert_eq!(c.get_admin(), Ok(new_admins));
    assert_eq!(c.get_threshold(), Ok(1));
}

#[test]
fn pause_then_unpause_round_trip_succeeds() {
    let (mut c, admins, _recovery) = setup();
    assert!(!c.is_paused());

    let eff = c.pause(&admins).unwrap();
    assert!(c.is_paused());
    assert!(!eff.events.is_empty());

    let eff = c.unpause(&admins).unwrap();
    assert!(!c.is_paused());
    assert!(!eff.events.is_empty());
}

#[test]
fn pause_and_unpause_emit_canonical_shared_topics() {
    let (mut c, admins, _recovery) = setup();
    let eff = c.pause(&admins).unwrap();
    assert_eq!(eff.events.last().unwrap().topic(), PAUSED_EVENT);
    let eff = c.unpause(&admins).unwrap();
    assert_eq!(eff.events.last().unwrap().topic(), UNPAUSED_EVENT);
}

#[test]
fn init_writes_schema_version_marker_and_migrate_is_idempotent() {
    let (mut c, admins, _recovery) = setup();
    assert_eq!(c.schema_version, Some(CURRENT_SCHEMA_VERSION));

    c.migrate(&admins).unwrap();
    let eff = c.migrate(&admins).unwrap();
    assert_eq!(c.schema_version, Some(CURRENT_SCHEMA_VERSION));
    assert_eq!(eff.events.last().unwrap().topic(), MIGRATED_EVENT);
}

#[test]
fn execute_recovery_repairs_an_empty_corrupt_admin_set() {
    let (mut c, _admins, _recovery) = setup();
    let recovered = addr(30);
    c.initiate_recovery(recovered, 5_000).unwrap();

    // Corrupt the admin entry: no primary admin to name in the event.
    c.admins = Some(Vec::new());

    let eff = c.execute_recovery(5_000 + RECOVERY_DELAY_SECONDS + 1).unwrap();
    assert_eq!(c.get_admin(), Ok(vec![recovered]));
    assert_eq!(c.get_threshold(), Ok(1));
    match eff.events[0] {
        Event::RecoveryExecuted(payload) => {
            assert_eq!(payload.old_admin, Address::zero());
            assert_eq!(payload.new_admin, recovered);
        },
        other => panic!("unexpected event {:?}", other),
    }
}

#[test]
fn pause_blocks_fee_and_anchor_writes() {
    let (mut c, admins, _recovery) = setup();
    c.pause(&admins).unwrap();
    assert!(c.is_paused());

    let asset = addr(20);
    let anchor = addr(21);
    assert_eq!(c.set_fee_config(&admins, valid_fee_config()).unwrap_err(), GovernanceError::Paused);
    assert_eq!(c.upsert_anchor(&admins, asset, anchor).unwrap_err(), GovernanceError::Paused);
    assert_eq!(c.remove_anchor(&admins, asset).unwrap_err(), GovernanceError::Paused);
    assert_eq!(c.migrate(&admins).unwrap_err(), GovernanceError::Paused);
}

#[test]
fn pause_allows_admin_transfer_threshold_and_recovery() {
    let mut c = GovernanceContract::new();
    let admins = vec![addr(1), addr(2)];
    c.init(addr(90), &admins, 1, addr(92)).unwrap();

    c.pause(&admins).unwrap();
    assert!(c.is_paused());

    c.change_threshold(&admins, 2).unwrap();
    assert_eq!(c.get_threshold(), Ok(2));

    let new_a = addr(10);
    c.transfer_admin(&admins, &vec![new_a], 1).unwrap();
    assert_eq!(c.get_admin(), Ok(vec![new_a]));

    let recovered = addr(30);
    c.initiate_recovery(recovered, 100).unwrap();
    c.execute_recovery(100 + RECOVERY_DELAY_SECONDS + 1).unwrap();
    assert_eq!(c.get_admin(), Ok(vec![recovered]));
    assert_eq!(c.get_threshold(), Ok(1));
}

#[test]
fn governance_refusals_name_their_error() {
    let (mut c, admins, recovery) = setup();
    let single = vec![admins[0]];
    assert_eq!(c.init(addr(90), &admins, 2, recovery).unwrap_err(), GovernanceError::AlreadyInitialized);
    assert_eq!(c.update_system_param(&single, key("k"), 100).unwrap_err(), GovernanceError::Unauthorized);
    assert_eq!(c.update_system_param(&admins, key("k"), -1).unwrap_err(), GovernanceError::InvalidParamValue);
    assert_eq!(
        c.set_fee_config(&admins, FeeConfig { platform_fee_bps: 5_000, network_fee_bps: 5_001 }).unwrap_err(),
        GovernanceError::InvalidFeeBps
    );
    assert_eq!(
        c.set_fee_config(&admins, FeeConfig { platform_fee_bps: 100, network_fee_bps: 4 }).unwrap_err(),
        GovernanceError::InvalidFeeBps
    );
    assert_eq!(c.upsert_anchor(&admins, Address::zero(), addr(21)).unwrap_err(), GovernanceError::InvalidAdmin);
    assert_eq!(c.upsert_anchor(&admins, addr(20), addr(20)).unwrap_err(), GovernanceError::InvalidAdmin);
    assert_eq!(c.remove_anchor(&admins, addr(20)).unwrap_err(), GovernanceError::AnchorMissing);
    assert_eq!(c.transfer_admin(&admins, &admins, 2).unwrap_err(), GovernanceError::SameAdmin);
    assert_eq!(c.transfer_admin(&admins, &vec![], 1).unwrap_err(), GovernanceError::InvalidAdmin);
    assert_eq!(c.transfer_admin(&admins, &vec![], 0).unwrap_err(), GovernanceError::InvalidAdmin);
    assert_eq!(c.transfer_admin(&admins, &vec![Address::zero()], 1).unwrap_err(), GovernanceError::InvalidAdmin);
    assert_eq!(c.change_threshold(&admins, 3).unwrap_err(), GovernanceError::InvalidThreshold);
    assert_eq!(c.change_threshold(&admins, 0).unwrap_err(), GovernanceError::InvalidThreshold);
    assert_eq!(c.unpause(&admins).unwrap_err(), GovernanceError::AlreadyUnpaused);
    c.pause(&admins).unwrap();
    assert_eq!(c.pause(&admins).unwrap_err(), GovernanceError::AlreadyPaused);
    assert_eq!(c.cancel_recovery(&admins).unwrap_err(), GovernanceError::RecoveryNotPending);
    assert_eq!(c.execute_recovery(0).unwrap_err(), GovernanceError::RecoveryNotPending);
    assert_eq!(c.initiate_recovery(Address::zero(), 0).unwrap_err(), GovernanceError::InvalidAdmin);
    c.initiate_recovery(addr(30), 0).unwrap();
    assert_eq!(c.execute_recovery(RECOVERY_DELAY_SECONDS - 1).unwrap_err(), GovernanceError::RecoveryDelayActive);
    assert_eq!(
        c.update_recovery_address(&admins, Address::zero()).unwrap_err(),
        GovernanceError::InvalidRecoveryAddress
    );

    let mut fresh = GovernanceContract::new();
    assert_eq!(fresh.get_admin().unwrap_err(), GovernanceError::NotInitialized);
    assert_eq!(fresh.init(addr(90), &vec![addr(1)], 0, addr(92)).unwrap_err(), GovernanceError::InvalidThreshold);
    assert_eq!(
        fresh.init(addr(90), &vec![addr(1)], 1, Address::zero()).unwrap_err(),
        GovernanceError::InvalidRecoveryAddress
    );
}

// The calls below return the addresses whose authorization the host must
// require; an empty list would let an unauthenticated caller through.

#[test]
fn fee_anchor_and_system_param_writes_require_real_authorization() {
    let (mut c, admins) = setup_single();
    let eff = c.set_fee_config(&admins, valid_fee_config()).unwrap();
    assert_eq!(eff.auth, admins);
    let eff = c.upsert_anchor(&admins, addr(20), addr(21)).unwrap();
    assert_eq!(eff.auth, admins);
    let eff = c.update_system_param(&admins, key("real_auth"), 1).unwrap();
    assert_eq!(eff.auth, admins);
}

#[test]
fn anchor_removal_requires_real_authorization() {
    let (mut c, admins) = setup_single();
    c.upsert_anchor(&admins, addr(20), addr(21)).unwrap();
    let eff = c.remove_anchor(&admins, addr(20)).unwrap();
    assert_eq!(eff.auth, admins);
}

#[test]
fn admin_transfer_and_threshold_change_require_real_authorization() {
    let (mut c, admins) = setup_single();
    let eff = c.transfer_admin(&admins, &vec![addr(10)], 1).unwrap();
    assert_eq!(eff.auth, admins);

    let mut c = GovernanceContract::new();
    let admins = vec![addr(1), addr(2), addr(3)];
    c.init(addr(90), &admins, 1, addr(92)).unwrap();
    let eff = c.change_threshold(&admins, 2).unwrap();
    assert_eq!(eff.auth, admins);
}

#[test]
fn pause_and_unpause_require_real_authorization() {
    let (mut c, admins) = setup_single();
    let eff = c.pause(&admins).unwrap();
    assert_eq!(eff.auth, admins);
    let eff = c.unpause(&admins).unwrap();
    assert_eq!(eff.auth, admins);
}

#[test]
fn recovery_initiation_and_cancellation_require_real_authorization() {
    let (mut c, admins) = setup_single();
    let eff = c.initiate_recovery(addr(30), 0).unwrap();
    assert_eq!(eff.auth, vec![addr(92)]);
    let eff = c.cancel_recovery(&admins).unwrap();
    assert_eq!(eff.auth, admins);
}

#[test]
fn initialization_and_upgrade_require_real_authorization() {
    let mut c = GovernanceContract::new();
    let admins = vec![addr(1)];
    let eff = c.init(addr(90), &admins, 1, addr(92)).unwrap();
    assert_eq!(eff.auth, vec![addr(90), addr(1)]);

    let eff = c.upgrade(&admins, [3u8; 32], true).unwrap();
    assert_eq!(eff.auth, admins);
}
