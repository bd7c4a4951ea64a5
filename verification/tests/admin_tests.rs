use bettapay::address::Address;
use bettapay::constants::{BPS_DENOMINATOR, MAX_FEE_BPS, MIN_FEE_BPS, RECOVERY_DELAY_SECONDS};
use bettapay::errors::SettlementError;
use bettapay::events::{Event, ADMIN_TRANSFERRED_EVENT, PAUSED_EVENT, UNPAUSED_EVENT};
use bettapay::settlement::{
    bootstrap_default_rule, SettlementContract, DEFAULT_TIMELOCK_DELAY_SECONDS, MAX_SETTLEMENT_DELAY_LEDGER,
};
use bettapay::types::{AdminTransferred, Bps, GovFeeLookup, Operation, PendingRecovery, SettlementRule};

fn addr(n: u32) -> Address {
    let mut k = [b'A'; 56];
    k[0] = b'G';
    k[1] = b'B' + (n % 20) as u8;
    k[2] = b'B' + ((n / 20) % 20) as u8;
    k[3] = b'B' + ((n / 400) % 20) as u8;
    Address::new(k)
}

fn xdr_of(op: &Operation) -> Vec<u8> {
    format!("{:?}", op).into_bytes()
}

/// An initialised settlement contract with a single admin (threshold one),
/// the admin set, and an unregistered merchant.
fn setup() -> (SettlementContract, Vec<Address>, Address) {
    let mut c = SettlementContract::new();
    let admins = vec![addr(1)];
    c.init(addr(90), &admins, 1, addr(91), addr(92)).unwrap();
    (c, admins, addr(2))
}

#[test]
fn admin_tests_emits_event_on_initialization() {
    let mut c = SettlementContract::new();
    let admin = addr(1);
    let governance = addr(91);
    let eff = c.init(addr(90), &vec![admin], 1, governance, addr(92)).unwrap();
    assert_eq!(c.get_admin(), Ok(vec![admin]));
    assert_eq!(c.get_governance(), Ok(governance));
    assert_eq!(eff.auth, vec![addr(90), admin]);
}

#[test]
fn transfer_admin_updates_admin_address() {
    let (mut c, admins, _) = setup();
    let new_admin = addr(10);
    assert_eq!(c.get_admin(), Ok(admins.clone()));
    c.transfer_admin(&admins, &vec![new_admin], 1).unwrap();
    assert_eq!(c.get_admin(), Ok(vec![new_admin]));
}

#[test]
fn every_admin_writer_preserves_the_vector_shape() {
    let env = soroban_sdk::Env::default();

    // Direct transfer.
    let (mut c, admins, _) = setup();
    let direct_admin = addr(10);
    c.transfer_admin(&admins, &vec![direct_admin], 1).unwrap();
    assert_eq!(c.get_admin(), Ok(vec![direct_admin]));

    // Recovery transfer.
    let (mut c, _admins, _) = setup();
    let recovery_admin = addr(11);
    c.initiate_recovery(recovery_admin, 0).unwrap();
    c.execute_recovery(RECOVERY_DELAY_SECONDS).unwrap();
    assert_eq!(c.get_admin(), Ok(vec![recovery_admin]));

    // Timelocked transfer.
    let (mut c, admins, _) = setup();
    let scheduled_admin = addr(12);
    let operation = Operation::TransferAdmin(vec![scheduled_admin], 1);
    let xdr = xdr_of(&operation);
    c.schedule(&env, &admins, &xdr, DEFAULT_TIMELOCK_DELAY_SECONDS, 0).unwrap();
    c.execute(&env, admins[0], &operation, &xdr, DEFAULT_TIMELOCK_DELAY_SECONDS, &GovFeeLookup::NotSet).unwrap();
    assert_eq!(c.get_admin(), Ok(vec![scheduled_admin]));
}

#[test]
fn failed_recovery_keeps_pending_target() {
    let (mut c, _admins, _) = setup();
    let zero_admin = Address::zero();
    c.pending_recovery = Some(PendingRecovery { new_admin: zero_admin, execute_after: 0 });

    assert_eq!(c.execute_recovery(0).unwrap_err(), SettlementError::ZeroAddress);
    assert_eq!(c.pending_recovery.unwrap().new_admin, zero_admin);
}

#[test]
fn emits_event_on_admin_transfer() {
    let (mut c, admins, _) = setup();
    let old_admin = admins[0];
    let new_admin = addr(10);

    let eff = c.transfer_admin(&admins, &vec![new_admin], 1).unwrap();
    assert_eq!(eff.events.len(), 1, "exactly one event should be emitted by transfer_admin");
    let event = eff.events[0];
    assert_eq!(event.topic(), ADMIN_TRANSFERRED_EVENT);
    assert_eq!(event, Event::AdminTransferred(AdminTransferred { old_admin, new_admin }));
}

#[test]
fn pause_flag_changes_state() {
    let (mut c, admins, _) = setup();
    assert!(!c.is_paused());
    c.pause(&admins).unwrap();
    assert!(c.is_paused());
    c.unpause(&admins).unwrap();
    assert!(!c.is_paused());
}

#[test]
fn pause_unpause_and_admin_transfer_use_canonical_topics() {
    let (mut c, admins, _) = setup();

    let eff = c.pause(&admins).unwrap();
    assert_eq!(eff.events.last().unwrap().topic(), PAUSED_EVENT);

    let eff = c.unpause(&admins).unwrap();
    assert_eq!(eff.events.last().unwrap().topic(), UNPAUSED_EVENT);

    let eff = c.transfer_admin(&admins, &vec![addr(10)], 1).unwrap();
    assert_eq!(eff.events.last().unwrap().topic(), ADMIN_TRANSFERRED_EVENT);
}

#[test]
fn set_settlement_rule_accepts_fee_at_max_fee_bps_ceiling() {
    let (mut c, admins, merchant) = setup();
    c.register_merchant(&admins, merchant).unwrap();

    let rule = SettlementRule {
        platform_fee_bps: MAX_FEE_BPS,
        network_fee_bps: MIN_FEE_BPS,
        settlement_delay_ledger: 7,
        auto_settle: true,
    };
    c.set_settlement_rule(&admins, merchant, rule, &GovFeeLookup::NotSet).unwrap();
    assert_eq!(c.get_settlement_rule(&merchant), Some(rule));
}

#[test]
fn bootstrap_default_rule_satisfies_setter_fee_validation() {
    let rule = bootstrap_default_rule();

    assert!(rule.platform_fee_bps >= MIN_FEE_BPS);
    assert_eq!(rule.network_fee_bps, MIN_FEE_BPS);
    assert!(rule.platform_fee_bps <= MAX_FEE_BPS);
    assert!(rule.network_fee_bps <= MAX_FEE_BPS);
    assert!(rule.platform_fee_bps <= BPS_DENOMINATOR);
    assert!(rule.network_fee_bps <= BPS_DENOMINATOR);
    assert!(rule.platform_fee_bps + rule.network_fee_bps <= BPS_DENOMINATOR);
    assert!(rule.settlement_delay_ledger <= MAX_SETTLEMENT_DELAY_LEDGER);
}

#[test]
fn admin_tests_executes_contract_wasm_upgrade_successfully() {
    let (mut c, admins, _) = setup();
    let bad_hash = [7u8; 32];

    // A Wasm without `supports_interface` must be rejected.
    let result = c.upgrade(&admins, bad_hash, false);
    assert_eq!(result.unwrap_err(), SettlementError::InvalidWasmInterface);

    // The contract remains operational after the rejected upgrade.
    assert_eq!(c.get_admin(), Ok(admins));
}

#[test]
fn recovery_executes_after_delay() {
    let mut c = SettlementContract::new();
    let admin = addr(1);
    let recovery_address = addr(92);
    let new_admin = addr(10);
    c.init(addr(90), &vec![admin], 1, addr(91), recovery_address).unwrap();
    assert_eq!(c.get_recovery_address(), Ok(recovery_address));

    c.initiate_recovery(new_admin, 1_000).unwrap();
    c.execute_recovery(1_000 + RECOVERY_DELAY_SECONDS).unwrap();

    assert_eq!(c.get_admin(), Ok(vec![new_admin]));
}

#[test]
fn update_governance_stores_validated_address() {
    let (mut c, admins, _) = setup();
    let new_governance = addr(93);

    c.update_governance(&admins, new_governance).unwrap();

    assert_eq!(c.get_governance(), Ok(new_governance));
}

#[test]
fn bps_newtype_conversions_and_arithmetic_helpers_work() {
    let bps = Bps::new(250);
    assert_eq!(bps.value(), 250);
    assert_eq!(bps.as_i128(), 250i128);

    let fee_amount = bps.calculate_fee_ceil(10_000);
    assert_eq!(fee_amount, 250);

    let rule = SettlementRule {
        platform_fee_bps: 150,
        network_fee_bps: 50,
        settlement_delay_ledger: 0,
        auto_settle: false,
    };
    assert_eq!(rule.platform_bps(), Bps::new(150));
    assert_eq!(rule.network_bps(), Bps::new(50));

    let from_u32: Bps = 100u32.into();
    let to_u32: u32 = from_u32.into();
    assert_eq!(to_u32, 100);
}

#[test]
fn fee_ceil_rounds_partial_units_up() {
    assert_eq!(Bps::new(250).calculate_fee_ceil(101), 3);
    assert_eq!(Bps::new(5).calculate_fee_ceil(100), 1);
    assert_eq!(Bps::new(0).calculate_fee_ceil(1_000_000), 0);
}

#[test]
fn pause_then_unpause_restores_the_settlement_state() {
    let (mut c, admins, _) = setup();
    let before_admin = c.get_admin();
    c.pause(&admins).unwrap();
    assert_eq!(c.pause(&admins).unwrap_err(), SettlementError::AlreadyPaused);
    c.unpause(&admins).unwrap();
    assert_eq!(c.unpause(&admins).unwrap_err(), SettlementError::AlreadyUnpaused);
    assert!(!c.is_paused());
    assert_eq!(c.get_admin(), before_admin);
}

#[test]
fn admin_errors_for_each_refusal() {
    let (mut c, admins, _) = setup();
    let outsider = vec![addr(50)];
    assert_eq!(c.pause(&outsider).unwrap_err(), SettlementError::Unauthorized);
    assert_eq!(
        c.init(addr(90), &admins, 1, addr(91), addr(92)).unwrap_err(),
        SettlementError::AlreadyInitialized
    );
    assert_eq!(
        c.transfer_admin(&admins, &vec![Address::zero()], 1).unwrap_err(),
        SettlementError::ZeroAddress
    );
    assert_eq!(
        c.transfer_admin(&admins, &vec![addr(10), addr(10)], 1).unwrap_err(),
        SettlementError::InvalidAdmin
    );
    assert_eq!(c.change_threshold(&admins, 0).unwrap_err(), SettlementError::InvalidThreshold);
    assert_eq!(c.change_threshold(&admins, 2).unwrap_err(), SettlementError::InvalidThreshold);
    assert_eq!(c.update_governance(&admins, Address::zero()).unwrap_err(), SettlementError::InvalidGovernance);
    assert_eq!(
        c.update_recovery_address(&admins, Address::zero()).unwrap_err(),
        SettlementError::InvalidRecoveryAddress
    );
    assert_eq!(c.cancel_recovery(&admins).unwrap_err(), SettlementError::RecoveryNotPending);
    assert_eq!(c.execute_recovery(0).unwrap_err(), SettlementError::RecoveryNotPending);
    c.initiate_recovery(addr(11), 0).unwrap();
    assert_eq!(c.execute_recovery(RECOVERY_DELAY_SECONDS - 1).unwrap_err(), SettlementError::RecoveryDelayActive);
    assert_eq!(c.initiate_recovery(Address::zero(), 0).unwrap_err(), SettlementError::InvalidAdmin);

    let fresh = SettlementContract::new();
    assert_eq!(fresh.get_admin().unwrap_err(), SettlementError::NotInitialized);
}
