use bettapay::address::Address;
use bettapay::constants::RECOVERY_DELAY_SECONDS;
use bettapay::errors::SettlementError;
use bettapay::events::{
    Event, BOOTSTRAP_FALLBACK_EVENT, DEFAULT_RULE_UPDATED_EVENT, GOVERNANCE_UPDATED_EVENT, MERCHANT_REGISTERED_EVENT,
    MERCHANT_UNREGISTERED_EVENT, OP_CANCELLED_EVENT, OP_EXECUTED_EVENT, OP_SCHEDULED_EVENT, PAYMENT_STORED_EVENT,
    SETTLEMENT_RULE_CLEARED_EVENT, SETTLEMENT_RULE_UPDATED_EVENT, THRESHOLD_CHANGED_EVENT,
};
use bettapay::settlement::{SettlementContract, DEFAULT_TIMELOCK_DELAY_SECONDS, SUPPORTED_INTERFACE_VERSION};
use bettapay::types::{GovFeeLookup, Operation, SettlementRule};

fn addr(n: u32) -> Address {
    let mut k = [b'A'; 56];
    k[0] = b'G';
    k[1] = b'B' + (n % 20) as u8;
    k[2] = b'B' + ((n / 20) % 20) as u8;
    k[3] = b'B' + ((n / 400) % 20) as u8;
    Address::new(k)
}

fn xdr_of(op: &Operation) -> Vec<u8> {
    format!("{:?}", op).into_bytes()
}

const NOT_SET: GovFeeLookup = GovFeeLookup::NotSet;

fn setup() -> (SettlementContract, Vec<Address>, Address) {
    let mut c = SettlementContract::new();
    let admins = vec![addr(1)];
    c.init(addr(90), &admins, 1, addr(91), addr(92)).unwrap();
    (c, admins, addr(5))
}

fn setup_with_admins(admins: &Vec<Address>, threshold: u32) -> SettlementContract {
    let mut c = SettlementContract::new();
    c.init(addr(90), admins, threshold, addr(91), addr(92)).unwrap();
    c
}

fn recover_to(c: &mut SettlementContract, new_admin: Address) {
    c.initiate_recovery(new_admin, 0).unwrap();
    c.execute_recovery(RECOVERY_DELAY_SECONDS).unwrap();
}

fn last_topic(events: &Vec<Event>) -> &'static str {
    events.last().unwrap().topic()
}

fn rule_250_50() -> SettlementRule {
    SettlementRule { platform_fee_bps: 250, network_fee_bps: 50, settlement_delay_ledger: 0, auto_settle: false }
}

#[test]
fn settlement_rule_cleared_data_is_identical_across_both_paths() {
    let (mut c, admins, merchant) = setup();
    c.register_merchant(&admins, merchant).unwrap();
    let rule = rule_250_50();
    let default_rule = SettlementRule { platform_fee_bps: 150, network_fee_bps: 30, settlement_delay_ledger: 0, auto_settle: false };
    c.set_settlement_rule(&admins, merchant, rule, &NOT_SET).unwrap();
    c.set_default_rule(&admins, default_rule, &NOT_SET).unwrap();

    // Path 1: explicit clear.
    let eff_clear = c.clear_settlement_rule(&admins, merchant, &NOT_SET).unwrap();
    // Path 2: unregistering a merchant that still has a rule.
    c.set_settlement_rule(&admins, merchant, rule, &NOT_SET).unwrap();
    let eff_unregister = c.unregister_merchant(&admins, merchant, &NOT_SET).unwrap();

    let cleared = |events: &Vec<Event>| -> Vec<Event> {
        events.iter().copied().filter(|e| e.topic() == SETTLEMENT_RULE_CLEARED_EVENT).collect()
    };
    let a = cleared(&eff_clear.events);
    let b = cleared(&eff_unregister.events);
    assert_eq!(a.len() + b.len(), 2, "both paths must emit the same topic");
    assert_eq!(a, b, "both removal paths must publish the same payload");

    match a[0] {
        Event::SettlementRuleCleared { merchant: m, admin, removed, fallback } => {
            assert_eq!(m, merchant);
            assert_eq!(admin, admins[0]);
            assert_eq!(removed.platform_fee_bps, 250);
            assert_eq!(removed.network_fee_bps, 50);
            assert_eq!(fallback.platform_fee_bps, 150);
            assert_eq!(fallback.network_fee_bps, 30);
        },
        other => panic!("unexpected event {:?}", other),
    }
}

#[test]
fn threshold_changed_uses_canonical_topic() {
    let admins = vec![addr(1), addr(2)];
    let mut c = setup_with_admins(&admins, 1);
    let eff = c.change_threshold(&admins, 2).unwrap();
    assert_eq!(last_topic(&eff.events), THRESHOLD_CHANGED_EVENT);
}

#[test]
fn upgrade_uses_canonical_topic() {
    let (mut c, admins, _) = setup();
    let result = c.upgrade(&admins, [1u8; 32], false);
    assert_eq!(result.unwrap_err(), SettlementError::InvalidWasmInterface, "non-conforming wasm must be rejected");
    let eff = c.upgrade(&admins, [1u8; 32], true).unwrap();
    assert_eq!(eff.events, vec![Event::ContractUpgraded { wasm_hash: [1u8; 32], admin: admins[0] }]);
    assert_eq!(eff.wasm_update, Some([1u8; 32]));
}

#[test]
fn update_governance_uses_canonical_topic() {
    let (mut c, admins, _) = setup();
    let eff = c.update_governance(&admins, addr(93)).unwrap();
    assert_eq!(last_topic(&eff.events), GOVERNANCE_UPDATED_EVENT);
}

#[test]
fn merchant_lifecycle_uses_canonical_topics() {
    let (mut c, admins, merchant) = setup();
    let eff = c.register_merchant(&admins, merchant).unwrap();
    assert_eq!(last_topic(&eff.events), MERCHANT_REGISTERED_EVENT);

    let rule = rule_250_50();
    let eff = c.set_settlement_rule(&admins, merchant, rule, &NOT_SET).unwrap();
    assert_eq!(last_topic(&eff.events), SETTLEMENT_RULE_UPDATED_EVENT);

    let eff = c.clear_settlement_rule(&admins, merchant, &NOT_SET).unwrap();
    assert_eq!(last_topic(&eff.events), SETTLEMENT_RULE_CLEARED_EVENT);

    c.set_settlement_rule(&admins, merchant, rule, &NOT_SET).unwrap();
    let eff = c.unregister_merchant(&admins, merchant, &NOT_SET).unwrap();
    assert_eq!(last_topic(&eff.events), MERCHANT_UNREGISTERED_EVENT);
}

#[test]
fn default_rule_and_payment_use_canonical_topics() {
    let (mut c, admins, merchant) = setup();
    let eff = c.set_default_rule(&admins, rule_250_50(), &NOT_SET).unwrap();
    assert_eq!(last_topic(&eff.events), DEFAULT_RULE_UPDATED_EVENT);

    c.register_merchant(&admins, merchant).unwrap();
    let (_, eff) = c.store_payment_reference(merchant, [7; 32], 1_000, &NOT_SET, 1).unwrap();
    assert_eq!(last_topic(&eff.events), PAYMENT_STORED_EVENT);
}

#[test]
fn scheduled_operation_lifecycle_uses_canonical_topics() {
    let env = soroban_sdk::Env::default();
    let (mut c, admins, merchant) = setup();
    let operation = Operation::RegisterMerchant(merchant);
    let xdr = xdr_of(&operation);

    let eff = c.schedule(&env, &admins, &xdr, DEFAULT_TIMELOCK_DELAY_SECONDS, 0).unwrap();
    assert_eq!(last_topic(&eff.events), OP_SCHEDULED_EVENT);

    let eff = c.execute(&env, admins[0], &operation, &xdr, DEFAULT_TIMELOCK_DELAY_SECONDS, &NOT_SET).unwrap();
    assert_eq!(last_topic(&eff.events), OP_EXECUTED_EVENT);

    let other = xdr_of(&Operation::UnregisterMerchant(addr(60)));
    c.schedule(&env, &admins, &other, DEFAULT_TIMELOCK_DELAY_SECONDS, 0).unwrap();
    let eff = c.cancel(&env, &admins, &other).unwrap();
    assert_eq!(last_topic(&eff.events), OP_CANCELLED_EVENT);
}

#[test]
fn scheduled_operation_events_identify_the_executor() {
    let env = soroban_sdk::Env::default();
    let (mut c, admins, merchant) = setup();
    let executor = addr(70);
    let operation = Operation::RegisterMerchant(merchant);
    let xdr = xdr_of(&operation);

    c.schedule(&env, &admins, &xdr, DEFAULT_TIMELOCK_DELAY_SECONDS, 0).unwrap();
    let eff = c.execute(&env, executor, &operation, &xdr, DEFAULT_TIMELOCK_DELAY_SECONDS, &NOT_SET).unwrap();

    let actor = eff.events.iter().find_map(|e| match e {
        Event::MerchantRegistered { admin, .. } => Some(*admin),
        _ => None,
    });
    assert_eq!(actor, Some(executor));
}

#[test]
fn bootstrap_fallback_uses_canonical_topic() {
    let (mut c, admins, merchant) = setup();
    c.register_merchant(&admins, merchant).unwrap();
    let (_, events) = c.calculate_fee_split(&merchant, 1_000, &NOT_SET).unwrap();
    assert!(!events.is_empty());
    assert_eq!(last_topic(&events), BOOTSTRAP_FALLBACK_EVENT);
}

#[test]
fn clear_settlement_rule_emits_only_one_event() {
    let (mut c, admins, merchant) = setup();
    c.register_merchant(&admins, merchant).unwrap();
    c.set_settlement_rule(&admins, merchant, rule_250_50(), &NOT_SET).unwrap();

    let eff = c.clear_settlement_rule(&admins, merchant, &NOT_SET).unwrap();
    assert_eq!(eff.events.len(), 1);
    assert_eq!(last_topic(&eff.events), SETTLEMENT_RULE_CLEARED_EVENT);
}

#[test]
fn interface_tests_supports_interface_returns_true_for_current_version() {
    assert!(SettlementContract::supports_interface(SUPPORTED_INTERFACE_VERSION));
}

#[test]
fn interface_tests_supports_interface_returns_false_for_version_zero() {
    assert!(!SettlementContract::supports_interface(0));
}

#[test]
fn interface_tests_supports_interface_returns_false_for_unknown_future_version() {
    assert!(!SettlementContract::supports_interface(SUPPORTED_INTERFACE_VERSION + 1));
}

#[test]
fn interface_tests_supports_interface_returns_false_for_large_sentinel() {
    assert!(!SettlementContract::supports_interface(u32::MAX));
}

#[test]
fn validate_accepts_distinct_admin_set() {
    assert_eq!(SettlementContract::validate_admins_and_threshold(&vec![addr(1), addr(2)], 2), Ok(()));
    assert_eq!(
        SettlementContract::validate_admins_and_threshold(&vec![addr(1), addr(2), addr(1)], 2),
        Err(SettlementError::InvalidAdmin)
    );
    assert_eq!(
        SettlementContract::validate_admins_and_threshold(&vec![addr(1), Address::zero()], 2),
        Err(SettlementError::ZeroAddress)
    );
    assert_eq!(SettlementContract::validate_admins_and_threshold(&vec![], 1), Err(SettlementError::InvalidThreshold));
}

#[test]
fn recovery_settles_on_non_empty_single_admin_set() {
    let admins = vec![addr(1), addr(2), addr(3)];
    let mut c = setup_with_admins(&admins, 2);
    let new_admin = addr(10);
    recover_to(&mut c, new_admin);

    let recovered = c.get_admin().unwrap();
    assert_eq!(recovered, vec![new_admin]);
    assert_eq!(recovered.len(), 1, "recovery must not settle on an empty set");
    let threshold = c.get_threshold().unwrap();
    assert_eq!(threshold, 1);
    assert_eq!(SettlementContract::validate_admins_and_threshold(&recovered, threshold), Ok(()));
}

#[test]
fn recovery_to_existing_admin_does_not_duplicate_admin_set() {
    let incumbent = addr(1);
    let admins = vec![incumbent, addr(2)];
    let mut c = setup_with_admins(&admins, 2);
    recover_to(&mut c, incumbent);

    let recovered = c.get_admin().unwrap();
    assert_eq!(recovered, vec![incumbent]);
    assert_eq!(recovered.len(), 1, "recovering to a sitting admin must not duplicate the entry");
    assert_eq!(SettlementContract::validate_admins_and_threshold(&recovered, 1), Ok(()));
}

#[test]
fn rejected_duplicate_transfer_leaves_recovered_admin_set_intact() {
    let admins = vec![addr(1)];
    let mut c = setup_with_admins(&admins, 1);
    let recovered_admin = addr(10);
    recover_to(&mut c, recovered_admin);

    let signers = vec![recovered_admin];
    let duplicate_target = addr(11);
    let result = c.transfer_admin(&signers, &vec![duplicate_target, duplicate_target], 2);
    assert_eq!(result.unwrap_err(), SettlementError::InvalidAdmin);

    let empty_result = c.transfer_admin(&signers, &vec![], 1);
    assert_eq!(empty_result.unwrap_err(), SettlementError::InvalidThreshold);

    assert_eq!(c.get_admin(), Ok(vec![recovered_admin]), "a rejected transfer must not disturb the stored admin set");
    assert_eq!(c.get_threshold(), Ok(1));
}
