use bettapay::address::Address;
use bettapay::errors::SettlementError;
use bettapay::settlement::{SettlementContract, DEFAULT_TIMELOCK_DELAY_SECONDS};
use bettapay::types::{GovFeeConfig, GovFeeLookup, Operation, SettlementRule};

fn addr(n: u32) -> Address {
    let mut k = [b'A'; 56];
    k[0] = b'G';
    k[1] = b'B' + (n % 20) as u8;
    k[2] = b'B' + ((n / 20) % 20) as u8;
    k[3] = b'B' + ((n / 400) % 20) as u8;
    Address::new(k)
}

fn xdr_of(op: &Operation) -> Vec<u8> {
    format!("{:?}", op).into_bytes()
}

const NOT_SET: GovFeeLookup = GovFeeLookup::NotSet;

fn setup() -> (SettlementContract, Vec<Address>, Address) {
    let mut c = SettlementContract::new();
    let admins = vec![addr(1)];
    c.init(addr(90), &admins, 1, addr(91), addr(92)).unwrap();
    (c, admins, addr(5))
}

#[test]
fn paused_settlement_refuses_every_write() {
    let env = soroban_sdk::Env::default();
    let (mut c, admins, merchant) = setup();
    c.register_merchant(&admins, merchant).unwrap();
    let rule = SettlementRule { platform_fee_bps: 100, network_fee_bps: 10, settlement_delay_ledger: 0, auto_settle: false };
    c.set_settlement_rule(&admins, merchant, rule, &NOT_SET).unwrap();
    c.pause(&admins).unwrap();

    assert_eq!(c.register_merchant(&admins, addr(6)).unwrap_err(), SettlementError::Paused);
    assert_eq!(c.unregister_merchant(&admins, merchant, &NOT_SET).unwrap_err(), SettlementError::Paused);
    assert_eq!(c.set_settlement_rule(&admins, merchant, rule, &NOT_SET).unwrap_err(), SettlementError::Paused);
    assert_eq!(c.clear_settlement_rule(&admins, merchant, &NOT_SET).unwrap_err(), SettlementError::Paused);
    assert_eq!(c.set_default_rule(&admins, rule, &NOT_SET).unwrap_err(), SettlementError::Paused);
    assert_eq!(c.update_governance(&admins, addr(93)).unwrap_err(), SettlementError::Paused);
    assert_eq!(
        c.schedule(&env, &admins, &xdr_of(&Operation::CancelRecovery), DEFAULT_TIMELOCK_DELAY_SECONDS, 0).unwrap_err(),
        SettlementError::Paused
    );

    // Reads and administrative operations stay available.
    assert_eq!(c.get_settlement_rule(&merchant), Some(rule));
    assert!(c.calculate_fee_split(&merchant, 1_000, &NOT_SET).is_ok());
    c.transfer_admin(&admins, &vec![addr(2)], 1).unwrap();
}

#[test]
fn stored_split_is_the_quoted_split() {
    let (mut c, admins, merchant) = setup();
    c.register_merchant(&admins, merchant).unwrap();
    let gov = GovFeeLookup::Config(GovFeeConfig { platform_fee_bps: 333, network_fee_bps: 77 });
    let (quoted, _) = c.calculate_fee_split(&merchant, 123_457, &gov).unwrap();
    let (stored, _) = c.store_payment_reference(merchant, [3u8; 32], 123_457, &gov, 9).unwrap();
    assert_eq!(quoted, stored);
    assert_eq!(stored.platform_fee_amount, 4_112);
    assert_eq!(stored.network_fee_amount, 951);
    assert_eq!(stored.merchant_amount, 123_457 - 4_112 - 951);
}

#[test]
fn schedule_then_cancel_leaves_the_queue_empty() {
    let env = soroban_sdk::Env::default();
    let (mut c, admins, merchant) = setup();
    let op = Operation::RegisterMerchant(merchant);
    let xdr = xdr_of(&op);
    c.schedule(&env, &admins, &xdr, DEFAULT_TIMELOCK_DELAY_SECONDS, 0).unwrap();
    c.cancel(&env, &admins, &xdr).unwrap();
    // The slot is free again: the same operation schedules anew.
    c.schedule(&env, &admins, &xdr, DEFAULT_TIMELOCK_DELAY_SECONDS, 5).unwrap();
    assert_eq!(
        c.execute(&env, admins[0], &op, &xdr, DEFAULT_TIMELOCK_DELAY_SECONDS + 4, &NOT_SET).unwrap_err(),
        SettlementError::ExecutionNotReady
    );
    c.execute(&env, admins[0], &op, &xdr, DEFAULT_TIMELOCK_DELAY_SECONDS + 5, &NOT_SET).unwrap();
}

#[test]
fn rule_resolution_follows_merchant_default_governance_bootstrap() {
    let (mut c, admins, merchant) = setup();
    c.register_merchant(&admins, merchant).unwrap();
    let gov = GovFeeLookup::Config(GovFeeConfig { platform_fee_bps: 300, network_fee_bps: 30 });

    let (split, _) = c.calculate_fee_split(&merchant, 10_000, &NOT_SET).unwrap();
    assert_eq!((split.platform_fee_amount, split.network_fee_amount), (100, 5));
    let (split, _) = c.calculate_fee_split(&merchant, 10_000, &gov).unwrap();
    assert_eq!((split.platform_fee_amount, split.network_fee_amount), (300, 30));

    let default_rule = SettlementRule { platform_fee_bps: 200, network_fee_bps: 20, settlement_delay_ledger: 0, auto_settle: false };
    c.set_default_rule(&admins, default_rule, &gov).unwrap();
    let (split, _) = c.calculate_fee_split(&merchant, 10_000, &gov).unwrap();
    assert_eq!((split.platform_fee_amount, split.network_fee_amount), (200, 20));

    let own = SettlementRule { platform_fee_bps: 150, network_fee_bps: 15, settlement_delay_ledger: 0, auto_settle: false };
    c.set_settlement_rule(&admins, merchant, own, &gov).unwrap();
    let (split, _) = c.calculate_fee_split(&merchant, 10_000, &GovFeeLookup::Failed).unwrap();
    assert_eq!((split.platform_fee_amount, split.network_fee_amount), (150, 15));
}

#[test]
fn executed_operation_stays_consumed_across_later_calls() {
    let env = soroban_sdk::Env::default();
    let (mut c, admins, merchant) = setup();
    let op = Operation::RegisterMerchant(merchant);
    let xdr = xdr_of(&op);
    c.schedule(&env, &admins, &xdr, DEFAULT_TIMELOCK_DELAY_SECONDS, 0).unwrap();
    let eff = c.execute(&env, addr(70), &op, &xdr, DEFAULT_TIMELOCK_DELAY_SECONDS, &NOT_SET).unwrap();
    assert!(eff.auth.is_empty());

    // Unrelated calls in between, including scheduling another operation.
    c.unregister_merchant(&admins, merchant, &NOT_SET).unwrap();
    let other = xdr_of(&Operation::RegisterMerchant(addr(6)));
    c.schedule(&env, &admins, &other, DEFAULT_TIMELOCK_DELAY_SECONDS, 0).unwrap();
    c.pause(&admins).unwrap();
    c.unpause(&admins).unwrap();

    assert_eq!(
        c.execute(&env, addr(70), &op, &xdr, u64::MAX, &NOT_SET).unwrap_err(),
        SettlementError::OperationNotScheduled
    );
    assert_eq!(c.cancel(&env, &admins, &xdr).unwrap_err(), SettlementError::OperationNotScheduled);
    assert_eq!(c.is_merchant_registered(&merchant), Ok(false));
}
