use bettapay::address::Address;
use bettapay::errors::SettlementError;
use bettapay::events::{Event, BOOTSTRAP_FALLBACK_EVENT};
use bettapay::fees::calculate_split;
use bettapay::governance::GovernanceContract;
use bettapay::settlement::SettlementContract;
use bettapay::types::{FeeConfig, GovFeeConfig, GovFeeLookup, SettlementRule};

fn addr(n: u32) -> Address {
    let mut k = [b'A'; 56];
    k[0] = b'G';
    k[1] = b'B' + (n % 20) as u8;
    k[2] = b'B' + ((n / 20) % 20) as u8;
    k[3] = b'B' + ((n / 400) % 20) as u8;
    Address::new(k)
}

/// A settlement contract whose governance is `governance`, with a single
/// admin and one registered merchant.
fn setup_with_governance(governance: Address) -> (SettlementContract, Vec<Address>, Address) {
    let mut c = SettlementContract::new();
    let admins = vec![addr(1)];
    c.init(addr(90), &admins, 1, governance, addr(92)).unwrap();
    let merchant = addr(5);
    c.register_merchant(&admins, merchant).unwrap();
    (c, admins, merchant)
}

fn rule_100_50() -> SettlementRule {
    SettlementRule { platform_fee_bps: 100, network_fee_bps: 50, settlement_delay_ledger: 0, auto_settle: false }
}

#[test]
fn read_path_governance_none_falls_through_to_bootstrap() {
    let (c, _admins, merchant) = setup_with_governance(addr(91));
    let (split, _) = c.calculate_fee_split(&merchant, 10_000, &GovFeeLookup::NotSet).unwrap();
    assert_eq!(split.platform_fee_amount, 100);
    assert_eq!(split.network_fee_amount, 5);
    assert_eq!(split.merchant_amount, 9_895);
}

#[test]
fn read_path_governance_failure_reports_governance_call_failed() {
    let (c, _admins, merchant) = setup_with_governance(addr(91));
    assert_eq!(
        c.calculate_fee_split(&merchant, 10_000, &GovFeeLookup::Failed).unwrap_err(),
        SettlementError::GovernanceCallFailed
    );
}

#[test]
fn write_path_governance_failure_reports_governance_call_failed() {
    let (mut c, admins, merchant) = setup_with_governance(addr(91));
    assert_eq!(
        c.set_settlement_rule(&admins, merchant, rule_100_50(), &GovFeeLookup::Failed).unwrap_err(),
        SettlementError::GovernanceCallFailed
    );
    assert_eq!(
        c.set_default_rule(&admins, rule_100_50(), &GovFeeLookup::Failed).unwrap_err(),
        SettlementError::GovernanceCallFailed
    );
    assert_eq!(c.get_settlement_rule(&merchant), None);
    assert_eq!(c.get_default_rule(), None);
}

#[test]
fn init_succeeds_with_panicking_governance() {
    // `init` takes no governance reply at all.
    let mut c = SettlementContract::new();
    let panicking_gov = addr(94);
    let admin = addr(1);
    c.init(addr(90), &vec![admin], 1, panicking_gov, addr(92)).unwrap();
    assert_eq!(c.get_governance(), Ok(panicking_gov));
    assert_eq!(c.get_admin(), Ok(vec![admin]));
}

#[test]
fn update_governance_succeeds_with_panicking_governance() {
    let (mut c, admins, _) = setup_with_governance(addr(91));
    let panicking_gov = addr(94);
    c.update_governance(&admins, panicking_gov).unwrap();
    assert_eq!(c.get_governance(), Ok(panicking_gov));
}

#[test]
fn init_succeeds_with_reentrant_governance_and_prevents_double_init() {
    let mut c = SettlementContract::new();
    let reentrant_gov = addr(95);
    let admin = addr(1);
    c.init(addr(90), &vec![admin], 1, reentrant_gov, addr(92)).unwrap();
    assert!(c.is_initialized());
    assert_eq!(c.get_governance(), Ok(reentrant_gov));

    let res = c.init(addr(90), &vec![admin], 1, reentrant_gov, addr(92));
    assert_eq!(res.unwrap_err(), SettlementError::AlreadyInitialized);
}

#[test]
fn read_path_governance_valid_config_used() {
    let mut gov = GovernanceContract::new();
    let gov_admins = vec![addr(3)];
    gov.init(addr(96), &gov_admins, 1, addr(97)).unwrap();
    gov.set_fee_config(&gov_admins, FeeConfig { platform_fee_bps: 250, network_fee_bps: 50 }).unwrap();
    let cfg = gov.get_fee_config().unwrap();
    let lookup = GovFeeLookup::Config(GovFeeConfig { platform_fee_bps: cfg.platform_fee_bps, network_fee_bps: cfg.network_fee_bps });

    let (c, _admins, merchant) = setup_with_governance(addr(91));
    let (split, events) = c.calculate_fee_split(&merchant, 10_000, &lookup).unwrap();
    assert_eq!(split.platform_fee_amount, 250);
    assert_eq!(split.network_fee_amount, 50);
    assert_eq!(split.merchant_amount, 9_700);
    assert!(events.is_empty());
}

#[test]
fn read_path_governance_none_emits_bootstrap_fallback_event() {
    let (c, _admins, merchant) = setup_with_governance(addr(91));
    let (_, events) = c.calculate_fee_split(&merchant, 10_000, &GovFeeLookup::NotSet).unwrap();
    assert!(events.iter().any(|e| e.topic() == BOOTSTRAP_FALLBACK_EVENT));
    assert_eq!(events, vec![Event::BootstrapFallback { rule: bettapay::settlement::bootstrap_default_rule() }]);
}

#[test]
fn calculate_fee_split_uses_correctly_ordered_governance_fees() {
    let (c, _admins, merchant) = setup_with_governance(addr(91));
    let lookup = GovFeeLookup::Config(GovFeeConfig { platform_fee_bps: 777, network_fee_bps: 222 });
    let amount: i128 = 1_000_000;
    let (split, _) = c.calculate_fee_split(&merchant, amount, &lookup).unwrap();
    assert_eq!(split.platform_fee_amount, amount * 777 / 10_000);
    assert_eq!(split.network_fee_amount, amount * 222 / 10_000);
}

#[test]
fn zero_fee_split_handles_maximum_amount() {
    let amount = i128::MAX;
    let rule = SettlementRule { platform_fee_bps: 0, network_fee_bps: 0, settlement_delay_ledger: 0, auto_settle: false };
    let split = calculate_split(amount, &rule).unwrap();
    assert_eq!(split.gross_amount, amount);
    assert_eq!(split.platform_fee_amount, 0);
    assert_eq!(split.network_fee_amount, 0);
    assert_eq!(split.merchant_amount, amount);
    assert_eq!(split.platform_fee_amount + split.network_fee_amount + split.merchant_amount, split.gross_amount);
}

#[test]
fn split_rounds_each_leg_up_and_clamps_the_merchant_share() {
    let rule = SettlementRule { platform_fee_bps: 10_000, network_fee_bps: 10_000, settlement_delay_ledger: 0, auto_settle: false };
    let split = calculate_split(101, &rule).unwrap();
    assert_eq!(split.platform_fee_amount, 101);
    assert_eq!(split.network_fee_amount, 101);
    assert_eq!(split.merchant_amount, 0);

    let odd = SettlementRule { platform_fee_bps: 1, network_fee_bps: 3, settlement_delay_ledger: 0, auto_settle: false };
    let split = calculate_split(12_345, &odd).unwrap();
    assert_eq!(split.platform_fee_amount, 2);
    assert_eq!(split.network_fee_amount, 4);
    assert_eq!(split.merchant_amount, 12_339);

    let big = SettlementRule { platform_fee_bps: 100, network_fee_bps: 5, settlement_delay_ledger: 0, auto_settle: false };
    assert_eq!(calculate_split(i128::MAX, &big).unwrap_err(), SettlementError::AmountOverflow);
}
