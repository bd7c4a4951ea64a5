//! Plain-value types shared by both contracts: basis points, settlement
//! rules, fee configurations and fee splits.
use vstd::prelude::*;
use crate::address::Address;

verus! {

/// Division that truncates toward zero, as Rust's `/` does on signed integers.
pub open spec fn trunc_div(a: int, d: int) -> int {
    if a >= 0 { a / d } else { -((-a) / d) }
}

/// `ceil(amount * bps / 10_000)` computed the way the contracts compute it:
/// `(amount * bps + 10_000 - 1) / 10_000` with truncating division.
pub open spec fn fee_ceil(amount: int, bps: int) -> int {
    trunc_div(amount * bps + 9_999, 10_000)
}

/// The fee computation for `amount` at `bps` stays inside `i128`.
pub open spec fn fee_ceil_fits(amount: int, bps: int) -> bool {
    i128::MIN <= amount * bps && amount * bps + 9_999 <= i128::MAX
}

/// A type-safe wrapper around basis points (`u32`).
#[derive(Clone, Copy, Debug, PartialEq, Eq, PartialOrd, Ord, Structural)]
pub struct Bps(pub u32);

impl Bps {
    /// Constructs a new `Bps` instance.
    pub fn new(value: u32) -> (r: Self)
        ensures
            r.0 == value,
    {
        Bps(value)
    }

    /// Returns the underlying `u32` basis point value.
    pub fn value(self) -> (r: u32)
        ensures
            r == self.0,
    {
        self.0
    }

    /// Converts basis points to `i128` for fee arithmetic.
    pub fn as_i128(self) -> (r: i128)
        ensures
            r == self.0,
    {
        self.0 as i128
    }

    /// Ceil-rounded fee for a gross `amount`:
    /// `ceil(amount * bps / BPS_DENOMINATOR)`.
    pub fn calculate_fee_ceil(self, amount: i128) -> (r: i128)
        requires
            fee_ceil_fits(amount as int, self.0 as int),
        ensures
            r == fee_ceil(amount as int, self.0 as int),
    {
        let denom: i128 = 10_000;
        let bps: i128 = self.0 as i128;
        let numerator: i128 = amount * bps + (denom - 1);
        let r = numerator / denom;
        assert(r == trunc_div(numerator as int, 10_000));
        r
    }
}

impl From<u32> for Bps {
    fn from(value: u32) -> (r: Self) {
        Bps(value)
    }
}

impl vstd::std_specs::convert::FromSpecImpl<u32> for Bps {
    open spec fn obeys_from_spec() -> bool {
        true
    }

    open spec fn from_spec(v: u32) -> Bps {
        Bps(v)
    }
}

impl From<Bps> for u32 {
    fn from(bps: Bps) -> (r: Self) {
        bps.0
    }
}

impl vstd::std_specs::convert::FromSpecImpl<Bps> for u32 {
    open spec fn obeys_from_spec() -> bool {
        true
    }

    open spec fn from_spec(v: Bps) -> u32 {
        v.0
    }
}

/// Configuration governing how a merchant's payments are settled.
#[derive(Clone, Copy, Debug, PartialEq, Eq, Structural)]
pub struct SettlementRule {
    /// Platform fee charged on each payment, in basis points.
    pub platform_fee_bps: u32,
    /// Network fee charged on each payment, in basis points.
    pub network_fee_bps: u32,
    /// Number of ledger closes to wait before settlement becomes eligible.
    pub settlement_delay_ledger: u32,
    /// Whether settlement is processed automatically after the delay.
    pub auto_settle: bool,
}

impl SettlementRule {
    /// Returns the platform fee as a typed `Bps` wrapper.
    pub fn platform_bps(&self) -> (r: Bps)
        ensures
            r.0 == self.platform_fee_bps,
    {
        Bps::new(self.platform_fee_bps)
    }

    /// Returns the network fee as a typed `Bps` wrapper.
    pub fn network_bps(&self) -> (r: Bps)
        ensures
            r.0 == self.network_fee_bps,
    {
        Bps::new(self.network_fee_bps)
    }
}

/// The fee split of one gross payment amount.
#[derive(Clone, Copy, Debug, PartialEq, Eq, Structural)]
pub struct FeeSplit {
    /// The total gross amount of the payment.
    pub gross_amount: i128,
    /// Portion of the gross allocated to the platform.
    pub platform_fee_amount: i128,
    /// Portion of the gross allocated to the network.
    pub network_fee_amount: i128,
    /// Net amount allocated to the merchant.
    pub merchant_amount: i128,
}

/// The fee configuration as the settlement contract reads it from governance:
/// protocol-level fee ceilings only.
#[derive(Clone, Copy, Debug, PartialEq, Eq, Structural)]
pub struct GovFeeConfig {
    pub platform_fee_bps: u32,
    pub network_fee_bps: u32,
}

/// The protocol-wide fee configuration stored by the governance contract.
#[derive(Clone, Copy, Debug, PartialEq, Eq, Structural)]
pub struct FeeConfig {
    pub platform_fee_bps: u32,
    pub network_fee_bps: u32,
}

/// A payment as the settlement contract records it: the fee split locked in
/// at creation, with the rule parameters that produced it.
#[derive(Clone, Copy, Debug, PartialEq, Eq)]
pub struct PaymentRecord {
    /// The merchant the payment belongs to.
    pub merchant: Address,
    /// The gross amount of the payment.
    pub amount: i128,
    /// The platform fee deducted.
    pub platform_fee_amount: i128,
    /// The network fee deducted.
    pub network_fee_amount: i128,
    /// The net payout owed to the merchant.
    pub merchant_amount: i128,
    /// The platform fee rate applied, in basis points.
    pub platform_fee_bps: u32,
    /// The network fee rate applied, in basis points.
    pub network_fee_bps: u32,
    /// Ledger sequence at which the payment was recorded.
    pub ledger: u32,
    /// Delay, in ledgers, before the payment may be settled.
    pub settlement_delay_ledger: u32,
    /// Whether the payment takes part in automated settlement batches.
    pub auto_settle: bool,
}

/// An admin recovery in flight, between `initiate_recovery` and a successful
/// `execute_recovery` (or a `cancel_recovery`).
#[derive(Clone, Copy, Debug, PartialEq, Eq)]
pub struct PendingRecovery {
    pub new_admin: Address,
    pub execute_after: u64,
}

/// The payload of the `admin_transferred` and `recovery_executed` events.
#[derive(Clone, Copy, Debug, PartialEq, Eq)]
pub struct AdminTransferred {
    pub old_admin: Address,
    pub new_admin: Address,
}

/// A pending timelocked operation: the full encoded operation is kept beside
/// its due time so a hash match alone is never taken as proof of identity.
#[derive(Clone, Debug, PartialEq, Eq)]
pub struct ScheduledOp {
    pub operation_xdr: Vec<u8>,
    pub execute_at: u64,
}

impl ScheduledOp {
    /// A copy of this scheduled operation.
    pub fn clone_op(&self) -> (r: ScheduledOp)
        ensures
            r.operation_xdr@ == self.operation_xdr@,
            r.execute_at == self.execute_at,
    {
        ScheduledOp { operation_xdr: self.operation_xdr.clone(), execute_at: self.execute_at }
    }
}

/// An administrative operation that can be scheduled behind the timelock.
#[derive(Clone, Debug, PartialEq, Eq)]
pub enum Operation {
    UpdateGovernance(Address),
    CancelRecovery,
    /// The full new admin set and multisig threshold.
    TransferAdmin(Vec<Address>, u32),
    Upgrade([u8; 32]),
    RegisterMerchant(Address),
    UnregisterMerchant(Address),
    SetSettlementRule(Address, SettlementRule),
    ClearSettlementRule(Address),
    SetDefaultRule(SettlementRule),
}

/// What the settlement contract's call of `get_fee_config` on its
/// governance contract gave back.
#[derive(Clone, Copy, Debug, PartialEq, Eq)]
pub enum GovFeeLookup {
    /// The call trapped, or its result did not decode as a fee configuration.
    Failed,
    /// Governance has no fee configuration set.
    NotSet,
    /// The configured protocol-wide fee ceilings.
    Config(GovFeeConfig),
}

} // verus!
