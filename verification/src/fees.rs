//! The fee split of a payment: both fee legs are ceil-rounded independently
//! so fees are never under-collected; the merchant keeps the rest, clamped at
//! zero.
use vstd::prelude::*;
use crate::errors::SettlementError;
use crate::types::{fee_ceil, fee_ceil_fits, trunc_div, FeeSplit, SettlementRule};

verus! {

/// The larger of the rule's two fee legs.
pub open spec fn max_leg_bps(rule: SettlementRule) -> int {
    if rule.platform_fee_bps >= rule.network_fee_bps { rule.platform_fee_bps as int } else { rule.network_fee_bps as int }
}

/// `amount * max_bps + (BPS_DENOMINATOR - 1)` does not fit in `i128`: the
/// split is refused with `AmountOverflow` before any fee is computed.
pub open spec fn split_overflows(amount: int, rule: SettlementRule) -> bool {
    amount * max_leg_bps(rule) < i128::MIN || amount * max_leg_bps(rule) + 9_999 > i128::MAX
}

/// The merchant's share: the gross minus both rounded fee legs, never below zero.
pub open spec fn merchant_share(amount: int, platform_fee: int, network_fee: int) -> int {
    if amount - platform_fee - network_fee >= 0 { amount - platform_fee - network_fee } else { 0 }
}

/// The split of `amount` under `rule`.
pub open spec fn fee_split_of(amount: int, rule: SettlementRule) -> FeeSplit {
    let p = fee_ceil(amount, rule.platform_fee_bps as int);
    let n = fee_ceil(amount, rule.network_fee_bps as int);
    FeeSplit {
        gross_amount: amount as i128,
        platform_fee_amount: p as i128,
        network_fee_amount: n as i128,
        merchant_amount: merchant_share(amount, p, n) as i128,
    }
}

proof fn lemma_mul_between(a: int, b: int, m: int)
    requires
        0 <= b <= m,
    ensures
        a >= 0 ==> 0 <= a * b <= a * m,
        a < 0 ==> a * m <= a * b <= 0,
{
    if a >= 0 {
        assert(0 <= a * b <= a * m) by (nonlinear_arith)
            requires a >= 0, 0 <= b <= m;
    } else {
        assert(a * m <= a * b <= 0) by (nonlinear_arith)
            requires a < 0, 0 <= b <= m;
    }
}

proof fn lemma_ceil_bounds(x: int)
    ensures
        x >= 0 ==> 0 <= trunc_div(x + 9_999, 10_000) <= x / 10_000 + 1,
        x < 0 ==> trunc_div(x + 9_999, 10_000) <= 0,
{
}

/// Computes the platform, network and merchant amounts of `amount` under
/// `rule`. Each fee leg is `ceil(amount * bps / 10_000)`; the merchant keeps
/// `amount - platform - network`, clamped at zero (ceil rounding of both legs
/// can exceed a tiny gross). Fails with `AmountOverflow` when
/// `amount * max(platform_bps, network_bps) + 9_999` does not fit in `i128`.
pub fn calculate_split(amount: i128, rule: &SettlementRule) -> (r: Result<FeeSplit, SettlementError>)
    ensures
        split_overflows(amount as int, *rule) ==> r == Err::<FeeSplit, SettlementError>(SettlementError::AmountOverflow),
        !split_overflows(amount as int, *rule) ==> r == Ok::<FeeSplit, SettlementError>(fee_split_of(amount as int, *rule)),
{
    let platform_bps = rule.platform_bps();
    let network_bps = rule.network_bps();
    let max_bps: i128 = if platform_bps.as_i128() >= network_bps.as_i128() {
        platform_bps.as_i128()
    } else {
        network_bps.as_i128()
    };
    let guarded = match amount.checked_mul(max_bps) {
        Some(numerator) => numerator.checked_add(9_999),
        None => None,
    };
    if guarded.is_none() {
        return Err(SettlementError::AmountOverflow);
    }
    proof {
        lemma_mul_between(amount as int, rule.platform_fee_bps as int, max_leg_bps(*rule));
        lemma_mul_between(amount as int, rule.network_fee_bps as int, max_leg_bps(*rule));
        lemma_ceil_bounds(amount * rule.platform_fee_bps);
        lemma_ceil_bounds(amount * rule.network_fee_bps);
        lemma_ceil_bounds(amount * max_leg_bps(*rule));
        assert(fee_ceil_fits(amount as int, rule.platform_fee_bps as int));
        assert(fee_ceil_fits(amount as int, rule.network_fee_bps as int));
    }
    let platform_fee_amount = platform_bps.calculate_fee_ceil(amount);
    let network_fee_amount = network_bps.calculate_fee_ceil(amount);
    proof {
        if amount >= 0 {
            assert((amount * rule.platform_fee_bps) / 10_000 <= (amount * max_leg_bps(*rule)) / 10_000);
            assert((amount * rule.network_fee_bps) / 10_000 <= (amount * max_leg_bps(*rule)) / 10_000);
        }
    }
    let remainder = amount - platform_fee_amount - network_fee_amount;
    let merchant_amount = if remainder >= 0 { remainder } else { 0 };
    Ok(FeeSplit {
        gross_amount: amount,
        platform_fee_amount,
        network_fee_amount,
        merchant_amount,
    })
}

/// Ceil rounding never under-collects a fee and over-collects by less than
/// one unit: for a non-negative gross, `fee * 10_000` lies in
/// `[amount * bps, amount * bps + 10_000)`.
pub proof fn lemma_fee_is_exact_ceiling(amount: int, bps: int)
    requires
        amount >= 0,
        bps >= 0,
    ensures
        fee_ceil(amount, bps) * 10_000 >= amount * bps,
        fee_ceil(amount, bps) * 10_000 < amount * bps + 10_000,
{
    assert(amount * bps >= 0) by (nonlinear_arith)
        requires amount >= 0, bps >= 0;
}

/// The merchant's share of a split is never negative.
pub proof fn lemma_split_merchant_never_negative(amount: int, rule: SettlementRule)
    ensures
        merchant_share(amount, fee_ceil(amount, rule.platform_fee_bps as int), fee_ceil(amount, rule.network_fee_bps as int)) >= 0,
{
}

/// Whenever the rounded fees fit inside the gross, the fee legs and the
/// merchant amount add up to exactly the gross amount.
pub proof fn lemma_split_conserves_gross(amount: int, rule: SettlementRule)
    requires
        fee_ceil(amount, rule.platform_fee_bps as int) + fee_ceil(amount, rule.network_fee_bps as int) <= amount,
    ensures
        fee_ceil(amount, rule.platform_fee_bps as int) + fee_ceil(amount, rule.network_fee_bps as int)
            + merchant_share(amount, fee_ceil(amount, rule.platform_fee_bps as int), fee_ceil(amount, rule.network_fee_bps as int))
            == amount,
{
}

/// With both fee legs at zero a non-negative gross goes wholly to the merchant.
pub proof fn lemma_zero_fees_preserve_gross(amount: int, rule: SettlementRule)
    requires
        amount >= 0,
        rule.platform_fee_bps == 0,
        rule.network_fee_bps == 0,
    ensures
        fee_ceil(amount, 0) == 0,
        merchant_share(amount, fee_ceil(amount, 0), fee_ceil(amount, 0)) == amount,
{
}

/// A single fee leg of at most 100 % never exceeds a non-negative gross.
pub proof fn lemma_single_leg_within_gross(amount: int, bps: int)
    requires
        amount >= 0,
        0 <= bps <= 10_000,
    ensures
        fee_ceil(amount, bps) <= amount,
{
    assert(amount * bps <= amount * 10_000) by (nonlinear_arith)
        requires amount >= 0, 0 <= bps <= 10_000;
    assert(amount * bps >= 0) by (nonlinear_arith)
        requires amount >= 0, bps >= 0;
}

/// When the split does not overflow, both rounded fee legs fit in `i128`,
/// so the split carries them exactly.
pub proof fn lemma_split_legs_fit(amount: int, rule: SettlementRule)
    requires
        i128::MIN <= amount <= i128::MAX,
        !split_overflows(amount, rule),
    ensures
        i128::MIN <= fee_ceil(amount, rule.platform_fee_bps as int) <= i128::MAX,
        i128::MIN <= fee_ceil(amount, rule.network_fee_bps as int) <= i128::MAX,
        fee_split_of(amount, rule).platform_fee_amount == fee_ceil(amount, rule.platform_fee_bps as int),
        fee_split_of(amount, rule).network_fee_amount == fee_ceil(amount, rule.network_fee_bps as int),
{
    lemma_mul_between(amount, rule.platform_fee_bps as int, max_leg_bps(rule));
    lemma_mul_between(amount, rule.network_fee_bps as int, max_leg_bps(rule));
    lemma_ceil_bounds(amount * rule.platform_fee_bps);
    lemma_ceil_bounds(amount * rule.network_fee_bps);
    lemma_ceil_bounds(amount * max_leg_bps(rule));
    if amount >= 0 {
        assert((amount * rule.platform_fee_bps) / 10_000 <= (amount * max_leg_bps(rule)) / 10_000);
        assert((amount * rule.network_fee_bps) / 10_000 <= (amount * max_leg_bps(rule)) / 10_000);
    }
}

} // verus!
