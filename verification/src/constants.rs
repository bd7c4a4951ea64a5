//! Protocol-wide numeric constants shared by both contracts.
use vstd::prelude::*;

verus! {

/// One hundred percent, expressed in basis points.
pub const BPS_DENOMINATOR: u32 = 10_000;

/// Smallest fee, in basis points, that a fee configuration may carry (0.05 %).
pub const MIN_FEE_BPS: u32 = 5;

/// Largest fee, in basis points, that a single fee leg may carry (50 %).
pub const MAX_FEE_BPS: u32 = 5_000;

/// Delay, in seconds, between `initiate_recovery` and the earliest
/// `execute_recovery` (seven days).
pub const RECOVERY_DELAY_SECONDS: u64 = 604_800;

/// Approximate ledgers per day on Stellar (about five seconds per ledger).
pub const LEDGERS_PER_DAY: u32 = 17_280;

/// Remaining-TTL threshold (14 days of ledgers) below which a persistent
/// entry's lifetime is extended.
pub const TTL_THRESHOLD_LEDGERS: u32 = 241_920;

/// Lifetime (30 days of ledgers) that a persistent entry is extended to.
pub const TTL_BUMP_LEDGERS: u32 = 518_400;

} // verus!
