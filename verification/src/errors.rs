//! The error enums of the two contracts. Each variant carries the numeric
//! code fixed by [`crate::error_codes`]: shared concepts use the registry's
//! code, contract-specific ones lie in the contract's reserved range.
use vstd::prelude::*;

verus! {

/// Errors raised by the settlement contract.
#[derive(Clone, Copy, Debug, PartialEq, Eq, Structural)]
pub enum SettlementError {
    /// `init` has already been called; only one initialization is permitted.
    AlreadyInitialized,
    /// `init` has not been called.
    NotInitialized,
    /// The signers do not carry the admin authority the call needs.
    Unauthorized,
    /// A fee is below `MIN_FEE_BPS`, above `MAX_FEE_BPS`, or the fees sum above `BPS_DENOMINATOR`.
    InvalidFeeBps,
    /// The contract is paused.
    Paused,
    /// An admin set or admin address is invalid (duplicate, or also a merchant).
    InvalidAdmin,
    /// The recovery address is invalid.
    InvalidRecoveryAddress,
    /// No admin recovery is pending.
    RecoveryNotPending,
    /// The admin-recovery timelock has not elapsed.
    RecoveryDelayActive,
    /// The scheduled operation is not yet ready, or the requested delay is too short.
    ExecutionNotReady,
    /// The operation has not been scheduled.
    OperationNotScheduled,
    /// The operation has already been scheduled.
    OperationAlreadyScheduled,
    /// The new Wasm does not implement the required interface.
    InvalidWasmInterface,
    /// The multisig threshold is invalid.
    InvalidThreshold,
    /// `pause` was called while already paused.
    AlreadyPaused,
    /// `unpause` was called while not paused.
    AlreadyUnpaused,
    /// The merchant is already registered.
    MerchantExists,
    /// The merchant is not registered.
    MerchantMissing,
    /// The merchant already stored a payment under this reference.
    DuplicatePaymentReference,
    /// No merchant-specific rule has been set.
    MerchantRuleNotSet,
    /// The supplied address is empty.
    EmptyAddress,
    /// The supplied address is the zero address.
    ZeroAddress,
    /// The payment reference is all zeros, which is reserved.
    InvalidPaymentReference,
    /// `settlement_delay_ledger` exceeds `MAX_SETTLEMENT_DELAY_LEDGER`.
    InvalidSettlementDelay,
    /// The governance address is invalid.
    InvalidGovernance,
    /// Multiplying the amount by a fee's basis points would overflow `i128`.
    AmountOverflow,
    /// The call into the governance contract failed or returned a malformed value.
    GovernanceCallFailed,
    /// A fee exceeds the ceiling the governance contract configures.
    FeeExceedsGovernanceConfig,
    /// The payment amount is below the minimum.
    AmountTooSmall,
    /// More references were requested than `MAX_PAYMENTS_BATCH`.
    BatchTooLarge,
    /// The merchant was unregistered, so its payment records are no longer readable.
    PaymentOrphaned,
    /// The schedule slot of the operation's hash holds a different operation.
    OperationHashCollision,
}

impl SettlementError {
    /// The variant's name, as the shared registry spells it.
    pub open spec fn spec_name(self) -> Seq<char> {
        match self {
            SettlementError::AlreadyInitialized => "AlreadyInitialized"@,
            SettlementError::NotInitialized => "NotInitialized"@,
            SettlementError::Unauthorized => "Unauthorized"@,
            SettlementError::InvalidFeeBps => "InvalidFeeBps"@,
            SettlementError::Paused => "Paused"@,
            SettlementError::InvalidAdmin => "InvalidAdmin"@,
            SettlementError::InvalidRecoveryAddress => "InvalidRecoveryAddress"@,
            SettlementError::RecoveryNotPending => "RecoveryNotPending"@,
            SettlementError::RecoveryDelayActive => "RecoveryDelayActive"@,
            SettlementError::ExecutionNotReady => "ExecutionNotReady"@,
            SettlementError::OperationNotScheduled => "OperationNotScheduled"@,
            SettlementError::OperationAlreadyScheduled => "OperationAlreadyScheduled"@,
            SettlementError::InvalidWasmInterface => "InvalidWasmInterface"@,
            SettlementError::InvalidThreshold => "InvalidThreshold"@,
            SettlementError::AlreadyPaused => "AlreadyPaused"@,
            SettlementError::AlreadyUnpaused => "AlreadyUnpaused"@,
            SettlementError::MerchantExists => "MerchantExists"@,
            SettlementError::MerchantMissing => "MerchantMissing"@,
            SettlementError::DuplicatePaymentReference => "DuplicatePaymentReference"@,
            SettlementError::MerchantRuleNotSet => "MerchantRuleNotSet"@,
            SettlementError::EmptyAddress => "EmptyAddress"@,
            SettlementError::ZeroAddress => "ZeroAddress"@,
            SettlementError::InvalidPaymentReference => "InvalidPaymentReference"@,
            SettlementError::InvalidSettlementDelay => "InvalidSettlementDelay"@,
            SettlementError::InvalidGovernance => "InvalidGovernance"@,
            SettlementError::AmountOverflow => "AmountOverflow"@,
            SettlementError::GovernanceCallFailed => "GovernanceCallFailed"@,
            SettlementError::FeeExceedsGovernanceConfig => "FeeExceedsGovernanceConfig"@,
            SettlementError::AmountTooSmall => "AmountTooSmall"@,
            SettlementError::BatchTooLarge => "BatchTooLarge"@,
            SettlementError::PaymentOrphaned => "PaymentOrphaned"@,
            SettlementError::OperationHashCollision => "OperationHashCollision"@,
        }
    }

    /// The variant's name, as the shared registry spells it.
    pub fn name(self) -> (r: &'static str)
        ensures
            r@ == self.spec_name(),
    {
        match self {
            SettlementError::AlreadyInitialized => "AlreadyInitialized",
            SettlementError::NotInitialized => "NotInitialized",
            SettlementError::Unauthorized => "Unauthorized",
            SettlementError::InvalidFeeBps => "InvalidFeeBps",
            SettlementError::Paused => "Paused",
            SettlementError::InvalidAdmin => "InvalidAdmin",
            SettlementError::InvalidRecoveryAddress => "InvalidRecoveryAddress",
            SettlementError::RecoveryNotPending => "RecoveryNotPending",
            SettlementError::RecoveryDelayActive => "RecoveryDelayActive",
            SettlementError::ExecutionNotReady => "ExecutionNotReady",
            SettlementError::OperationNotScheduled => "OperationNotScheduled",
            SettlementError::OperationAlreadyScheduled => "OperationAlreadyScheduled",
            SettlementError::InvalidWasmInterface => "InvalidWasmInterface",
            SettlementError::InvalidThreshold => "InvalidThreshold",
            SettlementError::AlreadyPaused => "AlreadyPaused",
            SettlementError::AlreadyUnpaused => "AlreadyUnpaused",
            SettlementError::MerchantExists => "MerchantExists",
            SettlementError::MerchantMissing => "MerchantMissing",
            SettlementError::DuplicatePaymentReference => "DuplicatePaymentReference",
            SettlementError::MerchantRuleNotSet => "MerchantRuleNotSet",
            SettlementError::EmptyAddress => "EmptyAddress",
            SettlementError::ZeroAddress => "ZeroAddress",
            SettlementError::InvalidPaymentReference => "InvalidPaymentReference",
            SettlementError::InvalidSettlementDelay => "InvalidSettlementDelay",
            SettlementError::InvalidGovernance => "InvalidGovernance",
            SettlementError::AmountOverflow => "AmountOverflow",
            SettlementError::GovernanceCallFailed => "GovernanceCallFailed",
            SettlementError::FeeExceedsGovernanceConfig => "FeeExceedsGovernanceConfig",
            SettlementError::AmountTooSmall => "AmountTooSmall",
            SettlementError::BatchTooLarge => "BatchTooLarge",
            SettlementError::PaymentOrphaned => "PaymentOrphaned",
            SettlementError::OperationHashCollision => "OperationHashCollision",
        }
    }

    /// The numeric code of this error.
    pub open spec fn spec_code(self) -> u32 {
        match self {
            SettlementError::AlreadyInitialized => 1,
            SettlementError::NotInitialized => 2,
            SettlementError::Unauthorized => 3,
            SettlementError::InvalidFeeBps => 4,
            SettlementError::Paused => 5,
            SettlementError::InvalidAdmin => 6,
            SettlementError::InvalidRecoveryAddress => 7,
            SettlementError::RecoveryNotPending => 8,
            SettlementError::RecoveryDelayActive => 9,
            SettlementError::ExecutionNotReady => 10,
            SettlementError::OperationNotScheduled => 11,
            SettlementError::OperationAlreadyScheduled => 12,
            SettlementError::InvalidWasmInterface => 13,
            SettlementError::InvalidThreshold => 14,
            SettlementError::AlreadyPaused => 15,
            SettlementError::AlreadyUnpaused => 16,
            SettlementError::MerchantExists => 300,
            SettlementError::MerchantMissing => 302,
            SettlementError::DuplicatePaymentReference => 303,
            SettlementError::MerchantRuleNotSet => 304,
            SettlementError::EmptyAddress => 305,
            SettlementError::ZeroAddress => 306,
            SettlementError::InvalidPaymentReference => 307,
            SettlementError::InvalidSettlementDelay => 308,
            SettlementError::InvalidGovernance => 309,
            SettlementError::AmountOverflow => 310,
            SettlementError::GovernanceCallFailed => 311,
            SettlementError::FeeExceedsGovernanceConfig => 312,
            SettlementError::AmountTooSmall => 313,
            SettlementError::BatchTooLarge => 314,
            SettlementError::PaymentOrphaned => 315,
            SettlementError::OperationHashCollision => 316,
        }
    }

    /// The numeric code that identifies this error to off-chain clients.
    pub fn code(self) -> (r: u32)
        ensures
            r == self.spec_code(),
    {
        match self {
            SettlementError::AlreadyInitialized => 1,
            SettlementError::NotInitialized => 2,
            SettlementError::Unauthorized => 3,
            SettlementError::InvalidFeeBps => 4,
            SettlementError::Paused => 5,
            SettlementError::InvalidAdmin => 6,
            SettlementError::InvalidRecoveryAddress => 7,
            SettlementError::RecoveryNotPending => 8,
            SettlementError::RecoveryDelayActive => 9,
            SettlementError::ExecutionNotReady => 10,
            SettlementError::OperationNotScheduled => 11,
            SettlementError::OperationAlreadyScheduled => 12,
            SettlementError::InvalidWasmInterface => 13,
            SettlementError::InvalidThreshold => 14,
            SettlementError::AlreadyPaused => 15,
            SettlementError::AlreadyUnpaused => 16,
            SettlementError::MerchantExists => 300,
            SettlementError::MerchantMissing => 302,
            SettlementError::DuplicatePaymentReference => 303,
            SettlementError::MerchantRuleNotSet => 304,
            SettlementError::EmptyAddress => 305,
            SettlementError::ZeroAddress => 306,
            SettlementError::InvalidPaymentReference => 307,
            SettlementError::InvalidSettlementDelay => 308,
            SettlementError::InvalidGovernance => 309,
            SettlementError::AmountOverflow => 310,
            SettlementError::GovernanceCallFailed => 311,
            SettlementError::FeeExceedsGovernanceConfig => 312,
            SettlementError::AmountTooSmall => 313,
            SettlementError::BatchTooLarge => 314,
            SettlementError::PaymentOrphaned => 315,
            SettlementError::OperationHashCollision => 316,
        }
    }
}

/// Errors raised by the governance contract.
#[derive(Clone, Copy, Debug, PartialEq, Eq, Structural)]
pub enum GovernanceError {
    /// The contract has already been initialized.
    AlreadyInitialized,
    /// The contract has not been initialized yet.
    NotInitialized,
    /// The caller is not authorized to perform this action.
    Unauthorized,
    /// The provided fee basis points are invalid or exceed the maximum limit.
    InvalidFeeBps,
    /// The contract is currently paused and the operation is not allowed.
    Paused,
    /// The provided admin address is invalid.
    InvalidAdmin,
    /// The recovery address is invalid.
    InvalidRecoveryAddress,
    /// No recovery operation is pending.
    RecoveryNotPending,
    /// The recovery delay has not yet elapsed.
    RecoveryDelayActive,
    /// The new Wasm does not implement the required interface.
    InvalidWasmInterface,
    /// The provided multisig threshold is invalid.
    InvalidThreshold,
    /// The anchor for the specified asset was not found.
    AnchorMissing,
    /// The system parameter value is invalid.
    InvalidParamValue,
    /// `pause` was called while already paused.
    AlreadyPaused,
    /// `unpause` was called while not paused.
    AlreadyUnpaused,
    /// The new admin set and threshold equal the current ones.
    SameAdmin,
}

impl GovernanceError {
    /// The variant's name, as the shared registry spells it.
    pub open spec fn spec_name(self) -> Seq<char> {
        match self {
            GovernanceError::AlreadyInitialized => "AlreadyInitialized"@,
            GovernanceError::NotInitialized => "NotInitialized"@,
            GovernanceError::Unauthorized => "Unauthorized"@,
            GovernanceError::InvalidFeeBps => "InvalidFeeBps"@,
            GovernanceError::Paused => "Paused"@,
            GovernanceError::InvalidAdmin => "InvalidAdmin"@,
            GovernanceError::InvalidRecoveryAddress => "InvalidRecoveryAddress"@,
            GovernanceError::RecoveryNotPending => "RecoveryNotPending"@,
            GovernanceError::RecoveryDelayActive => "RecoveryDelayActive"@,
            GovernanceError::InvalidWasmInterface => "InvalidWasmInterface"@,
            GovernanceError::InvalidThreshold => "InvalidThreshold"@,
            GovernanceError::AnchorMissing => "AnchorMissing"@,
            GovernanceError::InvalidParamValue => "InvalidParamValue"@,
            GovernanceError::AlreadyPaused => "AlreadyPaused"@,
            GovernanceError::AlreadyUnpaused => "AlreadyUnpaused"@,
            GovernanceError::SameAdmin => "SameAdmin"@,
        }
    }

    /// The variant's name, as the shared registry spells it.
    pub fn name(self) -> (r: &'static str)
        ensures
            r@ == self.spec_name(),
    {
        match self {
            GovernanceError::AlreadyInitialized => "AlreadyInitialized",
            GovernanceError::NotInitialized => "NotInitialized",
            GovernanceError::Unauthorized => "Unauthorized",
            GovernanceError::InvalidFeeBps => "InvalidFeeBps",
            GovernanceError::Paused => "Paused",
            GovernanceError::InvalidAdmin => "InvalidAdmin",
            GovernanceError::InvalidRecoveryAddress => "InvalidRecoveryAddress",
            GovernanceError::RecoveryNotPending => "RecoveryNotPending",
            GovernanceError::RecoveryDelayActive => "RecoveryDelayActive",
            GovernanceError::InvalidWasmInterface => "InvalidWasmInterface",
            GovernanceError::InvalidThreshold => "InvalidThreshold",
            GovernanceError::AnchorMissing => "AnchorMissing",
            GovernanceError::InvalidParamValue => "InvalidParamValue",
            GovernanceError::AlreadyPaused => "AlreadyPaused",
            GovernanceError::AlreadyUnpaused => "AlreadyUnpaused",
            GovernanceError::SameAdmin => "SameAdmin",
        }
    }

    /// The numeric code of this error.
    pub open spec fn spec_code(self) -> u32 {
        match self {
            GovernanceError::AlreadyInitialized => 1,
            GovernanceError::NotInitialized => 2,
            GovernanceError::Unauthorized => 3,
            GovernanceError::InvalidFeeBps => 4,
            GovernanceError::Paused => 5,
            GovernanceError::InvalidAdmin => 6,
            GovernanceError::InvalidRecoveryAddress => 7,
            GovernanceError::RecoveryNotPending => 8,
            GovernanceError::RecoveryDelayActive => 9,
            GovernanceError::InvalidWasmInterface => 13,
            GovernanceError::InvalidThreshold => 14,
            GovernanceError::AnchorMissing => 200,
            GovernanceError::InvalidParamValue => 201,
            GovernanceError::AlreadyPaused => 15,
            GovernanceError::AlreadyUnpaused => 16,
            GovernanceError::SameAdmin => 204,
        }
    }

    /// The numeric code that identifies this error to off-chain clients.
    pub fn code(self) -> (r: u32)
        ensures
            r == self.spec_code(),
    {
        match self {
            GovernanceError::AlreadyInitialized => 1,
            GovernanceError::NotInitialized => 2,
            GovernanceError::Unauthorized => 3,
            GovernanceError::InvalidFeeBps => 4,
            GovernanceError::Paused => 5,
            GovernanceError::InvalidAdmin => 6,
            GovernanceError::InvalidRecoveryAddress => 7,
            GovernanceError::RecoveryNotPending => 8,
            GovernanceError::RecoveryDelayActive => 9,
            GovernanceError::InvalidWasmInterface => 13,
            GovernanceError::InvalidThreshold => 14,
            GovernanceError::AnchorMissing => 200,
            GovernanceError::InvalidParamValue => 201,
            GovernanceError::AlreadyPaused => 15,
            GovernanceError::AlreadyUnpaused => 16,
            GovernanceError::SameAdmin => 204,
        }
    }
}


/// Every settlement code is either a shared code, carrying the registry's
/// name for it, or lies in the settlement range `300..=399`; and no two
/// settlement errors share a code.
pub proof fn lemma_settlement_codes_conform(e: SettlementError, f: SettlementError)
    ensures
        (1 <= e.spec_code() <= 99 && crate::error_codes::shared_code_name(e.spec_code()) == Some(e.spec_name()))
            || (300 <= e.spec_code() <= 399 && crate::error_codes::shared_code_name(e.spec_code()) is None),
        e.spec_code() == f.spec_code() ==> e == f,
{
}

/// Every governance code is either a shared code, carrying the registry's
/// name for it, or lies in the governance range `200..=299`; and no two
/// governance errors share a code.
pub proof fn lemma_governance_codes_conform(e: GovernanceError, f: GovernanceError)
    ensures
        (1 <= e.spec_code() <= 99 && crate::error_codes::shared_code_name(e.spec_code()) == Some(e.spec_name()))
            || (200 <= e.spec_code() <= 299 && crate::error_codes::shared_code_name(e.spec_code()) is None),
        e.spec_code() == f.spec_code() ==> e == f,
{
}

/// A governance error and a settlement error share a code only when the
/// code is a shared one, and then they carry the same name.
pub proof fn lemma_contract_codes_never_collide(g: GovernanceError, e: SettlementError)
    ensures
        g.spec_code() == e.spec_code() ==> crate::error_codes::shared_code_name(g.spec_code()) is Some && g.spec_name() == e.spec_name(),
{
    lemma_settlement_codes_conform(e, e);
    lemma_governance_codes_conform(g, g);
}

} // verus!
