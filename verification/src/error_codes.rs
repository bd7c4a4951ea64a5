//! The canonical numeric error-code registry shared by every BettaPay
//! contract.
//!
//! Ranges:
//! - `1..=99`    — codes shared by two or more contracts (this module).
//! - `200..=299` — reserved for governance-only codes.
//! - `300..=399` — reserved for settlement-only codes.
use vstd::prelude::*;

verus! {

/// The contract has already been initialized.
pub const ALREADY_INITIALIZED: u32 = 1;
/// The contract has not been initialized yet.
pub const NOT_INITIALIZED: u32 = 2;
/// The caller is not authorized to perform this action.
pub const UNAUTHORIZED: u32 = 3;
/// The provided fee basis points are invalid or exceed the maximum limit.
pub const INVALID_FEE_BPS: u32 = 4;
/// The contract is currently paused and the operation is not allowed.
pub const PAUSED: u32 = 5;
/// The provided admin address is invalid.
pub const INVALID_ADMIN: u32 = 6;
/// The provided recovery address is invalid.
pub const INVALID_RECOVERY_ADDRESS: u32 = 7;
/// No admin recovery is currently pending.
pub const RECOVERY_NOT_PENDING: u32 = 8;
/// The admin-recovery timelock has not yet elapsed.
pub const RECOVERY_DELAY_ACTIVE: u32 = 9;
/// The scheduled operation is not yet ready for execution.
pub const EXECUTION_NOT_READY: u32 = 10;
/// The operation has not been scheduled.
pub const OPERATION_NOT_SCHEDULED: u32 = 11;
/// The operation has already been scheduled.
pub const OPERATION_ALREADY_SCHEDULED: u32 = 12;
/// The deployed Wasm does not implement the required interface.
pub const INVALID_WASM_INTERFACE: u32 = 13;
/// The provided multisig threshold is invalid.
pub const INVALID_THRESHOLD: u32 = 14;
/// `pause` was called while the contract was already paused.
pub const ALREADY_PAUSED: u32 = 15;
/// `unpause` was called while the contract was already unpaused.
pub const ALREADY_UNPAUSED: u32 = 16;

/// Lowest code reserved for governance-only errors.
pub const GOVERNANCE_RANGE_START: u32 = 200;
/// Lowest code reserved for settlement-only errors.
pub const SETTLEMENT_RANGE_START: u32 = 300;

/// The name the registry attaches to a shared `code`, if `code` is shared.
pub open spec fn shared_code_name(code: u32) -> Option<Seq<char>> {
    if code == 1 { Some("AlreadyInitialized"@) }
    else if code == 2 { Some("NotInitialized"@) }
    else if code == 3 { Some("Unauthorized"@) }
    else if code == 4 { Some("InvalidFeeBps"@) }
    else if code == 5 { Some("Paused"@) }
    else if code == 6 { Some("InvalidAdmin"@) }
    else if code == 7 { Some("InvalidRecoveryAddress"@) }
    else if code == 8 { Some("RecoveryNotPending"@) }
    else if code == 9 { Some("RecoveryDelayActive"@) }
    else if code == 10 { Some("ExecutionNotReady"@) }
    else if code == 11 { Some("OperationNotScheduled"@) }
    else if code == 12 { Some("OperationAlreadyScheduled"@) }
    else if code == 13 { Some("InvalidWasmInterface"@) }
    else if code == 14 { Some("InvalidThreshold"@) }
    else if code == 15 { Some("AlreadyPaused"@) }
    else if code == 16 { Some("AlreadyUnpaused"@) }
    else { None }
}

/// Looks up the registry name of a shared error code.
pub fn shared_name_for_code(code: u32) -> (r: Option<&'static str>)
    ensures
        r is None <==> shared_code_name(code) is None,
        r matches Some(s) ==> shared_code_name(code) == Some(s@),
{
    if code == ALREADY_INITIALIZED { Some("AlreadyInitialized") }
    else if code == NOT_INITIALIZED { Some("NotInitialized") }
    else if code == UNAUTHORIZED { Some("Unauthorized") }
    else if code == INVALID_FEE_BPS { Some("InvalidFeeBps") }
    else if code == PAUSED { Some("Paused") }
    else if code == INVALID_ADMIN { Some("InvalidAdmin") }
    else if code == INVALID_RECOVERY_ADDRESS { Some("InvalidRecoveryAddress") }
    else if code == RECOVERY_NOT_PENDING { Some("RecoveryNotPending") }
    else if code == RECOVERY_DELAY_ACTIVE { Some("RecoveryDelayActive") }
    else if code == EXECUTION_NOT_READY { Some("ExecutionNotReady") }
    else if code == OPERATION_NOT_SCHEDULED { Some("OperationNotScheduled") }
    else if code == OPERATION_ALREADY_SCHEDULED { Some("OperationAlreadyScheduled") }
    else if code == INVALID_WASM_INTERFACE { Some("InvalidWasmInterface") }
    else if code == INVALID_THRESHOLD { Some("InvalidThreshold") }
    else if code == ALREADY_PAUSED { Some("AlreadyPaused") }
    else if code == ALREADY_UNPAUSED { Some("AlreadyUnpaused") }
    else { None }
}

/// All codes of the shared `1..=99` range, paired with their names, in
/// registry order.
pub fn shared_codes() -> (r: Vec<(&'static str, u32)>)
    ensures
        r@.len() == 16,
        forall|i: int| 0 <= i < 16 ==> r@[i].1 == i + 1,
        forall|i: int| 0 <= i < 16 ==> shared_code_name(#[trigger] r@[i].1) == Some(r@[i].0@),
{
    let mut v: Vec<(&'static str, u32)> = Vec::new();
    let mut code: u32 = 1;
    while code <= 16
        invariant
            1 <= code <= 17,
            v@.len() == code - 1,
            forall|i: int| 0 <= i < v@.len() ==> v@[i].1 == i + 1,
            forall|i: int| 0 <= i < v@.len() ==> shared_code_name(#[trigger] v@[i].1) == Some(v@[i].0@),
        decreases 17 - code,
    {
        let name = shared_name_for_code(code);
        match name {
            Some(n) => v.push((n, code)),
            None => {
                assert(false);
            },
        }
        code = code + 1;
    }
    v
}

/// An entry of a contract's `(name, code)` table is consistent with the
/// registry: a shared code carries the registry's name, and any other code
/// lies at or above the contract's reserved range start.
pub open spec fn code_entry_consistent(name: Seq<char>, code: u32, range_start: u32) -> bool {
    match shared_code_name(code) {
        Some(shared) => name == shared,
        None => code >= range_start,
    }
}

/// The first entry of a contract's error table that breaks the registry.
#[derive(Clone, Copy, Debug, PartialEq, Eq, Structural)]
pub enum CodeCollision {
    /// The code at `index` is reserved for a shared concept of another name.
    ReservedForSharedConcept { index: usize, code: u32 },
    /// The code at `index` is not shared and lies below the contract's range.
    OutsideReservedRange { index: usize, code: u32 },
}

fn names_equal(a: &str, b: &str) -> (r: bool)
    ensures
        r == (a@ == b@),
{
    let a_owned = a.to_owned();
    let b_owned = b.to_owned();
    a_owned == b_owned
}

/// Checks that a contract's full `(name, code)` table is consistent with the
/// shared registry: every code it reuses from the shared range must be
/// attached to the registry's name, and every other code must lie at or
/// above `range_start`. Returns the first offending entry otherwise.
pub fn assert_no_code_collisions(contract_codes: &[(&str, u32)], range_start: u32) -> (r: Result<(), CodeCollision>)
    ensures
        r is Ok <==> forall|i: int| 0 <= i < contract_codes@.len()
            ==> code_entry_consistent(#[trigger] contract_codes@[i].0@, contract_codes@[i].1, range_start),
        r matches Err(c) ==> match c {
            CodeCollision::ReservedForSharedConcept { index, code } => {
                &&& index < contract_codes@.len()
                &&& code == contract_codes@[index as int].1
                &&& shared_code_name(code) is Some
                &&& !code_entry_consistent(contract_codes@[index as int].0@, code, range_start)
                &&& forall|i: int| 0 <= i < index ==> code_entry_consistent(
                    #[trigger] contract_codes@[i].0@, contract_codes@[i].1, range_start)
            },
            CodeCollision::OutsideReservedRange { index, code } => {
                &&& index < contract_codes@.len()
                &&& code == contract_codes@[index as int].1
                &&& shared_code_name(code) is None
                &&& code < range_start
                &&& forall|i: int| 0 <= i < index ==> code_entry_consistent(
                    #[trigger] contract_codes@[i].0@, contract_codes@[i].1, range_start)
            },
        },
{
    let mut i: usize = 0;
    while i < contract_codes.len()
        invariant
            i <= contract_codes@.len(),
            forall|j: int| 0 <= j < i ==> code_entry_consistent(
                #[trigger] contract_codes@[j].0@, contract_codes@[j].1, range_start),
        decreases contract_codes@.len() - i,
    {
        let (name, code) = contract_codes[i];
        match shared_name_for_code(code) {
            Some(shared) => {
                if !names_equal(name, shared) {
                    assert(!code_entry_consistent(contract_codes@[i as int].0@, contract_codes@[i as int].1, range_start));
                    return Err(CodeCollision::ReservedForSharedConcept { index: i, code });
                }
            },
            None => {
                if code < range_start {
                    assert(!code_entry_consistent(contract_codes@[i as int].0@, contract_codes@[i as int].1, range_start));
                    return Err(CodeCollision::OutsideReservedRange { index: i, code });
                }
            },
        }
        i = i + 1;
    }
    Ok(())
}

} // verus!
