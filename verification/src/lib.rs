//! BettaPay: the governance and settlement contracts of the BettaPay payment
//! protocol, modelled as verified state machines over plain values.
use vstd::prelude::*;

pub mod address;
pub mod constants;
pub mod crypto;
pub mod error_codes;
pub mod errors;
pub mod events;
pub mod fees;
pub mod governance;
pub mod governance_laws;
pub mod multisig;
pub mod settlement;
pub mod table;
pub mod types;

verus! {
} // verus!
