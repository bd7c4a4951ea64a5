//! The one computation the contracts take from the Soroban host: SHA-256.
use vstd::prelude::*;

verus! {

#[verifier::external_type_specification]
#[verifier::external_body]
pub struct ExEnv(soroban_sdk::Env);

/// The SHA-256 digest of `data`, as the Soroban host computes it.
pub uninterp spec fn sha256_digest(data: Seq<u8>) -> Seq<u8>;

/// The longest input the contracts hash: 16 KiB. The host meters SHA-256 at
/// about 55 CPU instructions per byte plus a constant, so hashing an input
/// of this length costs under a million instructions, about 1 % of the
/// default budget of 100 million. Callers refuse longer inputs before hashing.
pub const MAX_HASH_INPUT_LEN: usize = 16_384;

/// Calls `soroban_sdk::crypto::Crypto::sha256` on `data` (copied into host
/// `Bytes` first). The contract claims only that the 32-byte result is the
/// digest of `data`, a function of `data` alone. Inputs are bounded by
/// `MAX_HASH_INPUT_LEN`, which keeps the metering charge of the call a small
/// fraction of the host budget.
#[verifier::external_body]
pub(crate) fn sha256(env: &soroban_sdk::Env, data: &Vec<u8>) -> (r: [u8; 32])
    requires
        data@.len() <= MAX_HASH_INPUT_LEN,
    ensures
        r@ == sha256_digest(data@),
{
    env.crypto().sha256(&soroban_sdk::Bytes::from_slice(env, data.as_slice())).to_array()
}

} // verus!
