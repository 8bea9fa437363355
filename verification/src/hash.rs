//! SHA-256, as the Soroban host computes it.

use vstd::prelude::*;

verus! {

/// Longest input, in bytes, that [`sha256`] is given.
///
/// Hashing this many bytes stays far below the processor and memory budget
/// that a freshly made host grants.
pub const MAX_HASH_INPUT_LEN: usize = 65536;

/// The SHA-256 digest of `data`.
pub uninterp spec fn sha256_digest(data: Seq<u8>) -> Seq<u8>;

/// The SHA-256 digest of `data`, computed by `soroban_sdk::crypto::Crypto::sha256`
/// on a host of its own.
///
/// The contract claims that the 32 bytes returned are the SHA-256 digest of
/// exactly the bytes of `data`: the input reaches the host unchanged through
/// `Bytes::from_slice`, and the digest comes back unchanged through
/// `Hash::to_array`. The host charges its budget for each of the three calls
/// and fails when the budget is spent; `requires` keeps the input short
/// enough for the default budget of the host that `Env::default` makes.
#[verifier::external_body]
pub(crate) fn sha256(data: &Vec<u8>) -> (digest: [u8; 32])
    requires
        data@.len() <= MAX_HASH_INPUT_LEN,
    ensures
        digest@ == sha256_digest(data@),
{
    let env = soroban_sdk::Env::default();
    let input = soroban_sdk::Bytes::from_slice(&env, data.as_slice());
    env.crypto().sha256(&input).to_array()
}

} // verus!
