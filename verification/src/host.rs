//! The service of the Soroban host that the contract's logic uses: SHA-256
//! hashing.

use vstd::prelude::*;

verus! {

/// The Soroban environment handle.
#[verifier::external_type_specification]
#[verifier::external_body]
pub struct ExEnv(soroban_sdk::Env);

/// The SHA-256 digest of a byte string, as the Soroban host computes it.
pub uninterp spec fn sha256_digest(data: Seq<u8>) -> Seq<u8>;

/// Calls `soroban_sdk::crypto::Crypto::sha256` on `data` (copied into host
/// `Bytes`) and returns the 32-byte digest. The contract claims that the
/// digest is the name `sha256_digest` applied to the bytes, nothing more.
/// It does not state that the host aborts the invocation when hashing exceeds its
/// resource budget, which depends on the invocation and not on `data`.
#[verifier::external_body]
pub(crate) fn sha256(env: &soroban_sdk::Env, data: &Vec<u8>) -> (r: [u8; 32])
    ensures
        r@ == sha256_digest(data@),
{
    env.crypto().sha256(&soroban_sdk::Bytes::from_slice(env, data.as_slice())).to_array()
}

} // verus!
