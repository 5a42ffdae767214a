use vstd::prelude::*;
use soroban_sdk::{Bytes, Env};

verus! {

/// The host environment, carried through to the host's functions.
#[verifier::external_type_specification]
#[verifier::external_body]
pub struct ExEnv(soroban_sdk::Env);

/// The SHA-256 digest of a byte string.
pub uninterp spec fn sha256_of(data: Seq<u8>) -> Seq<u8>;

/// Relies on `soroban_sdk::crypto::Crypto::sha256`: the SHA-256 digest of the
/// bytes, 32 bytes long, which depends on the bytes alone.
#[verifier::external_body]
pub(crate) fn sha256(env: &Env, data: &Vec<u8>) -> (r: Vec<u8>)
    requires
        data@.len() <= u32::MAX,
    ensures
        r@ == sha256_of(data@),
        r@.len() == 32,
{
    env.crypto().sha256(&Bytes::from_slice(env, data.as_slice())).to_array().to_vec()
}

/// The Keccak-256 digest of a byte string.
pub uninterp spec fn keccak256_of(data: Seq<u8>) -> Seq<u8>;

/// Relies on `soroban_sdk::crypto::Crypto::keccak256`: the Keccak-256 digest
/// of the bytes, 32 bytes long, which depends on the bytes alone.
#[verifier::external_body]
pub(crate) fn keccak256(env: &Env, data: &Vec<u8>) -> (r: Vec<u8>)
    requires
        data@.len() <= u32::MAX,
    ensures
        r@ == keccak256_of(data@),
        r@.len() == 32,
{
    env.crypto().keccak256(&Bytes::from_slice(env, data.as_slice())).to_array().to_vec()
}

} // verus!
