//! The Keccak-256 digest that seals every sync payload, computed by the
//! MultiversX framework's crypto API.
use multiversx_sc::contract_base::CryptoWrapper;
use multiversx_sc::types::ManagedBuffer;
use multiversx_sc_scenario::api::StaticApi;
use vstd::prelude::*;

verus! {

/// The Keccak-256 digest of a byte string.
pub uninterp spec fn keccak256_digest(data: Seq<u8>) -> Seq<u8>;

/// Calls `CryptoWrapper::keccak256` of `multiversx_sc` (backed here by the
/// scenario crate's `StaticApi`, the same VM hook that contracts reach through
/// `self.crypto()`). Trusted to return the 32-byte digest of `data`, which is a
/// function of `data` alone; which 32 bytes those are is left to the name.
#[verifier::external_body]
pub(crate) fn keccak256(data: &Vec<u8>) -> (digest: Vec<u8>)
    ensures
        digest@ == keccak256_digest(data@),
        digest@.len() == 32,
{
    let buffer = ManagedBuffer::<StaticApi>::new_from_bytes(data.as_slice());
    let hash = CryptoWrapper::<StaticApi>::new().keccak256(&buffer);
    hash.to_byte_array().to_vec()
}

} // verus!
