//! Keccak-256 hashing, done by the Solana keccak hasher.
use vstd::prelude::*;

verus! {

/// The Keccak-256 hash of the given byte strings, hashed one after the other.
pub uninterp spec fn spec_keccak(parts: Seq<Seq<u8>>) -> Seq<u8>;

/// Calls `solana_program::keccak::hashv`, which hashes the parts in order with Keccak-256.
/// The contract names the 32-byte result as a function of the parts.
#[verifier::external_body]
pub(crate) fn keccak_hashv(parts: &Vec<Vec<u8>>) -> (r: [u8; 32])
    ensures
        r@ == spec_keccak(parts.deep_view()),
{
    let refs: Vec<&[u8]> = parts.iter().map(|p| p.as_slice()).collect();
    solana_program::keccak::hashv(&refs).to_bytes()
}

} // verus!
