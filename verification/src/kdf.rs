//! Key derivation: BLAKE2b with a 32-byte digest, unkeyed and without
//! personalization.

use vstd::prelude::*;

verus! {

/// The 32-byte BLAKE2b digest of `input`.
pub uninterp spec fn blake2b_256(input: Seq<u8>) -> Seq<u8>;

/// Trusted: `blake2b_simd`, with `Params::hash_length(32)`, one `State::update`
/// and `State::finalize`. The digest has 32 bytes and is a function of the input
/// alone.
#[verifier::external_body]
pub(crate) fn hash_256(input: &[u8]) -> (out: [u8; 32])
    ensures
        out@ == blake2b_256(input@),
{
    let hash = blake2b_simd::Params::new().hash_length(32).to_state().update(input).finalize();
    let mut out = [0u8; 32];
    out.copy_from_slice(hash.as_bytes());
    out
}

} // verus!
