//! The Keccak-256 digest, taken from the `alloy-primitives` crate.
//!
//! The relayer needs the digest only to derive function selectors and the
//! event-signature topic.  The digest itself is not restated here: it gets a
//! name, `keccak_of`, and everything proved about calldata goes through that
//! name.

use vstd::prelude::*;
use crate::bytes::copy_range;

verus! {

/// The Keccak-256 digest of a byte sequence.
pub uninterp spec fn keccak_of(data: Seq<u8>) -> Seq<u8>;

/// Relies on `alloy_primitives::keccak256`: the 32-byte Keccak-256 digest,
/// a function of the input bytes alone.
#[verifier::external_body]
fn keccak256_bytes(data: &Vec<u8>) -> (r: Vec<u8>)
    ensures
        r@ == keccak_of(data@),
        r@.len() == 32,
{
    alloy_primitives::keccak256(data.as_slice()).0.to_vec()
}

/// The 32-byte Keccak-256 digest of `data`.
pub fn keccak256_digest(data: &Vec<u8>) -> (r: Vec<u8>)
    ensures
        r@ == keccak_of(data@),
        r@.len() == 32,
{
    keccak256_bytes(data)
}

/// The 4-byte function selector for an ASCII function signature.
pub fn selector_of(signature: &Vec<u8>) -> (r: Vec<u8>)
    ensures
        r@ == keccak_of(signature@).subrange(0, 4),
        r@.len() == 4,
{
    let digest = keccak256_bytes(signature);
    copy_range(&digest, 0, 4)
}

} // verus!
