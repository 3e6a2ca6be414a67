//! The keccak-256 digest, named rather than restated: the library relies on
//! the outside implementation and records only what every caller needs.

use vstd::prelude::*;
use tiny_keccak::Hasher;

verus! {

/// What keccak-256 returns for `data`: a function of the bytes alone.
pub uninterp spec fn keccak256_of(data: Seq<u8>) -> Seq<u8>;

/// Relies on tiny_keccak's `Keccak::v256`: the keccak-256 digest of the
/// input, 32 bytes wide, a function of the input alone.
#[verifier::external_body]
pub(crate) fn keccak256(data: &Vec<u8>) -> (r: Vec<u8>)
    ensures
        r@ == keccak256_of(data@),
        r@.len() == 32,
{
    let mut hasher = tiny_keccak::Keccak::v256();
    hasher.update(data.as_slice());
    let mut out = [0u8; 32];
    hasher.finalize(&mut out);
    out.to_vec()
}

} // verus!
