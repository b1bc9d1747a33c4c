//! The non-cryptographic hash behind the one-byte header checksum.

use vstd::prelude::*;

verus! {

/// The XXH32 digest of a byte sequence under a seed. The digest is a pure
/// function of the seed and the bytes alone; its definition is the XXH32
/// algorithm, which this crate calls rather than restates.
pub uninterp spec fn xxh32(seed: u32, data: Seq<u8>) -> u32;

/// Relies on `twox_hash::XxHash32::oneshot`, which computes the XXH32
/// digest of `data` under `seed` in one pass.
#[verifier::external_body]
pub(crate) fn xxh32_digest(seed: u32, data: &[u8]) -> (r: u32)
    ensures
        r == xxh32(seed, data@),
{
    twox_hash::XxHash32::oneshot(seed, data)
}

} // verus!
