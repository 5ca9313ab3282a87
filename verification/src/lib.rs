//! Succinct light-client verification for a proof-of-work chain and a BFT chain:
//! header validation, Merkle inclusion, proof-chain accumulation and the
//! consistency checks that tie a consensus proof to a state-membership proof.

use vstd::prelude::*;

pub mod accumulator;
pub mod babylon;
pub mod bitcoin;
pub mod bytes;
pub mod provers;
pub mod uint256;

verus! {

/// The SHA-256 digest of a byte string.
///
/// The digest is computed by the `sha2` crate; its value is not modelled
/// beyond being a function of the input with a 32-byte result.
pub uninterp spec fn sha256(data: Seq<u8>) -> [u8; 32];

/// Whether `x` and `y` are two byte strings with one digest.
pub open spec fn sha256_collides(x: Seq<u8>, y: Seq<u8>) -> bool {
    x != y && sha256(x) == sha256(y)
}

/// Whether any two byte strings have one digest.
///
/// There are more byte strings than digests, so such pairs exist; none is
/// known, and what this library shows of commitments holds as long as none
/// is found.
pub open spec fn sha256_collision_exists() -> bool {
    exists|x: Seq<u8>, y: Seq<u8>| sha256_collides(x, y)
}

/// Hashes `bytes` with SHA-256.
///
/// Trusted: calls `sha2::Sha256::digest` and names its result [`sha256`].
#[verifier::external_body]
pub fn sha256_hash(bytes: &[u8]) -> (digest: [u8; 32])
    ensures
        digest == sha256(bytes@),
{
    <sha2::Sha256 as sha2::Digest>::digest(bytes).into()
}

} // verus!
