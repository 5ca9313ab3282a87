//! The chain of proofs.
//!
//! Every proving step folds the hash of what it commits to into one 32-byte
//! accumulator. The first step hashes its own step hash; every later step
//! hashes the accumulator of the step before followed by its own step hash,
//! and may do so only once the proof of the step before has been verified.
//! Verifying that proof is the work of the proving backend: a step names
//! what has to be verified, the caller has it verified, and the step goes on
//! with the verdict.

use crate::bytes::append_bytes;
use crate::sha256;
use crate::sha256_hash;
use vstd::prelude::*;

verus! {

/// The accumulator after a first step with the given step hash.
pub open spec fn spec_first_accumulator(step_hash: Seq<u8>) -> Seq<u8> {
    sha256(step_hash)@
}

/// The accumulator after a later step: the digest of the accumulator
/// before, followed by the step hash.
pub open spec fn spec_next_accumulator(parent: Seq<u8>, step_hash: Seq<u8>) -> Seq<u8> {
    sha256(parent + step_hash)@
}

/// The accumulator after the step at `index`.
pub open spec fn spec_fold(index: int, parent: Seq<u8>, step_hash: Seq<u8>) -> Seq<u8> {
    if index == 0 {
        spec_first_accumulator(step_hash)
    } else {
        spec_next_accumulator(parent, step_hash)
    }
}

/// The accumulator over a whole chain of steps, given the hash of each.
pub open spec fn spec_accumulator(step_hashes: Seq<Seq<u8>>) -> Seq<u8>
    decreases step_hashes.len(),
{
    if step_hashes.len() <= 1 {
        spec_first_accumulator(step_hashes[0])
    } else {
        spec_next_accumulator(spec_accumulator(step_hashes.drop_last()), step_hashes.last())
    }
}

/// Each step of a chain folds its hash into the accumulator of the chain
/// before it: the accumulator over `n + 1` steps is the fold, at index `n`,
/// of the accumulator over the first `n` steps and the hash of the last.
pub proof fn lemma_accumulator_is_fold(step_hashes: Seq<Seq<u8>>)
    requires
        step_hashes.len() >= 1,
    ensures
        spec_accumulator(step_hashes) == spec_fold(
            step_hashes.len() - 1,
            spec_accumulator(step_hashes.drop_last()),
            step_hashes.last(),
        ),
{
}

/// What the backend has to verify before a step may go on: that a proof
/// made with the key of digest `vkey_u32_hash` commits to a record of hash
/// `committed_hash`.
#[derive(Clone, Copy, Debug)]
pub struct ProofCheck {
    pub vkey_u32_hash: [u32; 8],
    pub committed_hash: [u8; 32],
}

/// Why a step cannot fold its hash into the accumulator.
#[derive(Clone, Copy, Debug, PartialEq, Eq)]
pub enum ChainError {
    /// The backend refused the proof of the step before.
    ParentProofRejected,
    /// A later step was given no verdict on the proof of the step before.
    ParentProofUnchecked,
}

/// What has to be verified before the step at `index` folds: nothing for
/// the first step, and for a later one the proof of the step before, against
/// the hash of what that proof committed to.
pub fn parent_proof_check(index: u64, vkey_u32_hash: [u32; 8], parent_output_hash: [u8; 32]) -> (check:
    Option<ProofCheck>)
    ensures
        index == 0 ==> check is None,
        index != 0 ==> check == Some(
            ProofCheck { vkey_u32_hash, committed_hash: parent_output_hash },
        ),
{
    if index == 0 {
        None
    } else {
        Some(ProofCheck { vkey_u32_hash, committed_hash: parent_output_hash })
    }
}

/// The accumulator after a first step.
pub fn first_accumulator(step_hash: &[u8; 32]) -> (accumulator: [u8; 32])
    ensures
        accumulator@ == spec_first_accumulator(step_hash@),
{
    sha256_hash(step_hash.as_slice())
}

/// The accumulator after a later step.
pub fn next_accumulator(parent: &[u8; 32], step_hash: &[u8; 32]) -> (accumulator: [u8; 32])
    ensures
        accumulator@ == spec_next_accumulator(parent@, step_hash@),
{
    let mut bytes: Vec<u8> = Vec::with_capacity(64);
    append_bytes(&mut bytes, parent.as_slice());
    append_bytes(&mut bytes, step_hash.as_slice());
    sha256_hash(bytes.as_slice())
}

/// Folds the hash of the step at `index` into the accumulator.
///
/// `parent_verdict` is what the backend said of the check that
/// [`parent_proof_check`] names: a first step needs none, a later step
/// folds only on `Some(true)`.
pub fn fold_step(
    index: u64,
    parent: &[u8; 32],
    step_hash: &[u8; 32],
    parent_verdict: Option<bool>,
) -> (outcome: Result<[u8; 32], ChainError>)
    ensures
        index == 0 || parent_verdict == Some(true) <==> outcome is Ok,
        outcome is Ok ==> outcome->Ok_0@ == spec_fold(index as int, parent@, step_hash@),
        index != 0 && parent_verdict == Some(false) <==> outcome == Err::<[u8; 32], _>(
            ChainError::ParentProofRejected,
        ),
        index != 0 && parent_verdict is None <==> outcome == Err::<[u8; 32], _>(
            ChainError::ParentProofUnchecked,
        ),
{
    if index == 0 {
        Ok(first_accumulator(step_hash))
    } else {
        match parent_verdict {
            Some(true) => Ok(next_accumulator(parent, step_hash)),
            Some(false) => Err(ChainError::ParentProofRejected),
            None => Err(ChainError::ParentProofUnchecked),
        }
    }
}

} // verus!
