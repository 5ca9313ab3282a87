//! Public values of the proof-of-work consensus proof.

use crate::accumulator::ChainError;
use crate::accumulator::fold_step;
use crate::accumulator::parent_proof_check;
use crate::accumulator::ProofCheck;
use crate::accumulator::spec_fold;
use crate::bitcoin::block::BlockValidationError;
use crate::bitcoin::block::CircuitBlock;
use crate::bitcoin::block::spec_validate_block;
use crate::bitcoin::block::validate_block;
use crate::bytes::append_bytes;
use crate::bytes::DecodeError;
use crate::bytes::lemma_u64_le_bytes_round_trip;
use crate::bytes::lemma_u64_le_round_trip;
use crate::bytes::read_bytes32;
use crate::bytes::read_u64_le;
use crate::bytes::u64_to_le;
use crate::bytes::write_u64_le;
use crate::sha256;
use crate::sha256_hash;
use vstd::prelude::*;

verus! {

/// What one proved block commits to.
#[derive(Default, Clone, Copy, Debug)]
pub struct ConsensusBlockPublicInput {
    /// Hash of the block before the proposed one, little-endian.
    pub prev_block_hash: [u8; 32],
    /// Hash of the proposed block, little-endian.
    pub proposed_block_hash: [u8; 32],
    /// Hash of the block that opened the difficulty epoch, little-endian.
    pub retarget_block_hash: [u8; 32],
    /// Hash of the median block of the previous eleven, little-endian.
    pub median_block_hash: [u8; 32],
    /// Transaction Merkle root of the deep-confirmation block.
    pub m_deep_tx_merkle_root: [u8; 32],
    /// Height of the proposed block.
    pub proposed_block_height: u64,
}

impl ConsensusBlockPublicInput {
    /// The record with the given fields.
    pub fn new(
        prev_block_hash: [u8; 32],
        proposed_block_hash: [u8; 32],
        retarget_block_hash: [u8; 32],
        median_block_hash: [u8; 32],
        m_deep_tx_merkle_root: [u8; 32],
        proposed_block_height: u64,
    ) -> (input: Self)
        ensures
            input == (Self {
                prev_block_hash,
                proposed_block_hash,
                retarget_block_hash,
                median_block_hash,
                m_deep_tx_merkle_root,
                proposed_block_height,
            }),
    {
        Self {
            prev_block_hash,
            proposed_block_hash,
            retarget_block_hash,
            median_block_hash,
            m_deep_tx_merkle_root,
            proposed_block_height,
        }
    }

    /// The record's 168 bytes: the five digests in order, then the height,
    /// little-endian.
    pub open spec fn spec_serialize(&self) -> Seq<u8> {
        self.prev_block_hash@ + self.proposed_block_hash@ + self.retarget_block_hash@
            + self.median_block_hash@ + self.m_deep_tx_merkle_root@ + u64_to_le(
            self.proposed_block_height,
        )
    }

    /// The SHA-256 digest of the record's bytes.
    pub open spec fn spec_hash(&self) -> Seq<u8> {
        sha256(self.spec_serialize())@
    }

    /// The record's 168 bytes.
    pub fn serialize(&self) -> (bytes: Vec<u8>)
        ensures
            bytes@ == self.spec_serialize(),
            bytes@.len() == 168,
    {
        let mut bytes: Vec<u8> = Vec::with_capacity(168);
        append_bytes(&mut bytes, self.prev_block_hash.as_slice());
        append_bytes(&mut bytes, self.proposed_block_hash.as_slice());
        append_bytes(&mut bytes, self.retarget_block_hash.as_slice());
        append_bytes(&mut bytes, self.median_block_hash.as_slice());
        append_bytes(&mut bytes, self.m_deep_tx_merkle_root.as_slice());
        let height = write_u64_le(self.proposed_block_height);
        append_bytes(&mut bytes, height.as_slice());
        bytes
    }

    /// The SHA-256 digest of the record's 168 bytes: the step hash.
    pub fn compute_hash(&self) -> (hash: [u8; 32])
        ensures
            hash@ == self.spec_hash(),
    {
        let bytes = self.serialize();
        sha256_hash(bytes.as_slice())
    }

    /// Two records with the same bytes are the same record.
    pub proof fn lemma_serialize_injective(
        a: ConsensusBlockPublicInput,
        b: ConsensusBlockPublicInput,
    )
        requires
            a.spec_serialize() == b.spec_serialize(),
        ensures
            a == b,
    {
        let ea = a.spec_serialize();
        let eb = b.spec_serialize();
        assert(ea.subrange(0, 32) =~= a.prev_block_hash@);
        assert(eb.subrange(0, 32) =~= b.prev_block_hash@);
        assert(ea.subrange(32, 64) =~= a.proposed_block_hash@);
        assert(eb.subrange(32, 64) =~= b.proposed_block_hash@);
        assert(ea.subrange(64, 96) =~= a.retarget_block_hash@);
        assert(eb.subrange(64, 96) =~= b.retarget_block_hash@);
        assert(ea.subrange(96, 128) =~= a.median_block_hash@);
        assert(eb.subrange(96, 128) =~= b.median_block_hash@);
        assert(ea.subrange(128, 160) =~= a.m_deep_tx_merkle_root@);
        assert(eb.subrange(128, 160) =~= b.m_deep_tx_merkle_root@);
        assert(ea.subrange(160, 168) =~= u64_to_le(a.proposed_block_height));
        assert(eb.subrange(160, 168) =~= u64_to_le(b.proposed_block_height));
        lemma_u64_le_round_trip(a.proposed_block_height);
        lemma_u64_le_round_trip(b.proposed_block_height);
        assert(a.prev_block_hash =~= b.prev_block_hash);
        assert(a.proposed_block_hash =~= b.proposed_block_hash);
        assert(a.retarget_block_hash =~= b.retarget_block_hash);
        assert(a.median_block_hash =~= b.median_block_hash);
        assert(a.m_deep_tx_merkle_root =~= b.m_deep_tx_merkle_root);
    }

    /// Reads a record from its 168 bytes.
    ///
    /// Any other length is refused; every string of 168 bytes is the
    /// encoding of exactly one record, which is returned.
    pub fn deserialize(data: &[u8]) -> (outcome: Result<Self, DecodeError>)
        ensures
            data@.len() != 168 ==> outcome == Err::<Self, _>(
                DecodeError::LengthMismatch { expected: 168, actual: data@.len() as usize },
            ),
            data@.len() == 168 ==> outcome is Ok && outcome->Ok_0.spec_serialize() == data@,
            forall|record: ConsensusBlockPublicInput|
                record.spec_serialize() == data@ ==> outcome == Ok::<Self, DecodeError>(record),
    {
        if data.len() != 168 {
            return Err(DecodeError::LengthMismatch { expected: 168, actual: data.len() });
        }
        let record = ConsensusBlockPublicInput {
            prev_block_hash: read_bytes32(data, 0),
            proposed_block_hash: read_bytes32(data, 32),
            retarget_block_hash: read_bytes32(data, 64),
            median_block_hash: read_bytes32(data, 96),
            m_deep_tx_merkle_root: read_bytes32(data, 128),
            proposed_block_height: read_u64_le(data, 160),
        };
        proof {
            lemma_u64_le_bytes_round_trip(data@.subrange(160, 168));
            assert(record.spec_serialize() =~= data@);
            assert forall|other: ConsensusBlockPublicInput|
                other.spec_serialize() == data@ implies record == other by {
                Self::lemma_serialize_injective(record, other);
            }
        }
        Ok(record)
    }
}

/// The headers that one proving step reads.
#[derive(Debug, Clone, Default)]
pub struct ConsensusWitness {
    /// At least eleven trusted headers, then the proposed one.
    pub proposed_chain: Vec<CircuitBlock>,
    /// The header that opened the difficulty epoch; at an epoch boundary,
    /// the one that opened the epoch before.
    pub retarget_block: CircuitBlock,
}

impl ConsensusWitness {
    /// The witness with the given window and retarget header.
    pub fn new(proposed_chain: Vec<CircuitBlock>, retarget_block: CircuitBlock) -> (witness: Self)
        ensures
            witness.proposed_chain == proposed_chain,
            witness.retarget_block == retarget_block,
    {
        Self { proposed_chain, retarget_block }
    }
}

/// What the chain of proofs commits to after a step.
#[derive(Debug, Clone, Default, Copy)]
pub struct ConsensusVerifierPublicInput {
    /// The accumulator over the public values of every block proved so far.
    pub compressed_block_public_input: [u8; 32],
    /// Transaction Merkle root of the deep-confirmation block.
    pub m_deep_tx_merkle_root: [u8; 32],
    /// Height of the last block proved.
    pub current_block_height: u64,
}

impl ConsensusVerifierPublicInput {
    /// The record with the given fields.
    pub fn new(
        compressed_block_public_input: [u8; 32],
        m_deep_tx_merkle_root: [u8; 32],
        current_block_height: u64,
    ) -> (input: Self)
        ensures
            input == (Self {
                compressed_block_public_input,
                m_deep_tx_merkle_root,
                current_block_height,
            }),
    {
        Self { compressed_block_public_input, m_deep_tx_merkle_root, current_block_height }
    }

    /// The record's 72 bytes: the two digests, then the height,
    /// little-endian.
    pub open spec fn spec_serialize(&self) -> Seq<u8> {
        self.compressed_block_public_input@ + self.m_deep_tx_merkle_root@ + u64_to_le(
            self.current_block_height,
        )
    }

    /// The SHA-256 digest of the record's bytes.
    pub open spec fn spec_hash(&self) -> Seq<u8> {
        sha256(self.spec_serialize())@
    }

    /// The record's 72 bytes.
    pub fn serialize(&self) -> (bytes: Vec<u8>)
        ensures
            bytes@ == self.spec_serialize(),
            bytes@.len() == 72,
    {
        let mut bytes: Vec<u8> = Vec::with_capacity(72);
        append_bytes(&mut bytes, self.compressed_block_public_input.as_slice());
        append_bytes(&mut bytes, self.m_deep_tx_merkle_root.as_slice());
        let height = write_u64_le(self.current_block_height);
        append_bytes(&mut bytes, height.as_slice());
        bytes
    }

    /// The SHA-256 digest of the record's 72 bytes.
    pub fn compute_hash(&self) -> (hash: [u8; 32])
        ensures
            hash@ == self.spec_hash(),
    {
        let bytes = self.serialize();
        sha256_hash(bytes.as_slice())
    }

    /// Two records with the same bytes are the same record.
    pub proof fn lemma_serialize_injective(
        a: ConsensusVerifierPublicInput,
        b: ConsensusVerifierPublicInput,
    )
        requires
            a.spec_serialize() == b.spec_serialize(),
        ensures
            a == b,
    {
        let ea = a.spec_serialize();
        let eb = b.spec_serialize();
        assert(ea.subrange(0, 32) =~= a.compressed_block_public_input@);
        assert(eb.subrange(0, 32) =~= b.compressed_block_public_input@);
        assert(ea.subrange(32, 64) =~= a.m_deep_tx_merkle_root@);
        assert(eb.subrange(32, 64) =~= b.m_deep_tx_merkle_root@);
        assert(ea.subrange(64, 72) =~= u64_to_le(a.current_block_height));
        assert(eb.subrange(64, 72) =~= u64_to_le(b.current_block_height));
        lemma_u64_le_round_trip(a.current_block_height);
        lemma_u64_le_round_trip(b.current_block_height);
        assert(a.compressed_block_public_input =~= b.compressed_block_public_input);
        assert(a.m_deep_tx_merkle_root =~= b.m_deep_tx_merkle_root);
    }

    /// Reads a record from its 72 bytes.
    ///
    /// Any other length is refused; every string of 72 bytes is the
    /// encoding of exactly one record, which is returned.
    pub fn deserialize(data: &[u8]) -> (outcome: Result<Self, DecodeError>)
        ensures
            data@.len() != 72 ==> outcome == Err::<Self, _>(
                DecodeError::LengthMismatch { expected: 72, actual: data@.len() as usize },
            ),
            data@.len() == 72 ==> outcome is Ok && outcome->Ok_0.spec_serialize() == data@,
            forall|record: ConsensusVerifierPublicInput|
                record.spec_serialize() == data@ ==> outcome == Ok::<Self, DecodeError>(record),
    {
        if data.len() != 72 {
            return Err(DecodeError::LengthMismatch { expected: 72, actual: data.len() });
        }
        let record = ConsensusVerifierPublicInput {
            compressed_block_public_input: read_bytes32(data, 0),
            m_deep_tx_merkle_root: read_bytes32(data, 32),
            current_block_height: read_u64_le(data, 64),
        };
        proof {
            lemma_u64_le_bytes_round_trip(data@.subrange(64, 72));
            assert(record.spec_serialize() =~= data@);
            assert forall|other: ConsensusVerifierPublicInput|
                other.spec_serialize() == data@ implies record == other by {
                Self::lemma_serialize_injective(record, other);
            }
        }
        Ok(record)
    }
}

/// Everything one proving step reads.
#[derive(Debug, Clone, Default)]
pub struct ConsensusInput {
    /// Position of the step in the chain of proofs, from 0.
    pub seq: u32,
    /// Digest of the verification key of the consensus circuit.
    pub circuit_vkey_u32_hash: [u32; 8],
    /// What the proof of the step before committed to.
    pub parent_proof_commitment: ConsensusVerifierPublicInput,
    /// What this step's block commits to.
    pub block_public_input: ConsensusBlockPublicInput,
    /// The headers of this step.
    pub witness: ConsensusWitness,
}

impl ConsensusInput {
    /// The input with the given fields.
    pub fn new(
        seq: u32,
        circuit_vkey_u32_hash: [u32; 8],
        parent_proof_commitment: ConsensusVerifierPublicInput,
        block_public_input: ConsensusBlockPublicInput,
        witness: ConsensusWitness,
    ) -> (input: Self)
        ensures
            input == (Self {
                seq,
                circuit_vkey_u32_hash,
                parent_proof_commitment,
                block_public_input,
                witness,
            }),
    {
        Self { seq, circuit_vkey_u32_hash, parent_proof_commitment, block_public_input, witness }
    }
}

/// Why a consensus step yields no output.
#[derive(Clone, Copy, Debug, PartialEq, Eq)]
pub enum ConsensusStepError {
    /// The step cannot be chained to the one before.
    Chain(ChainError),
    /// The window of headers breaks a rule of the chain.
    Block(BlockValidationError),
}

/// What the backend has to verify before the step described by `input` may
/// go on: nothing for the first step, and for a later one the proof of the
/// step before, against the hash of what that proof committed to.
pub fn step_parent_check(input: &ConsensusInput) -> (check: Option<ProofCheck>)
    ensures
        input.seq == 0 ==> check is None,
        input.seq != 0 ==> check is Some && check->Some_0.vkey_u32_hash
            == input.circuit_vkey_u32_hash && check->Some_0.committed_hash@
            == input.parent_proof_commitment.spec_hash(),
{
    if input.seq == 0 {
        None
    } else {
        let hash = input.parent_proof_commitment.compute_hash();
        parent_proof_check(input.seq as u64, input.circuit_vkey_u32_hash, hash)
    }
}

/// The outcome of a consensus step: the chaining error, else the first
/// rule of the chain that the window breaks, else the bytes of what the
/// step commits to.
pub open spec fn spec_consensus_step(input: ConsensusInput, parent_verdict: Option<bool>) -> Result<
    Seq<u8>,
    ConsensusStepError,
> {
    if input.seq != 0 && parent_verdict == Some(false) {
        Err(ConsensusStepError::Chain(ChainError::ParentProofRejected))
    } else if input.seq != 0 && parent_verdict is None {
        Err(ConsensusStepError::Chain(ChainError::ParentProofUnchecked))
    } else {
        match spec_validate_block(
            input.witness.proposed_chain@,
            input.witness.retarget_block,
            input.block_public_input,
        ) {
            Err(e) => Err(ConsensusStepError::Block(e)),
            Ok(()) => Ok(
                spec_fold(
                    input.seq as int,
                    input.parent_proof_commitment.compressed_block_public_input@,
                    input.block_public_input.spec_hash(),
                ) + input.block_public_input.m_deep_tx_merkle_root@ + u64_to_le(
                    input.block_public_input.proposed_block_height,
                ),
            ),
        }
    }
}

/// Runs one consensus step.
///
/// `parent_verdict` is what the backend said of the check that
/// [`step_parent_check`] names. The step must be chained to the one before
/// and its window must meet every rule of the chain; it then commits to the
/// accumulator with the hash of its block folded in, to the Merkle root of
/// the deep-confirmation block and to the height of the proposed block.
pub fn consensus_step(input: ConsensusInput, parent_verdict: Option<bool>) -> (outcome: Result<
    ConsensusVerifierPublicInput,
    ConsensusStepError,
>)
    ensures
        match outcome {
            Ok(output) => spec_consensus_step(input, parent_verdict) == Ok::<
                _,
                ConsensusStepError,
            >(output.spec_serialize()),
            Err(e) => spec_consensus_step(input, parent_verdict) == Err::<Seq<u8>, _>(e),
        },
{
    let step_hash = input.block_public_input.compute_hash();
    let accumulator = match fold_step(
        input.seq as u64,
        &input.parent_proof_commitment.compressed_block_public_input,
        &step_hash,
        parent_verdict,
    ) {
        Ok(accumulator) => accumulator,
        Err(e) => {
            return Err(ConsensusStepError::Chain(e));
        },
    };
    let block_public_input = input.block_public_input;
    match validate_block(
        input.witness.proposed_chain,
        input.witness.retarget_block,
        block_public_input,
    ) {
        Err(e) => Err(ConsensusStepError::Block(e)),
        Ok(()) => Ok(
            ConsensusVerifierPublicInput::new(
                accumulator,
                block_public_input.m_deep_tx_merkle_root,
                block_public_input.proposed_block_height,
            ),
        ),
    }
}

} // verus!
