//! The BFT chain: what a consensus proof and a membership proof commit to,
//! their fixed byte layouts, and the checks that tie the two together.

use crate::accumulator::ProofCheck;
use crate::bytes::append_bytes;
use crate::bytes::bytes32_eq;
use crate::bytes::lemma_u64_le_bytes_round_trip;
use crate::bytes::lemma_u64_le_round_trip;
use crate::bytes::read_bytes32;
use crate::bytes::read_u64_le;
use crate::bytes::u64_to_le;
use crate::bytes::write_u64_le;
use crate::sha256;
use crate::sha256_hash;
use ibc_core_commitment_types::commitment::CommitmentRoot;
use ibc_core_commitment_types::merkle::MerklePath;
use ibc_core_commitment_types::merkle::MerkleProof;
use ibc_core_commitment_types::proto::ics23::HostFunctionsManager;
use ibc_core_commitment_types::proto::v1::MerkleProof as RawProof;
use ibc_core_commitment_types::specs::ProofSpecs;
use ibc_core_host_types::path::PathBytes;
use ibc_proto::Protobuf;
use vstd::prelude::*;

pub mod consensus;

pub use crate::babylon::consensus::ConsensusInput;
pub use crate::babylon::consensus::ConsensusWitness;
pub use crate::bytes::DecodeError;

verus! {

/// What a consensus proof of the BFT chain commits to.
#[derive(Clone, Copy, Debug)]
pub struct TendermintOutput {
    /// Height of the last trusted block, the root of trust.
    pub trusted_height: u64,
    /// Height of the block proved valid.
    pub target_height: u64,
    /// Hash of the header at `trusted_height`.
    pub trusted_header_hash: [u8; 32],
    /// Hash of the header at `target_height`.
    pub target_header_hash: [u8; 32],
    /// The accumulator over every step of the chain of proofs.
    pub compressed_block_public_input: [u8; 32],
    /// Application state root in the header proved valid.
    pub app_hash: [u8; 32],
}

impl Default for TendermintOutput {
    /// The record of heights zero and digests of zero bytes.
    fn default() -> (output: Self)
        ensures
            output.trusted_height == 0,
            output.target_height == 0,
            output.trusted_header_hash@ == Seq::new(32, |i: int| 0u8),
            output.target_header_hash@ == Seq::new(32, |i: int| 0u8),
            output.compressed_block_public_input@ == Seq::new(32, |i: int| 0u8),
            output.app_hash@ == Seq::new(32, |i: int| 0u8),
    {
        let zero: [u8; 32] = [0u8; 32];
        assert(zero@ =~= Seq::new(32, |i: int| 0u8));
        TendermintOutput {
            trusted_height: 0,
            target_height: 0,
            trusted_header_hash: zero,
            target_header_hash: zero,
            compressed_block_public_input: zero,
            app_hash: zero,
        }
    }
}

impl TendermintOutput {
    /// Length of the record's layout.
    pub const BYTE_SIZE: usize = 144;

    /// The record's 144 bytes: the two heights, little-endian, then the
    /// four digests in order.
    pub open spec fn spec_encode(&self) -> Seq<u8> {
        u64_to_le(self.trusted_height) + u64_to_le(self.target_height) + self.trusted_header_hash@
            + self.target_header_hash@ + self.compressed_block_public_input@ + self.app_hash@
    }

    /// The SHA-256 digest of the record's bytes.
    pub open spec fn spec_hash(&self) -> Seq<u8> {
        sha256(self.spec_encode())@
    }

    /// Two records with the same bytes are the same record.
    pub proof fn lemma_encode_injective(a: TendermintOutput, b: TendermintOutput)
        requires
            a.spec_encode() == b.spec_encode(),
        ensures
            a == b,
    {
        let ea = a.spec_encode();
        let eb = b.spec_encode();
        assert(ea.subrange(0, 8) =~= u64_to_le(a.trusted_height));
        assert(eb.subrange(0, 8) =~= u64_to_le(b.trusted_height));
        assert(ea.subrange(8, 16) =~= u64_to_le(a.target_height));
        assert(eb.subrange(8, 16) =~= u64_to_le(b.target_height));
        lemma_u64_le_round_trip(a.trusted_height);
        lemma_u64_le_round_trip(b.trusted_height);
        lemma_u64_le_round_trip(a.target_height);
        lemma_u64_le_round_trip(b.target_height);
        assert(ea.subrange(16, 48) =~= a.trusted_header_hash@);
        assert(eb.subrange(16, 48) =~= b.trusted_header_hash@);
        assert(ea.subrange(48, 80) =~= a.target_header_hash@);
        assert(eb.subrange(48, 80) =~= b.target_header_hash@);
        assert(ea.subrange(80, 112) =~= a.compressed_block_public_input@);
        assert(eb.subrange(80, 112) =~= b.compressed_block_public_input@);
        assert(ea.subrange(112, 144) =~= a.app_hash@);
        assert(eb.subrange(112, 144) =~= b.app_hash@);
        assert(a.trusted_header_hash =~= b.trusted_header_hash);
        assert(a.target_header_hash =~= b.target_header_hash);
        assert(a.compressed_block_public_input =~= b.compressed_block_public_input);
        assert(a.app_hash =~= b.app_hash);
    }

    /// The record's 144 bytes.
    pub fn encode(&self) -> (out: Vec<u8>)
        ensures
            out@ == self.spec_encode(),
            out@.len() == 144,
    {
        let mut out: Vec<u8> = Vec::with_capacity(144);
        let trusted_height = write_u64_le(self.trusted_height);
        let target_height = write_u64_le(self.target_height);
        append_bytes(&mut out, trusted_height.as_slice());
        append_bytes(&mut out, target_height.as_slice());
        append_bytes(&mut out, self.trusted_header_hash.as_slice());
        append_bytes(&mut out, self.target_header_hash.as_slice());
        append_bytes(&mut out, self.compressed_block_public_input.as_slice());
        append_bytes(&mut out, self.app_hash.as_slice());
        out
    }

    /// Reads a record from its 144 bytes.
    ///
    /// Any other length is refused; every string of 144 bytes is the
    /// encoding of exactly one record, which is returned.
    pub fn decode(data: &[u8]) -> (outcome: Result<Self, DecodeError>)
        ensures
            data@.len() != 144 ==> outcome == Err::<Self, _>(
                DecodeError::LengthMismatch { expected: 144, actual: data@.len() as usize },
            ),
            data@.len() == 144 ==> outcome is Ok && outcome->Ok_0.spec_encode() == data@,
            forall|record: TendermintOutput|
                record.spec_encode() == data@ ==> outcome == Ok::<Self, DecodeError>(record),
    {
        if data.len() != 144 {
            return Err(DecodeError::LengthMismatch { expected: 144, actual: data.len() });
        }
        let output = TendermintOutput {
            trusted_height: read_u64_le(data, 0),
            target_height: read_u64_le(data, 8),
            trusted_header_hash: read_bytes32(data, 16),
            target_header_hash: read_bytes32(data, 48),
            compressed_block_public_input: read_bytes32(data, 80),
            app_hash: read_bytes32(data, 112),
        };
        proof {
            lemma_u64_le_bytes_round_trip(data@.subrange(0, 8));
            lemma_u64_le_bytes_round_trip(data@.subrange(8, 16));
            assert(output.spec_encode() =~= data@);
            assert forall|record: TendermintOutput| record.spec_encode() == data@ implies output
                == record by {
                Self::lemma_encode_injective(output, record);
            }
        }
        Ok(output)
    }

    /// The SHA-256 digest of the record's 144 bytes.
    pub fn compute_hash(&self) -> (hash: [u8; 32])
        ensures
            hash@ == self.spec_hash(),
    {
        let bytes = self.encode();
        sha256_hash(bytes.as_slice())
    }
}

/// What the verifier of a consensus proof already knows.
#[derive(Clone, Copy, Debug)]
pub struct VerifierPublicInput {
    /// The accumulator that the proof of the step before committed to.
    pub parent_compressed_block_public_input: [u8; 32],
    /// Application state root in the header proved valid.
    pub app_hash: [u8; 32],
    /// Height of the block proved valid.
    pub target_height: u64,
    /// Hash of the header at `target_height`.
    pub target_header_hash: [u8; 32],
}

impl VerifierPublicInput {
    /// The record's bytes: the parent accumulator, the state root, the
    /// height, little-endian, and the header hash.
    pub open spec fn spec_encode(&self) -> Seq<u8> {
        self.parent_compressed_block_public_input@ + self.app_hash@ + u64_to_le(self.target_height)
            + self.target_header_hash@
    }

    /// The SHA-256 digest of the record's bytes.
    pub open spec fn spec_hash(&self) -> Seq<u8> {
        sha256(self.spec_encode())@
    }

    /// Two records with the same bytes are the same record.
    pub proof fn lemma_encode_injective(a: VerifierPublicInput, b: VerifierPublicInput)
        requires
            a.spec_encode() == b.spec_encode(),
        ensures
            a == b,
    {
        let ea = a.spec_encode();
        let eb = b.spec_encode();
        assert(ea.subrange(0, 32) =~= a.parent_compressed_block_public_input@);
        assert(eb.subrange(0, 32) =~= b.parent_compressed_block_public_input@);
        assert(ea.subrange(32, 64) =~= a.app_hash@);
        assert(eb.subrange(32, 64) =~= b.app_hash@);
        assert(ea.subrange(64, 72) =~= u64_to_le(a.target_height));
        assert(eb.subrange(64, 72) =~= u64_to_le(b.target_height));
        lemma_u64_le_round_trip(a.target_height);
        lemma_u64_le_round_trip(b.target_height);
        assert(ea.subrange(72, 104) =~= a.target_header_hash@);
        assert(eb.subrange(72, 104) =~= b.target_header_hash@);
        assert(a.parent_compressed_block_public_input =~= b.parent_compressed_block_public_input);
        assert(a.app_hash =~= b.app_hash);
        assert(a.target_header_hash =~= b.target_header_hash);
    }

    /// The record's 104 bytes.
    pub fn encode(&self) -> (out: Vec<u8>)
        ensures
            out@ == self.spec_encode(),
            out@.len() == 104,
    {
        let mut out: Vec<u8> = Vec::with_capacity(104);
        append_bytes(&mut out, self.parent_compressed_block_public_input.as_slice());
        append_bytes(&mut out, self.app_hash.as_slice());
        let height = write_u64_le(self.target_height);
        append_bytes(&mut out, height.as_slice());
        append_bytes(&mut out, self.target_header_hash.as_slice());
        out
    }

    /// Reads a record from its 104 bytes.
    ///
    /// Any other length is refused; every string of 104 bytes is the
    /// encoding of exactly one record, which is returned.
    pub fn decode(data: &[u8]) -> (outcome: Result<Self, DecodeError>)
        ensures
            data@.len() != 104 ==> outcome == Err::<Self, _>(
                DecodeError::LengthMismatch { expected: 104, actual: data@.len() as usize },
            ),
            data@.len() == 104 ==> outcome is Ok && outcome->Ok_0.spec_encode() == data@,
            forall|record: VerifierPublicInput|
                record.spec_encode() == data@ ==> outcome == Ok::<Self, DecodeError>(record),
    {
        if data.len() != 104 {
            return Err(DecodeError::LengthMismatch { expected: 104, actual: data.len() });
        }
        let input = VerifierPublicInput {
            parent_compressed_block_public_input: read_bytes32(data, 0),
            app_hash: read_bytes32(data, 32),
            target_height: read_u64_le(data, 64),
            target_header_hash: read_bytes32(data, 72),
        };
        proof {
            lemma_u64_le_bytes_round_trip(data@.subrange(64, 72));
            assert(input.spec_encode() =~= data@);
            assert forall|record: VerifierPublicInput| record.spec_encode() == data@ implies input
                == record by {
                Self::lemma_encode_injective(input, record);
            }
        }
        Ok(input)
    }

    /// The SHA-256 digest of the record's 104 bytes.
    pub fn compute_hash(&self) -> (hash: [u8; 32])
        ensures
            hash@ == self.spec_hash(),
    {
        let bytes = self.encode();
        sha256_hash(bytes.as_slice())
    }
}

/// A key and its value in the state of the chain.
#[derive(Clone, Debug)]
pub struct KVPair {
    /// The segments of the key, outermost first.
    pub keys: Vec<Vec<u8>>,
    pub value: Vec<u8>,
}

impl KVPair {
    /// The segments of the key as byte strings.
    pub open spec fn spec_keys(&self) -> Seq<Seq<u8>> {
        Seq::new(self.keys@.len(), |i: int| self.keys@[i]@)
    }

    /// The bytes that the pair adds to a commitment: every key segment in
    /// order, then the value.
    pub open spec fn spec_bytes(&self) -> Seq<u8> {
        spec_concat(self.spec_keys()) + self.value@
    }
}

/// The byte strings of `parts` one after the other.
pub open spec fn spec_concat(parts: Seq<Seq<u8>>) -> Seq<u8>
    decreases parts.len(),
{
    if parts.len() == 0 {
        Seq::empty()
    } else {
        spec_concat(parts.drop_last()) + parts.last()
    }
}

/// A Merkle proof as it travels: protobuf bytes.
pub type RawMerkleProof = Vec<u8>;

/// What became of one encoded Merkle proof.
#[derive(Clone, Copy, Debug, PartialEq, Eq)]
pub enum MembershipVerdict {
    /// The proof shows the pair under the root.
    Accepted,
    /// The proof was read and does not show the pair under the root.
    Rejected,
    /// The bytes are not an encoded proof.
    Undecodable,
}

/// The verdict of the chain's proof profile on one encoded proof: whether
/// `proof` shows `value` at the key path `keys` under `root`, its parts
/// being checked from `start_index` on.
///
/// This stands for what the `ibc-core-commitment-types` crate computes
/// with the proof specifications of a Cosmos chain.
pub uninterp spec fn cosmos_membership(
    root: Seq<u8>,
    keys: Seq<Seq<u8>>,
    value: Seq<u8>,
    proof: Seq<u8>,
    start_index: u64,
) -> MembershipVerdict;

/// Index of the first part of an encoded proof that is checked: all are.
pub const FIRST_PROOF_INDEX: u64 = 0;

/// Checks one encoded proof against `app_hash`.
///
/// Trusted: decodes the bytes with `MerkleProof::decode_vec` and calls
/// `MerkleProof::verify_membership` of `ibc-core-commitment-types` with
/// `ProofSpecs::cosmos()`, the root, the key path, the value and the start
/// index. The result is named [`cosmos_membership`]; nothing more is
/// claimed of it.
#[verifier::external_body]
fn check_cosmos_membership(
    app_hash: &[u8; 32],
    keys: &Vec<Vec<u8>>,
    value: &Vec<u8>,
    raw_proof: &Vec<u8>,
    start_index: u64,
) -> (verdict: MembershipVerdict)
    requires
        start_index <= usize::MAX,
    ensures
        verdict == cosmos_membership(
            app_hash@,
            Seq::new(keys@.len(), |i: int| keys@[i]@),
            value@,
            raw_proof@,
            start_index,
        ),
{
    let path = MerklePath::new(keys.iter().map(PathBytes::from_bytes).collect());
    let root = CommitmentRoot::from_bytes(app_hash).into();
    let Ok(proof) = <MerkleProof as Protobuf<RawProof>>::decode_vec(raw_proof) else {
        return MembershipVerdict::Undecodable;
    };
    let specs = ProofSpecs::cosmos();
    match proof.verify_membership::<HostFunctionsManager>(&specs, root, path, value.clone(), start_index) {
        Ok(()) => MembershipVerdict::Accepted,
        Err(_) => MembershipVerdict::Rejected,
    }
}

/// Why a batch of membership proofs is refused.
#[derive(Clone, Copy, Debug, PartialEq, Eq)]
pub enum MembershipError {
    /// The proof at `index` cannot be decoded.
    UndecodableProof { index: usize },
    /// The proof at `index` does not show its pair under the root.
    FailedToVerify { index: usize },
}

/// What the verdict on the pair at `index` means for a batch: an accepted
/// pair lets it go on, and any other verdict refuses it, naming the pair.
pub open spec fn spec_pair_outcome(index: usize, verdict: MembershipVerdict) -> Result<
    (),
    MembershipError,
> {
    match verdict {
        MembershipVerdict::Accepted => Ok(()),
        MembershipVerdict::Rejected => Err(MembershipError::FailedToVerify { index }),
        MembershipVerdict::Undecodable => Err(MembershipError::UndecodableProof { index }),
    }
}

/// What the verdict on the pair at `index` means for a batch.
pub fn pair_outcome(index: usize, verdict: MembershipVerdict) -> (outcome: Result<
    (),
    MembershipError,
>)
    ensures
        outcome == spec_pair_outcome(index, verdict),
{
    match verdict {
        MembershipVerdict::Accepted => Ok(()),
        MembershipVerdict::Rejected => Err(MembershipError::FailedToVerify { index }),
        MembershipVerdict::Undecodable => Err(MembershipError::UndecodableProof { index }),
    }
}

/// The verdict on the pair at `index` of a batch.
pub open spec fn spec_pair_verdict(
    app_hash: Seq<u8>,
    proofs: Seq<(KVPair, RawMerkleProof)>,
    index: int,
) -> MembershipVerdict {
    cosmos_membership(
        app_hash,
        proofs[index].0.spec_keys(),
        proofs[index].0.value@,
        proofs[index].1@,
        FIRST_PROOF_INDEX,
    )
}

/// The outcome of checking the pairs of a batch from `from` on: the first
/// one that is not accepted, or success.
pub open spec fn spec_verify_membership_from(
    app_hash: Seq<u8>,
    proofs: Seq<(KVPair, RawMerkleProof)>,
    from: int,
) -> Result<(), MembershipError>
    decreases proofs.len() - from,
{
    if from < 0 || from >= proofs.len() {
        Ok(())
    } else {
        match spec_pair_outcome(from as usize, spec_pair_verdict(app_hash, proofs, from)) {
            Ok(()) => spec_verify_membership_from(app_hash, proofs, from + 1),
            Err(e) => Err(e),
        }
    }
}

/// The outcome of checking a batch: the first pair that is not accepted, or
/// success.
pub open spec fn spec_verify_membership(
    app_hash: Seq<u8>,
    proofs: Seq<(KVPair, RawMerkleProof)>,
) -> Result<(), MembershipError> {
    spec_verify_membership_from(app_hash, proofs, 0)
}

/// A batch is accepted exactly when every one of its pairs is.
pub proof fn lemma_batch_accepted_iff_all(
    app_hash: Seq<u8>,
    proofs: Seq<(KVPair, RawMerkleProof)>,
    from: int,
)
    requires
        0 <= from,
    ensures
        spec_verify_membership_from(app_hash, proofs, from) is Ok <==> forall|i: int|
            from <= i < proofs.len() ==> spec_pair_verdict(app_hash, proofs, i)
                == MembershipVerdict::Accepted,
    decreases proofs.len() - from,
{
    if from < proofs.len() {
        lemma_batch_accepted_iff_all(app_hash, proofs, from + 1);
        if spec_verify_membership_from(app_hash, proofs, from) is Ok {
            assert forall|i: int| from <= i < proofs.len() implies spec_pair_verdict(
                app_hash,
                proofs,
                i,
            ) == MembershipVerdict::Accepted by {
                if i > from {
                    assert(from + 1 <= i);
                }
            }
        }
    }
}

/// Checks every proof of a batch against `app_hash`.
///
/// The pairs are checked in order, each on its own, and the first proof
/// that is not accepted refuses the whole batch.
pub fn verify_membership_proof(app_hash: [u8; 32], proofs: &[(KVPair, RawMerkleProof)]) -> (outcome:
    Result<(), MembershipError>)
    ensures
        outcome == spec_verify_membership(app_hash@, proofs@),
{
    let n = proofs.len();
    let mut i: usize = 0;
    while i < n
        invariant
            n == proofs@.len(),
            i <= n,
            spec_verify_membership(app_hash@, proofs@) == spec_verify_membership_from(
                app_hash@,
                proofs@,
                i as int,
            ),
        decreases n - i,
    {
        let pair = &proofs[i];
        let verdict = check_cosmos_membership(
            &app_hash,
            &pair.0.keys,
            &pair.0.value,
            &pair.1,
            FIRST_PROOF_INDEX,
        );
        match pair_outcome(i, verdict) {
            Ok(()) => {},
            Err(e) => {
                return Err(e);
            },
        }
        i += 1;
    }
    Ok(())
}

/// What the membership step reads: a state root, and pairs with the proof
/// of each.
#[derive(Debug)]
pub struct MembershipInput {
    pub app_hash: [u8; 32],
    pub merkle_proofs: Vec<(KVPair, RawMerkleProof)>,
}

/// What the membership step commits to: the state root and the pairs shown
/// under it.
#[derive(Debug)]
pub struct MembershipOutput {
    pub app_hash: [u8; 32],
    pub kv_pairs: Vec<KVPair>,
}

/// The bytes that a list of pairs adds to a commitment.
pub open spec fn spec_pairs_bytes(pairs: Seq<KVPair>) -> Seq<u8>
    decreases pairs.len(),
{
    if pairs.len() == 0 {
        Seq::empty()
    } else {
        spec_pairs_bytes(pairs.drop_last()) + pairs.last().spec_bytes()
    }
}

impl MembershipOutput {
    /// The SHA-256 digest of the state root followed by every pair.
    pub open spec fn spec_hash(&self) -> Seq<u8> {
        sha256(self.app_hash@ + spec_pairs_bytes(self.kv_pairs@))@
    }

    /// The SHA-256 digest of the state root followed by, for every pair in
    /// order, its key segments and its value.
    pub fn compute_hash(&self) -> (hash: [u8; 32])
        ensures
            hash@ == self.spec_hash(),
    {
        let mut buf: Vec<u8> = Vec::new();
        append_bytes(&mut buf, self.app_hash.as_slice());
        let n = self.kv_pairs.len();
        let mut i: usize = 0;
        assert(self.kv_pairs@.take(0) =~= Seq::empty());
        while i < n
            invariant
                n == self.kv_pairs@.len(),
                i <= n,
                buf@ == self.app_hash@ + spec_pairs_bytes(self.kv_pairs@.take(i as int)),
            decreases n - i,
        {
            let pair = &self.kv_pairs[i];
            let ghost before = buf@;
            let m = pair.keys.len();
            let mut j: usize = 0;
            assert(pair.spec_keys().take(0) =~= Seq::empty());
            while j < m
                invariant
                    m == pair.keys@.len(),
                    j <= m,
                    buf@ == before + spec_concat(pair.spec_keys().take(j as int)),
                decreases m - j,
            {
                let ghost done = pair.spec_keys().take(j as int);
                append_bytes(&mut buf, pair.keys[j].as_slice());
                proof {
                    let next = pair.spec_keys().take(j + 1);
                    assert(next.drop_last() =~= done);
                    assert(next.last() == pair.keys@[j as int]@);
                    assert(buf@ =~= before + spec_concat(next));
                }
                j += 1;
            }
            append_bytes(&mut buf, pair.value.as_slice());
            proof {
                assert(pair.spec_keys().take(m as int) =~= pair.spec_keys());
                let next = self.kv_pairs@.take(i + 1);
                assert(next.drop_last() =~= self.kv_pairs@.take(i as int));
                assert(next.last() == *pair);
                assert(buf@ =~= self.app_hash@ + spec_pairs_bytes(next));
            }
            i += 1;
        }
        assert(self.kv_pairs@.take(n as int) =~= self.kv_pairs@);
        sha256_hash(buf.as_slice())
    }
}

/// What the aggregation step reads: for each of the two proofs, the digest
/// of its verification key and the bytes it committed to.
#[derive(Debug)]
pub struct AggregationInput {
    /// Digest of the verification key of the consensus proof.
    pub consensus_vkey_u32_hash: [u32; 8],
    /// The encoded [`TendermintOutput`] that the consensus proof committed
    /// to.
    pub consensus_public_input: Vec<u8>,
    /// Digest of the verification key of the membership proof.
    pub membership_vkey_u32_hash: [u32; 8],
    /// The encoded [`MembershipOutput`] that the membership proof
    /// committed to.
    pub membership_public_input: Vec<u8>,
}

/// The pairs of a batch, without their proofs.
pub open spec fn spec_pairs_of(proofs: Seq<(KVPair, RawMerkleProof)>) -> Seq<KVPair> {
    Seq::new(proofs.len(), |i: int| proofs[i].0)
}

/// Runs the membership step: every proof of the batch is checked against
/// the state root, and the step commits to the root and to the pairs, in
/// order and without their proofs. One proof that is not accepted refuses
/// the whole batch.
pub fn membership_step(input: MembershipInput) -> (outcome: Result<
    MembershipOutput,
    MembershipError,
>)
    ensures
        match outcome {
            Ok(output) => {
                &&& spec_verify_membership(input.app_hash@, input.merkle_proofs@) is Ok
                &&& output.app_hash == input.app_hash
                &&& output.kv_pairs@ == spec_pairs_of(input.merkle_proofs@)
            },
            Err(e) => spec_verify_membership(input.app_hash@, input.merkle_proofs@) == Err::<
                (),
                _,
            >(e),
        },
{
    match verify_membership_proof(input.app_hash, input.merkle_proofs.as_slice()) {
        Err(e) => {
            return Err(e);
        },
        Ok(()) => {},
    }
    let app_hash = input.app_hash;
    let ghost pairs = spec_pairs_of(input.merkle_proofs@);
    let mut merkle_proofs = input.merkle_proofs;
    // Take the pairs off the end, which leaves them in reverse, and turn
    // them round again.
    let mut reversed: Vec<KVPair> = Vec::new();
    while merkle_proofs.len() > 0
        invariant
            merkle_proofs@.len() + reversed@.len() == pairs.len(),
            spec_pairs_of(merkle_proofs@) == pairs.take(merkle_proofs@.len() as int),
            forall|i: int|
                0 <= i < reversed@.len() ==> #[trigger] reversed@[i] == pairs[pairs.len() - 1 - i],
        decreases merkle_proofs@.len(),
    {
        let ghost before = merkle_proofs@;
        match merkle_proofs.pop() {
            Some(pair) => {
                assert(pair.0 == spec_pairs_of(before)[before.len() - 1]);
                reversed.push(pair.0);
            },
            None => {},
        }
        assert(spec_pairs_of(merkle_proofs@) =~= pairs.take(merkle_proofs@.len() as int)) by {
            assert forall|i: int| 0 <= i < merkle_proofs@.len() implies spec_pairs_of(
                merkle_proofs@,
            )[i] == pairs[i] by {
                assert(spec_pairs_of(before)[i] == pairs.take(before.len() as int)[i]);
            }
        }
    }
    let mut kv_pairs: Vec<KVPair> = Vec::new();
    while reversed.len() > 0
        invariant
            reversed@.len() + kv_pairs@.len() == pairs.len(),
            forall|i: int|
                0 <= i < reversed@.len() ==> #[trigger] reversed@[i] == pairs[pairs.len() - 1 - i],
            forall|i: int| 0 <= i < kv_pairs@.len() ==> #[trigger] kv_pairs@[i] == pairs[i],
        decreases reversed@.len(),
    {
        match reversed.pop() {
            Some(pair) => {
                kv_pairs.push(pair);
            },
            None => {},
        }
    }
    assert(kv_pairs@ =~= pairs);
    Ok(MembershipOutput { app_hash, kv_pairs })
}

/// Why two proofs cannot be aggregated.
#[derive(Clone, Copy, Debug, PartialEq, Eq)]
pub enum AggregationError {
    /// The backend refused the consensus proof.
    ConsensusProofRejected,
    /// The backend refused the membership proof.
    MembershipProofRejected,
    /// The state root that the membership proof speaks of is not the one
    /// in the header that the consensus proof speaks of.
    AppHashMismatch { consensus: [u8; 32], membership: [u8; 32] },
}

/// What the backend has to verify before two proofs are aggregated: each
/// proof against the digest of its key and the hash of the bytes it
/// committed to, the consensus proof first.
pub fn aggregation_proof_checks(input: &AggregationInput) -> (checks: (ProofCheck, ProofCheck))
    ensures
        checks.0.vkey_u32_hash == input.consensus_vkey_u32_hash,
        checks.0.committed_hash == sha256(input.consensus_public_input@),
        checks.1.vkey_u32_hash == input.membership_vkey_u32_hash,
        checks.1.committed_hash == sha256(input.membership_public_input@),
{
    (
        ProofCheck {
            vkey_u32_hash: input.consensus_vkey_u32_hash,
            committed_hash: sha256_hash(input.consensus_public_input.as_slice()),
        },
        ProofCheck {
            vkey_u32_hash: input.membership_vkey_u32_hash,
            committed_hash: sha256_hash(input.membership_public_input.as_slice()),
        },
    )
}

/// The outcome of the checks of the aggregation step.
pub open spec fn spec_check_aggregation(
    consensus_verified: bool,
    membership_verified: bool,
    consensus_app_hash: [u8; 32],
    membership_app_hash: [u8; 32],
) -> Result<(), AggregationError> {
    if !consensus_verified {
        Err(AggregationError::ConsensusProofRejected)
    } else if !membership_verified {
        Err(AggregationError::MembershipProofRejected)
    } else if consensus_app_hash != membership_app_hash {
        Err(
            AggregationError::AppHashMismatch {
                consensus: consensus_app_hash,
                membership: membership_app_hash,
            },
        )
    } else {
        Ok(())
    }
}

/// Decides whether a consensus proof and a membership proof may be
/// aggregated.
///
/// The two verdicts are what the backend said of the checks that
/// [`aggregation_proof_checks`] names; the two outputs are what the proofs
/// committed to. Both proofs must have been verified, and the membership
/// proof must speak of the state root in the header that the consensus
/// proof speaks of. The aggregated proof is made only after this succeeds.
pub fn check_aggregation(
    consensus_verified: bool,
    membership_verified: bool,
    consensus_output: &TendermintOutput,
    membership_output: &MembershipOutput,
) -> (outcome: Result<(), AggregationError>)
    ensures
        outcome == spec_check_aggregation(
            consensus_verified,
            membership_verified,
            consensus_output.app_hash,
            membership_output.app_hash,
        ),
{
    if !consensus_verified {
        Err(AggregationError::ConsensusProofRejected)
    } else if !membership_verified {
        Err(AggregationError::MembershipProofRejected)
    } else if !bytes32_eq(&consensus_output.app_hash, &membership_output.app_hash) {
        Err(
            AggregationError::AppHashMismatch {
                consensus: consensus_output.app_hash,
                membership: membership_output.app_hash,
            },
        )
    } else {
        Ok(())
    }
}

/// Two proofs that the backend verified are aggregated exactly when they
/// speak of the same state root.
pub proof fn lemma_aggregation_needs_same_root(
    consensus_app_hash: [u8; 32],
    membership_app_hash: [u8; 32],
)
    ensures
        spec_check_aggregation(true, true, consensus_app_hash, membership_app_hash) is Ok
            <==> consensus_app_hash == membership_app_hash,
{
}

} // verus!
