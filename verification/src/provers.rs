//! What the proving service decides: which heights can be proved and from
//! which parent, what a response to a storage query must look like, and
//! whether a pairing-based proof verifies.
//!
//! Fetching blocks, running the proving backend and keeping proof files are
//! the work of the caller; the functions here take what was fetched as plain
//! values and say what follows.

use ark_bn254::Bn254;
use ark_bn254::G1Affine;
use ark_bn254::G2Affine;
use ark_groth16::Groth16;
use ark_groth16::Proof;
use ark_groth16::r1cs_to_qap::LibsnarkReduction;
use ark_serialize::CanonicalDeserialize;
use ark_serialize::CanonicalSerialize;
use ark_serialize::Compress;
use ark_serialize::Validate;
use crate::babylon::AggregationInput;
use crate::babylon::consensus::ConsensusInput;
use crate::babylon::consensus::ConsensusWitness;
use crate::babylon::KVPair;
use crate::babylon::MembershipError;
use crate::babylon::MembershipInput;
use crate::babylon::RawMerkleProof;
use crate::babylon::spec_concat;
use crate::babylon::spec_verify_membership;
use crate::babylon::TendermintOutput;
use crate::babylon::VerifierPublicInput;
use crate::babylon::verify_membership_proof;
use crate::bytes::append_bytes;
use crate::bytes::bytes_eq;
use crate::bytes::read_bytes32;
use crate::sha256;
use crate::sha256_hash;
use sp1_verifier::ArkGroth16Error;
use sp1_verifier::GROTH16_VK_BYTES;
use sp1_verifier::load_ark_groth16_verifying_key_from_bytes;
use sp1_verifier::load_ark_proof_from_bytes;
use sp1_verifier::load_ark_public_inputs_from_bytes;
use vstd::prelude::*;
use vstd::utf8::encode_utf8;
use vstd::utf8::is_char_boundary;
use vstd::utf8::valid_utf8;

verus! {

/// Why a curve point or a key of the pairing-based proof system was not
/// accepted.
#[derive(Clone, Copy, Debug, PartialEq, Eq)]
pub enum ArkError {
    /// Bytes are not a point of the first group.
    G1CompressionError,
    /// Bytes are not a point of the second group.
    G2CompressionError,
    /// Bytes carry flags that mean nothing.
    InvalidInput,
    /// The built-in verifying key cannot be read.
    InvalidVerifyingKey,
}

/// What can go wrong in the proving service.
#[derive(Clone, Debug, PartialEq, Eq)]
pub enum ProverError {
    /// A stored proof cannot be loaded.
    LoadProof(String),
    /// A proof is not of the compressed kind.
    BadProofType,
    /// A proof cannot be stored.
    SaveProof(String),
    /// The backend made no proof.
    GenerateProof(String),
    /// A witness holds no headers.
    EmptyWitnessChain,
    /// A header carries a hash or a state root that is not 32 bytes long;
    /// the bytes are those of the header's hash.
    InvalidTendermintBlockHash(Vec<u8>),
    /// The height is below 2, the first that can be proved.
    BlockHeightTooLowForTendermint,
    /// The pairing check could not be carried out.
    VerifyGroth16Proof(String),
    /// A response speaks of another height than the one queried.
    TendermintProofHeightMismatch { got: u64, expected: u64 },
    /// A response speaks of another key than the one queried.
    TendermintProofKeyMismatch,
    /// The key digest in a proof is not the digest of the expected key.
    Sp1VkeyHashMismatch,
    /// A membership proof of a batch is not accepted.
    Membership(MembershipError),
    /// A curve point or a key was not accepted.
    ArkGroth16(ArkError),
    /// A curve point could not be written.
    ArkSerialize,
    /// Anything else, in words.
    Other(String),
}

/// The lowest height whose header can be proved.
pub const FIRST_PROVABLE_HEIGHT: u64 = 2;

/// The heights of the target and of the trusted block for a proof of
/// `block_height`: the height itself and the one below.
pub fn blocks_to_fetch(block_height: u64) -> (outcome: Result<(u64, u64), ProverError>)
    ensures
        block_height < 2 <==> outcome == Err::<(u64, u64), _>(
            ProverError::BlockHeightTooLowForTendermint,
        ),
        block_height >= 2 <==> outcome == Ok::<_, ProverError>(
            (block_height, (block_height - 1) as u64),
        ),
{
    if block_height < FIRST_PROVABLE_HEIGHT {
        Err(ProverError::BlockHeightTooLowForTendermint)
    } else {
        Ok((block_height, block_height - 1))
    }
}

/// Where a consensus proof stands in the chain of proofs.
#[derive(Clone, Copy, Debug, PartialEq, Eq)]
pub struct ProofPlan {
    /// Position of the step, from 0.
    pub proving_block_index: u64,
    /// Height whose stored proof is the parent; none for the first step.
    pub parent_height: Option<u64>,
}

/// The position of the proof of `target_height` in a chain of proofs that
/// starts right above `initial_height`, and the height of its parent.
///
/// Heights are proved one by one, so the first step is the one at
/// `initial_height + 1` and every later step has the height below as its
/// parent. A height that is not above `initial_height` has no place in the
/// chain.
pub fn plan_proof(target_height: u64, initial_height: u64) -> (plan: Option<ProofPlan>)
    ensures
        target_height <= initial_height <==> plan is None,
        target_height == initial_height + 1 ==> plan == Some(
            ProofPlan { proving_block_index: 0, parent_height: None },
        ),
        target_height > initial_height + 1 ==> plan == Some(
            ProofPlan {
                proving_block_index: (target_height - initial_height - 1) as u64,
                parent_height: Some((target_height - 1) as u64),
            },
        ),
{
    if target_height <= initial_height {
        return None;
    }
    let proving_block_index = target_height - initial_height - 1;
    if proving_block_index == 0 {
        Some(ProofPlan { proving_block_index, parent_height: None })
    } else {
        Some(ProofPlan { proving_block_index, parent_height: Some(target_height - 1) })
    }
}

/// The input of the consensus step for a target header.
///
/// `app_hash` and `target_header_hash` are the state root and the hash of
/// the target header as they were fetched; both must be 32 bytes long, and
/// where one is not the error carries the bytes of the header hash. The
/// verifier input names the accumulator of the parent as its own parent.
pub fn consensus_input(
    proving_block_index: u64,
    circuit_vkey_u32_hash: [u32; 8],
    parent_public_input: TendermintOutput,
    target_height: u64,
    app_hash: &[u8],
    target_header_hash: &[u8],
    witness: ConsensusWitness,
) -> (outcome: Result<ConsensusInput, ProverError>)
    ensures
        match outcome {
            Ok(input) => {
                &&& app_hash@.len() == 32
                &&& target_header_hash@.len() == 32
                &&& input.proving_block_index == proving_block_index
                &&& input.circuit_vkey_u32_hash == circuit_vkey_u32_hash
                &&& input.parent_public_input == parent_public_input
                &&& input.current_public_input.parent_compressed_block_public_input
                    == parent_public_input.compressed_block_public_input
                &&& input.current_public_input.app_hash@ == app_hash@
                &&& input.current_public_input.target_height == target_height
                &&& input.current_public_input.target_header_hash@ == target_header_hash@
                &&& input.witness == witness
            },
            Err(e) => {
                &&& app_hash@.len() != 32 || target_header_hash@.len() != 32
                &&& e matches ProverError::InvalidTendermintBlockHash(hash)
                &&& hash@ == target_header_hash@
            },
        },
{
    if app_hash.len() != 32 || target_header_hash.len() != 32 {
        let mut hash: Vec<u8> = Vec::new();
        append_bytes(&mut hash, target_header_hash);
        return Err(ProverError::InvalidTendermintBlockHash(hash));
    }
    let app_hash_bytes = read_bytes32(app_hash, 0);
    let header_hash_bytes = read_bytes32(target_header_hash, 0);
    assert(app_hash_bytes@ =~= app_hash@);
    assert(header_hash_bytes@ =~= target_header_hash@);
    Ok(
        ConsensusInput {
            proving_block_index,
            circuit_vkey_u32_hash,
            parent_public_input,
            current_public_input: VerifierPublicInput {
                parent_compressed_block_public_input:
                    parent_public_input.compressed_block_public_input,
                app_hash: app_hash_bytes,
                target_height,
                target_header_hash: header_hash_bytes,
            },
            witness,
        },
    )
}

/// A query for the value of a key in the store of a module.
#[derive(Clone, Debug)]
pub struct StorageQuery {
    /// Name of the store: the first segment of the key path.
    pub store_name: Vec<u8>,
    /// The key within the store: the other segments, one after the other.
    pub key: Vec<u8>,
    /// Height to query: the one below the height of the state root.
    pub query_height: u64,
}

/// The query that shows the key at `key_path` under the state root of the
/// header at `height`.
///
/// The state root of a header reflects the state after the block before,
/// so the query goes to the height below. A path without segments, or a
/// height without one below it, makes no query.
pub fn storage_query(key_path: &Vec<Vec<u8>>, height: u64) -> (query: Option<StorageQuery>)
    ensures
        key_path@.len() == 0 || height == 0 <==> query is None,
        query matches Some(q) ==> {
            &&& q.store_name@ == key_path@[0]@
            &&& q.key@ == spec_concat(
                Seq::new((key_path@.len() - 1) as nat, |i: int| key_path@[i + 1]@),
            )
            &&& q.query_height == height - 1
        },
{
    if key_path.len() == 0 || height == 0 {
        return None;
    }
    let mut store_name: Vec<u8> = Vec::new();
    append_bytes(&mut store_name, key_path[0].as_slice());
    let mut key: Vec<u8> = Vec::new();
    let n = key_path.len();
    let ghost rest = Seq::new((key_path@.len() - 1) as nat, |i: int| key_path@[i + 1]@);
    let mut i: usize = 1;
    assert(rest.take(0) =~= Seq::empty());
    while i < n
        invariant
            n == key_path@.len(),
            1 <= i <= n,
            rest == Seq::new((key_path@.len() - 1) as nat, |i: int| key_path@[i + 1]@),
            key@ == spec_concat(rest.take(i - 1)),
        decreases n - i,
    {
        let ghost done = rest.take(i - 1);
        append_bytes(&mut key, key_path[i].as_slice());
        proof {
            let next = rest.take(i as int);
            assert(next.drop_last() =~= done);
            assert(next.last() == key_path@[i as int]@);
        }
        i += 1;
    }
    assert(rest.take(n - 1) =~= rest);
    Some(StorageQuery { store_name, key, query_height: height - 1 })
}

/// Reads bytes as text.
///
/// Trusted: `core::str::from_utf8`, which reads exactly the byte strings
/// that are UTF-8; the text has the bytes it was read from.
#[verifier::external_body]
fn read_utf8(bytes: &[u8]) -> (text: Option<String>)
    ensures
        match text {
            Some(read) => valid_utf8(bytes@) && encode_utf8(read@) == bytes@,
            None => !valid_utf8(bytes@),
        },
{
    match core::str::from_utf8(bytes) {
        Ok(text) => Some(text.to_owned()),
        Err(_) => None,
    }
}

/// The name of a store as text. A name that is not UTF-8 is refused.
pub fn store_name(name: &[u8]) -> (outcome: Result<String, ProverError>)
    ensures
        match outcome {
            Ok(text) => valid_utf8(name@) && encode_utf8(text@) == name@,
            Err(ProverError::Other(message)) => !valid_utf8(name@) && message@
                == "Invalid UTF-8 in store name"@,
            Err(_) => false,
        },
{
    match read_utf8(name) {
        Some(text) => Ok(text),
        None => Err(ProverError::Other("Invalid UTF-8 in store name".to_owned())),
    }
}

/// What is wrong with a response that speaks of the height and the key
/// queried, in words: it holds no value, or it holds no proof.
pub open spec fn spec_storage_response_fault(value_len: nat, has_proof: bool) -> Option<Seq<char>> {
    if value_len == 0 {
        Some(
            "Queried key returned empty value: expected non-empty for membership existence proof"@,
        )
    } else if !has_proof {
        Some("Missing proof in ABCI response"@)
    } else {
        None
    }
}

/// Checks a response to a storage query.
///
/// The response must speak of the height queried, else the error names both
/// heights; of the key queried; it must hold a value that is not empty, and
/// a proof. The first of these that fails is reported.
pub fn check_storage_response(
    response_height: u64,
    query_height: u64,
    response_key: &[u8],
    key: &[u8],
    value: &[u8],
    has_proof: bool,
) -> (outcome: Result<(), ProverError>)
    ensures
        response_height != query_height ==> outcome == Err::<(), _>(
            ProverError::TendermintProofHeightMismatch {
                got: response_height,
                expected: query_height,
            },
        ),
        response_height == query_height && response_key@ != key@ ==> outcome == Err::<(), _>(
            ProverError::TendermintProofKeyMismatch,
        ),
        response_height == query_height && response_key@ == key@ ==> match
            spec_storage_response_fault(value@.len(), has_proof) {
            Some(message) => outcome matches Err(ProverError::Other(text)) && text@ == message,
            None => outcome is Ok,
        },
{
    if response_height != query_height {
        return Err(
            ProverError::TendermintProofHeightMismatch {
                got: response_height,
                expected: query_height,
            },
        );
    }
    if !bytes_eq(response_key, key) {
        return Err(ProverError::TendermintProofKeyMismatch);
    }
    if value.len() == 0 {
        return Err(
            ProverError::Other(
                "Queried key returned empty value: expected non-empty for membership existence proof".to_owned(),
            ),
        );
    }
    if !has_proof {
        return Err(ProverError::Other("Missing proof in ABCI response".to_owned()));
    }
    Ok(())
}

/// The input of the membership step for a state root and the pairs fetched
/// with their proofs.
///
/// The root must be 32 bytes long and every proof must verify against it;
/// the pairs are taken in the order given.
pub fn membership_input(app_hash: &[u8], merkle_proofs: Vec<(KVPair, RawMerkleProof)>) -> (outcome:
    Result<MembershipInput, ProverError>)
    ensures
        match outcome {
            Ok(input) => {
                &&& app_hash@.len() == 32
                &&& input.app_hash@ == app_hash@
                &&& input.merkle_proofs == merkle_proofs
                &&& spec_verify_membership(app_hash@, merkle_proofs@) is Ok
            },
            Err(ProverError::Other(text)) => app_hash@.len() != 32 && text@
                == "Invalid app_hash length"@,
            Err(ProverError::Membership(e)) => app_hash@.len() == 32 && spec_verify_membership(
                app_hash@,
                merkle_proofs@,
            ) == Err::<(), _>(e),
            Err(_) => false,
        },
{
    if app_hash.len() != 32 {
        return Err(ProverError::Other("Invalid app_hash length".to_owned()));
    }
    let root = read_bytes32(app_hash, 0);
    assert(root@ =~= app_hash@);
    match verify_membership_proof(root, merkle_proofs.as_slice()) {
        Err(e) => Err(ProverError::Membership(e)),
        Ok(()) => Ok(MembershipInput { app_hash: root, merkle_proofs }),
    }
}

/// Checks that the key digest that a proof carries is the digest of the
/// key the proof is expected to be made with.
pub fn check_vkey_digest(in_public_values: &[u32; 8], expected: &[u32; 8]) -> (outcome: Result<
    (),
    ProverError,
>)
    ensures
        in_public_values@ == expected@ <==> outcome is Ok,
        outcome is Err ==> outcome == Err::<(), _>(ProverError::Sp1VkeyHashMismatch),
{
    let mut i: usize = 0;
    while i < 8
        invariant
            i <= 8,
            forall|j: int| 0 <= j < i ==> in_public_values@[j] == expected@[j],
        decreases 8 - i,
    {
        if in_public_values[i] != expected[i] {
            return Err(ProverError::Sp1VkeyHashMismatch);
        }
        i += 1;
    }
    assert(in_public_values@ =~= expected@);
    Ok(())
}

/// The input of the aggregation step for two proofs: the digest of the
/// key of each and the bytes each committed to.
pub fn aggregation_input(
    consensus_vkey_u32_hash: [u32; 8],
    consensus_public_input: Vec<u8>,
    membership_vkey_u32_hash: [u32; 8],
    membership_public_input: Vec<u8>,
) -> (input: AggregationInput)
    ensures
        input.consensus_vkey_u32_hash == consensus_vkey_u32_hash,
        input.consensus_public_input == consensus_public_input,
        input.membership_vkey_u32_hash == membership_vkey_u32_hash,
        input.membership_public_input == membership_public_input,
{
    AggregationInput {
        consensus_vkey_u32_hash,
        consensus_public_input,
        membership_vkey_u32_hash,
        membership_public_input,
    }
}

/// The value of a hexadecimal digit, either case.
pub open spec fn spec_hex_digit(b: u8) -> Option<u8> {
    if 0x30 <= b <= 0x39 {
        Some((b - 0x30) as u8)
    } else if 0x61 <= b <= 0x66 {
        Some((b - 0x61 + 10) as u8)
    } else if 0x41 <= b <= 0x46 {
        Some((b - 0x41 + 10) as u8)
    } else {
        None
    }
}

/// Whether `text` holds 66 bytes of which all but the first two are
/// hexadecimal digits.
pub open spec fn spec_has_vkey_digits(text: Seq<u8>) -> bool {
    text.len() == 66 && forall|i: int| 2 <= i < 66 ==> spec_hex_digit(#[trigger] text[i]) is Some
}

/// Whether `text` is a key digest as text: a prefix of two bytes, which are
/// whole characters, then 64 hexadecimal digits.
pub open spec fn spec_is_vkey_hash_text(text: Seq<u8>) -> bool {
    is_char_boundary(text, 2) && spec_has_vkey_digits(text)
}

/// The 32 bytes that the digits of a key digest spell.
pub open spec fn spec_vkey_hash_bytes(text: Seq<u8>) -> Seq<u8> {
    Seq::new(
        32,
        |i: int|
            (16 * spec_hex_digit(text[2 + 2 * i])->Some_0 + spec_hex_digit(
                text[3 + 2 * i],
            )->Some_0) as u8,
    )
}

/// Reads the digits of a key digest.
///
/// Trusted: `sp1_verifier::decode_sp1_vkey_hash`, which cuts the text after
/// its second byte and reads the rest with `hex::decode`: two digits of
/// either case for every byte, and 32 bytes in all. It cuts between
/// characters only, so a text of fewer than two bytes and one whose second
/// byte is not the end of a character are left out.
#[verifier::external_body]
fn read_vkey_digits(vkey: &str) -> (hash: Option<[u8; 32]>)
    requires
        encode_utf8(vkey@).len() >= 2,
        is_char_boundary(encode_utf8(vkey@), 2),
    ensures
        match hash {
            Some(bytes) => spec_has_vkey_digits(encode_utf8(vkey@)) && bytes@
                == spec_vkey_hash_bytes(encode_utf8(vkey@)),
            None => !spec_has_vkey_digits(encode_utf8(vkey@)),
        },
{
    sp1_verifier::decode_sp1_vkey_hash(vkey).ok()
}

/// Reads a key digest from its text: two bytes of prefix, which are not
/// looked at, then 64 hexadecimal digits of either case.
pub fn decode_vkey_hash(vkey: &str) -> (hash: Option<[u8; 32]>)
    ensures
        match hash {
            Some(bytes) => spec_is_vkey_hash_text(encode_utf8(vkey@)) && bytes@
                == spec_vkey_hash_bytes(encode_utf8(vkey@)),
            None => !spec_is_vkey_hash_text(encode_utf8(vkey@)),
        },
{
    if vkey.len() < 2 || !vkey.is_char_boundary(2) {
        return None;
    }
    read_vkey_digits(vkey)
}

/// The digest of public values as the pairing-based verifier reads it: the
/// SHA-256 digest with its three highest bits cleared, so that it fits the
/// field of the curve.
pub open spec fn spec_hash_public_inputs(public_values: Seq<u8>) -> Seq<u8> {
    sha256(public_values)@.update(0, sha256(public_values)@[0] & 0x1f)
}

/// The digest of public values as the pairing-based verifier reads it.
pub fn hash_public_inputs(public_values: &[u8]) -> (digest: [u8; 32])
    ensures
        digest@ == spec_hash_public_inputs(public_values@),
{
    let mut digest = sha256_hash(public_values);
    let first = digest[0] & 0x1f;
    digest[0] = first;
    digest
}

/// Why the pairing check of a proof gave no verdict.
#[derive(Clone, Debug, PartialEq, Eq)]
pub enum Groth16Failure {
    /// The built-in verifying key cannot be read.
    VerifyingKey,
    /// The first proof element is not a point of the first group.
    PointA,
    /// The second proof element is not a point of the second group.
    PointB,
    /// The third proof element is not a point of the first group.
    PointC,
    /// The check could not be carried out.
    Verification(String),
}

/// The verdict of the pairing check on three encoded proof elements and two
/// public inputs, against the verifying key that the `sp1-verifier` crate
/// carries.
pub uninterp spec fn groth16_check(
    a: Seq<u8>,
    b: Seq<u8>,
    c: Seq<u8>,
    vkey_hash: Seq<u8>,
    digest: Seq<u8>,
) -> Result<bool, Groth16Failure>;

/// Runs the pairing check.
///
/// Trusted: reads the three proof elements with
/// `CanonicalDeserialize::deserialize_with_mode` (uncompressed, validated),
/// takes the verifying key and the two public inputs from `sp1-verifier`,
/// and calls `ark_groth16::Groth16::verify_proof`. The result is named
/// [`groth16_check`]; nothing more is claimed of it.
#[verifier::external_body]
fn ark_groth16_verify(a: &[u8], b: &[u8], c: &[u8], vkey_hash: &[u8; 32], digest: &[u8; 32]) -> (outcome:
    Result<bool, Groth16Failure>)
    ensures
        outcome == groth16_check(a@, b@, c@, vkey_hash@, digest@),
{
    let (no, yes) = (Compress::No, Validate::Yes);
    let vk = load_ark_groth16_verifying_key_from_bytes(&GROTH16_VK_BYTES).map_err(|_| Groth16Failure::VerifyingKey)?;
    let a = G1Affine::deserialize_with_mode(a, no, yes).map_err(|_| Groth16Failure::PointA)?;
    let b = G2Affine::deserialize_with_mode(b, no, yes).map_err(|_| Groth16Failure::PointB)?;
    let c = G1Affine::deserialize_with_mode(c, no, yes).map_err(|_| Groth16Failure::PointC)?;
    let inputs = load_ark_public_inputs_from_bytes(vkey_hash, digest);
    Groth16::<Bn254, LibsnarkReduction>::verify_proof(&vk.into(), &Proof::<Bn254> { a, b, c }, &inputs)
        .map_err(|e| Groth16Failure::Verification(e.to_string()))
}

/// A pairing-based proof as it is handed to a verifier.
#[derive(Debug, Clone)]
pub struct Groth16Proof {
    /// The three proof elements, uncompressed: 64, 128 and 64 bytes.
    pub proof: Vec<u8>,
    /// The public values that the aggregation committed to.
    pub public_values: Vec<u8>,
    /// The digest of the verification key of the aggregation, as text.
    pub vkey: String,
}

/// An aggregated proof and the time it took to make, in seconds.
#[derive(Debug, Clone)]
pub struct MembershipProof {
    pub groth16: Groth16Proof,
    pub proving_time_secs: u64,
}

/// The bytes from `from` up to `to`, followed by one zero byte.
pub open spec fn spec_proof_element(proof: Seq<u8>, from: int, to: int) -> Seq<u8> {
    proof.subrange(from, to).push(0u8)
}

/// The outcome of verifying a proof from its parts, where the proof holds
/// its three elements and the key digest can be read.
pub open spec fn spec_verify_groth16(proof: Seq<u8>, public_values: Seq<u8>, vkey: Seq<u8>) -> Result<
    bool,
    ProverError,
> {
    spec_groth16_outcome(
        groth16_check(
            spec_proof_element(proof, 0, 64),
            spec_proof_element(proof, 64, 192),
            spec_proof_element(proof, 192, 256),
            spec_vkey_hash_bytes(vkey),
            spec_hash_public_inputs(public_values),
        ),
    )
}

/// What a verdict of the pairing check means for verification.
pub open spec fn spec_groth16_outcome(verdict: Result<bool, Groth16Failure>) -> Result<
    bool,
    ProverError,
> {
    match verdict {
        Ok(valid) => Ok(valid),
        Err(Groth16Failure::VerifyingKey) => Err(
            ProverError::ArkGroth16(ArkError::InvalidVerifyingKey),
        ),
        Err(Groth16Failure::PointA) => Err(ProverError::ArkGroth16(ArkError::G1CompressionError)),
        Err(Groth16Failure::PointB) => Err(ProverError::ArkGroth16(ArkError::G2CompressionError)),
        Err(Groth16Failure::PointC) => Err(ProverError::ArkGroth16(ArkError::G1CompressionError)),
        Err(Groth16Failure::Verification(message)) => Err(
            ProverError::VerifyGroth16Proof(message),
        ),
    }
}

/// One element of a proof, followed by a zero byte of flags.
fn proof_element(proof: &Vec<u8>, from: usize, to: usize) -> (element: Vec<u8>)
    requires
        from <= to <= proof@.len(),
    ensures
        element@ == spec_proof_element(proof@, from as int, to as int),
{
    let mut element: Vec<u8> = Vec::new();
    let part = vstd::slice::slice_subrange(proof.as_slice(), from, to);
    append_bytes(&mut element, part);
    element.push(0u8);
    element
}

/// Maps the verdict of the pairing check to the outcome of verification.
pub fn groth16_outcome(verdict: Result<bool, Groth16Failure>) -> (outcome: Result<bool, ProverError>)
    ensures
        outcome == spec_groth16_outcome(verdict),
{
    match verdict {
        Ok(valid) => Ok(valid),
        Err(Groth16Failure::VerifyingKey) => Err(
            ProverError::ArkGroth16(ArkError::InvalidVerifyingKey),
        ),
        Err(Groth16Failure::PointA) => Err(ProverError::ArkGroth16(ArkError::G1CompressionError)),
        Err(Groth16Failure::PointB) => Err(ProverError::ArkGroth16(ArkError::G2CompressionError)),
        Err(Groth16Failure::PointC) => Err(ProverError::ArkGroth16(ArkError::G1CompressionError)),
        Err(Groth16Failure::Verification(message)) => Err(
            ProverError::VerifyGroth16Proof(message),
        ),
    }
}

/// Why a proof of the backend was not converted.
#[derive(Clone, Copy, Debug, PartialEq, Eq)]
pub enum ConversionFailure {
    /// An element of the proof was not accepted.
    Element(ArkError),
    /// An element could not be written.
    Serialization,
}

/// The three elements of a proof of the backend, each in the uncompressed
/// encoding of the `ark-serialize` crate.
pub uninterp spec fn arkworks_elements(gnark: Seq<u8>) -> Result<
    (Seq<u8>, Seq<u8>, Seq<u8>),
    ConversionFailure,
>;

/// Reads the three elements of a proof of the backend and writes each in
/// the uncompressed encoding.
///
/// Trusted: `sp1_verifier::load_ark_proof_from_bytes`, which reads the first
/// 256 bytes and needs as many, then
/// `CanonicalSerialize::serialize_with_mode` on each element. The result is
/// named [`arkworks_elements`]; nothing more is claimed of it.
#[verifier::external_body]
fn convert_gnark_elements(gnark: &[u8]) -> (outcome: Result<
    (Vec<u8>, Vec<u8>, Vec<u8>),
    ConversionFailure,
>)
    requires
        gnark@.len() >= 256,
    ensures
        match outcome {
            Ok(parts) => arkworks_elements(gnark@) == Ok::<_, ConversionFailure>(
                (parts.0@, parts.1@, parts.2@),
            ),
            Err(e) => arkworks_elements(gnark@) == Err::<(Seq<u8>, Seq<u8>, Seq<u8>), _>(e),
        },
{
    let proof = load_ark_proof_from_bytes(gnark).map_err(|e| ConversionFailure::Element(match e {
        ArkGroth16Error::G1CompressionError => ArkError::G1CompressionError,
        ArkGroth16Error::G2CompressionError => ArkError::G2CompressionError,
        ArkGroth16Error::InvalidInput => ArkError::InvalidInput,
    }))?;
    let (mut a, mut b, mut c) = (Vec::new(), Vec::new(), Vec::new());
    proof.a.serialize_with_mode(&mut a, Compress::No).map_err(|_| ConversionFailure::Serialization)?;
    proof.b.serialize_with_mode(&mut b, Compress::No).map_err(|_| ConversionFailure::Serialization)?;
    proof.c.serialize_with_mode(&mut c, Compress::No).map_err(|_| ConversionFailure::Serialization)?;
    Ok((a, b, c))
}

/// The outcome of converting a proof of the backend, given its elements.
pub open spec fn spec_arkworks_proof(elements: Result<(Seq<u8>, Seq<u8>, Seq<u8>), ConversionFailure>) -> Result<
    Seq<u8>,
    ProverError,
> {
    match elements {
        Ok(parts) => if parts.0.len() == 64 && parts.1.len() == 128 && parts.2.len() == 64 {
            Ok(parts.0 + parts.1 + parts.2)
        } else {
            Err(ProverError::ArkSerialize)
        },
        Err(ConversionFailure::Element(e)) => Err(ProverError::ArkGroth16(e)),
        Err(ConversionFailure::Serialization) => Err(ProverError::ArkSerialize),
    }
}

/// Lays out the three elements of a proof as 256 bytes: 64 for the first,
/// 128 for the second and 64 for the third. Elements of any other length
/// are refused.
pub fn arkworks_proof_layout(
    elements: Result<(Vec<u8>, Vec<u8>, Vec<u8>), ConversionFailure>,
) -> (outcome: Result<Vec<u8>, ProverError>)
    ensures
        match (outcome, elements) {
            (Ok(proof), Ok(parts)) => spec_arkworks_proof(
                Ok((parts.0@, parts.1@, parts.2@)),
            ) == Ok::<_, ProverError>(proof@),
            (Err(e), Ok(parts)) => spec_arkworks_proof(Ok((parts.0@, parts.1@, parts.2@)))
                == Err::<Seq<u8>, _>(e),
            (Err(e), Err(failure)) => spec_arkworks_proof(Err(failure)) == Err::<Seq<u8>, _>(e),
            (Ok(_), Err(_)) => false,
        },
{
    match elements {
        Ok(parts) => {
            if parts.0.len() != 64 || parts.1.len() != 128 || parts.2.len() != 64 {
                return Err(ProverError::ArkSerialize);
            }
            let mut proof: Vec<u8> = Vec::with_capacity(256);
            append_bytes(&mut proof, parts.0.as_slice());
            append_bytes(&mut proof, parts.1.as_slice());
            append_bytes(&mut proof, parts.2.as_slice());
            Ok(proof)
        },
        Err(ConversionFailure::Element(e)) => Err(ProverError::ArkGroth16(e)),
        Err(ConversionFailure::Serialization) => Err(ProverError::ArkSerialize),
    }
}

/// Converts a proof as the backend hands it out into the 256 bytes that
/// [`Groth16Proof`] holds.
///
/// The first four bytes name the verifying key and are skipped; the other
/// 256 hold the three elements. Any length but 260 bytes is refused.
pub fn to_arkworks_groth16_proof_bytes(gnark_groth16: &[u8]) -> (outcome: Result<
    Vec<u8>,
    ProverError,
>)
    ensures
        gnark_groth16@.len() != 260 ==> (outcome matches Err(
            ProverError::VerifyGroth16Proof(text),
        ) && text@ == "proof is not 260 bytes long"@),
        gnark_groth16@.len() == 260 ==> match outcome {
            Ok(proof) => spec_arkworks_proof(
                arkworks_elements(gnark_groth16@.subrange(4, gnark_groth16@.len() as int)),
            ) == Ok::<_, ProverError>(proof@),
            Err(e) => spec_arkworks_proof(
                arkworks_elements(gnark_groth16@.subrange(4, gnark_groth16@.len() as int)),
            ) == Err::<Seq<u8>, _>(e),
        },
{
    if gnark_groth16.len() != 260 {
        return Err(ProverError::VerifyGroth16Proof("proof is not 260 bytes long".to_owned()));
    }
    let body = vstd::slice::slice_subrange(gnark_groth16, 4, gnark_groth16.len());
    arkworks_proof_layout(convert_gnark_elements(body))
}

impl Groth16Proof {
    /// Verifies the proof against the verifying key of the proof system.
    ///
    /// The 256 bytes of `proof` are read as the three proof elements, of 64,
    /// 128 and 64 bytes, each followed by a zero byte of flags. The
    /// two public inputs are the digest of the verification key, read from
    /// its text, and the digest of the public values. The result is the
    /// verdict of the pairing check: `Ok(true)` for a proof that verifies,
    /// `Ok(false)` for one that does not, and an error where an element is
    /// no curve point or the check cannot be carried out. A proof of any
    /// length but 256 bytes, and a key digest that is no such text, are
    /// refused before anything is checked.
    pub fn verify(&self) -> (outcome: Result<bool, ProverError>)
        ensures
            self.proof@.len() != 256 ==> (outcome matches Err(
                ProverError::VerifyGroth16Proof(text),
            ) && text@ == "proof is not 256 bytes long"@),
            self.proof@.len() == 256 && !spec_is_vkey_hash_text(encode_utf8(self.vkey@)) ==> (
            outcome matches Err(ProverError::VerifyGroth16Proof(text)) && text@
                == "verification key hash is not 32 bytes in hexadecimal"@),
            self.proof@.len() == 256 && spec_is_vkey_hash_text(encode_utf8(self.vkey@))
                ==> outcome == spec_verify_groth16(
                self.proof@,
                self.public_values@,
                encode_utf8(self.vkey@),
            ),
    {
        if self.proof.len() != 256 {
            return Err(ProverError::VerifyGroth16Proof("proof is not 256 bytes long".to_owned()));
        }
        let vkey_hash = match decode_vkey_hash(self.vkey.as_str()) {
            Some(hash) => hash,
            None => {
                return Err(
                    ProverError::VerifyGroth16Proof(
                        "verification key hash is not 32 bytes in hexadecimal".to_owned(),
                    ),
                );
            },
        };
        let digest = hash_public_inputs(self.public_values.as_slice());
        let a = proof_element(&self.proof, 0, 64);
        let b = proof_element(&self.proof, 64, 192);
        let c = proof_element(&self.proof, 192, 256);
        groth16_outcome(
            ark_groth16_verify(a.as_slice(), b.as_slice(), c.as_slice(), &vkey_hash, &digest),
        )
    }
}

} // verus!
