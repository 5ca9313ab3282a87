//! One step of the consensus proof of the BFT chain: fold the step into the
//! chain of proofs, verify the target header against the trusted one with
//! the light client, and state what was proved.
//!
//! A light block travels as its CBOR encoding. What the step reads of a
//! block, and what the light client says of it, is the work of the
//! `tendermint` crates: the small trusted functions at the top of this file
//! decode the bytes and ask them, and each answer has a name in the
//! contracts.

use core::time::Duration;
use crate::accumulator::ChainError;
use crate::accumulator::fold_step;
use crate::accumulator::parent_proof_check;
use crate::accumulator::ProofCheck;
use crate::accumulator::spec_fold;
use crate::babylon::TendermintOutput;
use crate::babylon::VerifierPublicInput;
use crate::bytes::append_bytes;
use crate::bytes::bytes32_eq;
use crate::bytes::read_bytes32;
use crate::sha256;
use crate::sha256_hash;
use serde_cbor::from_slice;
use tendermint_light_client_verifier::options::Options;
use tendermint_light_client_verifier::ProdVerifier;
use tendermint_light_client_verifier::types::LightBlock;
use tendermint_light_client_verifier::types::TrustThreshold;
use tendermint_light_client_verifier::Verdict;
use tendermint_light_client_verifier::Verifier;
use vstd::prelude::*;

verus! {

/// A light block as it travels: its CBOR encoding.
pub type EncodedLightBlock = Vec<u8>;

/// Share of the trusted voting power that must have signed: two thirds.
pub const TRUST_THRESHOLD_NUMERATOR: u64 = 2;

/// Share of the trusted voting power that must have signed: two thirds.
pub const TRUST_THRESHOLD_DENOMINATOR: u64 = 3;

/// How long a trusted header stays trusted: fourteen days, in seconds.
pub const TRUSTING_PERIOD_SECONDS: u64 = 1_209_600;

/// How far the clock may lag behind the chain, in seconds.
pub const CLOCK_DRIFT_SECONDS: u64 = 0;

/// How long after the time of the target header it is verified, in seconds.
pub const VERIFICATION_DELAY_SECONDS: u64 = 20;

/// The greatest height a header can have.
pub const MAX_HEIGHT: u64 = 0x7fff_ffff_ffff_ffff;

/// The greatest number of bytes that an encoded target block may have. The
/// light client numbers the signatures of a block with 31 bits, and a block
/// of no more bytes holds no more signatures.
pub const MAX_BLOCK_BYTES: usize = 0x7fff_ffff;

/// What the light client says of a target header.
#[derive(Clone, Copy, Debug, PartialEq, Eq)]
pub enum HeaderVerdict {
    /// The header is valid and trusted.
    Success,
    /// Too little of the trusted voting power signed the header.
    NotEnoughTrust,
    /// The header is invalid.
    Invalid,
    /// The parameters do not make a trust threshold, or the instant of
    /// verification cannot be represented.
    BadParameters,
}

/// What a step reads of the header of a light block.
#[derive(Clone, Debug, PartialEq, Eq)]
pub struct HeaderFacts {
    /// The height of the header.
    pub height: u64,
    /// The hash of the header; `None` stands for the empty hash.
    pub hash: Option<[u8; 32]>,
    /// The application state root in the header.
    pub app_hash: Vec<u8>,
}

/// The greatest numerator and denominator of a trust threshold that the
/// light client is asked with. It multiplies voting power by either, and the
/// voting power of a validator set is below 2^60.
pub const MAX_THRESHOLD_TERM: u64 = 16;

/// The height, the hash and the application state root of the header of an
/// encoded light block, or `None` where the bytes are no light block.
///
/// This stands for what `serde_cbor` decodes and what
/// `tendermint::block::Header::hash` computes.
pub uninterp spec fn header_facts_of(block: Seq<u8>) -> Option<(u64, Option<[u8; 32]>, Seq<u8>)>;

/// The hash of the next validator set that an encoded light block carries,
/// then the one that its header declares. In either place `None` stands for
/// the empty hash. The pair means something for bytes that are a light
/// block.
///
/// This stands for what `tendermint::validator::Set::hash` computes of the
/// decoded block.
pub uninterp spec fn next_validators_hashes_of(block: Seq<u8>) -> (
    Option<[u8; 32]>,
    Option<[u8; 32]>,
);

/// The light client's verdict on an encoded target block, starting from an
/// encoded trusted block, under a trust threshold of `numerator` over
/// `denominator`, a trusting period and a clock drift in seconds, `delay`
/// seconds after the time of the target header. The verdict means something
/// for bytes that are light blocks.
///
/// This stands for what `ProdVerifier::verify_update_header` of the
/// `tendermint-light-client-verifier` crate decides of the decoded blocks.
pub uninterp spec fn light_client_verdict_of(
    untrusted: Seq<u8>,
    trusted: Seq<u8>,
    numerator: u64,
    denominator: u64,
    period: u64,
    drift: u64,
    delay: u64,
) -> HeaderVerdict;

/// Reads the header of an encoded light block.
///
/// Trusted: decodes with `serde_cbor::from_slice`, hashes the header with
/// `tendermint::block::Header::hash` and reads its height and application
/// state root. The result is named [`header_facts_of`]; nothing more is
/// claimed of it.
#[verifier::external_body]
fn header_facts(block: &[u8]) -> (facts: Option<HeaderFacts>)
    ensures
        match facts {
            Some(read) => header_facts_of(block@) == Some((read.height, read.hash, read.app_hash@)),
            None => header_facts_of(block@) is None,
        },
{
    let Ok(block) = from_slice::<LightBlock>(block) else { return None; };
    let header = block.signed_header.header;
    let hash = match header.hash() {
        tendermint::Hash::Sha256(bytes) => Some(bytes),
        tendermint::Hash::None => None,
    };
    Some(HeaderFacts { height: header.height.value(), hash, app_hash: header.app_hash.as_bytes().to_vec() })
}

/// Reads both hashes of the next validator set of an encoded light block:
/// the hash of the set that the block carries, then the hash that its header
/// declares.
///
/// Trusted: decodes with `serde_cbor::from_slice`, hashes `next_validators`
/// with `tendermint::validator::Set::hash` and reads `next_validators_hash`
/// of `LightBlock::as_trusted_state`. There is a result exactly for the
/// bytes that [`header_facts`] reads, since both decode the same way; it is
/// named [`next_validators_hashes_of`], and nothing more is claimed of it.
#[verifier::external_body]
fn next_validators_hashes(block: &[u8]) -> (hashes: Option<(Option<[u8; 32]>, Option<[u8; 32]>)>)
    ensures
        match hashes {
            Some(pair) => header_facts_of(block@) is Some && pair == next_validators_hashes_of(
                block@,
            ),
            None => header_facts_of(block@) is None,
        },
{
    let Ok(block) = from_slice::<LightBlock>(block) else { return None; };
    let carried = match block.next_validators.hash() {
        tendermint::Hash::Sha256(bytes) => Some(bytes),
        tendermint::Hash::None => None,
    };
    let declared = match block.as_trusted_state().next_validators_hash {
        tendermint::Hash::Sha256(bytes) => Some(bytes),
        tendermint::Hash::None => None,
    };
    Some((carried, declared))
}

/// The light client's verdict on `untrusted`, starting from `trusted`.
///
/// Trusted: decodes both blocks with `serde_cbor::from_slice` and calls
/// `ProdVerifier::verify_update_header` of
/// `tendermint-light-client-verifier`, with the given trust threshold,
/// trusting period and clock drift, at the time of `untrusted` plus `delay`
/// seconds. There is a verdict exactly where [`header_facts`] reads both
/// blocks, since all decode the same way; it is named
/// [`light_client_verdict_of`], and nothing more is claimed of it.
///
/// The call adds one to the height of the trusted header, multiplies voting
/// power, which is below 2^60, by the numerator and by the denominator, and
/// numbers the signatures of the target block with 31 bits. So a trusted
/// header at the greatest height, a numerator or a denominator above 16 and
/// a target block of 2^31 bytes or more are left out.
#[verifier::external_body]
fn light_client_verdict(
    untrusted: &[u8],
    trusted: &[u8],
    numerator: u64,
    denominator: u64,
    period: u64,
    drift: u64,
    delay: u64,
) -> (verdict: Option<HeaderVerdict>)
    requires
        numerator <= MAX_THRESHOLD_TERM,
        denominator <= MAX_THRESHOLD_TERM,
        header_facts_of(trusted@) matches Some(facts) ==> facts.0 < MAX_HEIGHT,
        untrusted@.len() <= MAX_BLOCK_BYTES,
    ensures
        match verdict {
            Some(said) => header_facts_of(trusted@) is Some && header_facts_of(untrusted@) is Some
                && said == light_client_verdict_of(
                untrusted@,
                trusted@,
                numerator,
                denominator,
                period,
                drift,
                delay,
            ),
            None => header_facts_of(trusted@) is None || header_facts_of(untrusted@) is None,
        },
{
    let trusted = from_slice::<LightBlock>(trusted).ok()?;
    let untrusted = from_slice::<LightBlock>(untrusted).ok()?;
    let seconds = Duration::from_secs;
    let parameters = (TrustThreshold::new(numerator, denominator), untrusted.time() + seconds(delay));
    let (Ok(trust_threshold), Ok(now)) = parameters else { return Some(HeaderVerdict::BadParameters); };
    let options = Options { trust_threshold, trusting_period: seconds(period), clock_drift: seconds(drift) };
    let verifier = ProdVerifier::default();
    Some(match verifier.verify_update_header(untrusted.as_untrusted_state(), trusted.as_trusted_state(), &options, now) {
        Verdict::Success => HeaderVerdict::Success,
        Verdict::NotEnoughTrust(_) => HeaderVerdict::NotEnoughTrust,
        Verdict::Invalid(_) => HeaderVerdict::Invalid,
    })
}

/// Why a target header is not accepted.
#[derive(Clone, Copy, Debug, PartialEq, Eq)]
pub enum LightClientError {
    /// The next validator set that the trusted block carries is not the one
    /// its header declares.
    NextValidatorsHashMismatch,
    /// Too little of the trusted voting power signed the target header.
    NotEnoughTrust,
    /// The target header is invalid.
    InvalidHeader,
    /// The instant of verification cannot be represented.
    BadVerificationParameters,
    /// The bytes of the trusted block are no light block.
    UndecodableTrustedBlock,
    /// The bytes of the target block are no light block.
    UndecodableTargetBlock,
    /// The target block has 2^31 bytes or more.
    TargetBlockTooLong,
    /// The trusted header stands at the greatest height there is, so that
    /// no header can follow it.
    TrustedHeightAtMaximum,
    /// The trusted header has no 32-byte hash.
    InvalidTrustedHeaderHash,
    /// The target header has no 32-byte hash.
    InvalidTargetHeaderHash,
    /// The application state root of the target header is not 32 bytes.
    InvalidAppHashLength { actual: usize },
}

/// Why a consensus step yields no output.
#[derive(Clone, Copy, Debug, PartialEq, Eq)]
pub enum ConsensusStepError {
    /// The step cannot be chained to the one before.
    Chain(ChainError),
    /// The light client does not accept the target header.
    LightClient(LightClientError),
}

/// The trusted and the target light block of one step, each encoded.
#[derive(Clone, Debug, PartialEq, Eq)]
pub struct ConsensusWitness {
    /// The last light block already proved.
    pub trusted_block: EncodedLightBlock,
    /// The light block to be proved.
    pub untrusted_block: EncodedLightBlock,
}

/// The digest of two header hashes, the trusted one first.
pub open spec fn spec_witness_hash(trusted: Seq<u8>, untrusted: Seq<u8>) -> Seq<u8> {
    sha256(trusted + untrusted)@
}

/// The digest of two header hashes, the trusted one first.
pub fn witness_hash(trusted_header_hash: &[u8; 32], untrusted_header_hash: &[u8; 32]) -> (hash: [u8;
    32])
    ensures
        hash@ == spec_witness_hash(trusted_header_hash@, untrusted_header_hash@),
        hash == sha256(trusted_header_hash@ + untrusted_header_hash@),
{
    let mut buf: Vec<u8> = Vec::new();
    append_bytes(&mut buf, trusted_header_hash.as_slice());
    append_bytes(&mut buf, untrusted_header_hash.as_slice());
    sha256_hash(buf.as_slice())
}

/// The digest of the hashes of the headers of two encoded light blocks, the
/// trusted one first, or `None` where one of them is no light block or its
/// header has no 32-byte hash.
pub open spec fn spec_blocks_hash(trusted_block: Seq<u8>, untrusted_block: Seq<u8>) -> Option<
    [u8; 32],
> {
    match (header_facts_of(trusted_block), header_facts_of(untrusted_block)) {
        (Some(trusted), Some(untrusted)) => match (trusted.1, untrusted.1) {
            (Some(trusted_hash), Some(untrusted_hash)) => Some(
                sha256(trusted_hash@ + untrusted_hash@),
            ),
            _ => None,
        },
        _ => None,
    }
}

impl ConsensusWitness {
    /// The digest of the hashes of the two headers, or `None` where a block
    /// cannot be decoded or its header has no 32-byte hash.
    pub open spec fn spec_hash(&self) -> Option<[u8; 32]> {
        spec_blocks_hash(self.trusted_block@, self.untrusted_block@)
    }

    /// The digest of the hashes of the two headers, the trusted one first,
    /// or `None` where a block cannot be decoded or its header has no
    /// 32-byte hash.
    pub fn compute_hash(&self) -> (hash: Option<[u8; 32]>)
        ensures
            hash == self.spec_hash(),
    {
        let trusted = match header_facts(self.trusted_block.as_slice()) {
            Some(facts) => facts,
            None => {
                return None;
            },
        };
        let untrusted = match header_facts(self.untrusted_block.as_slice()) {
            Some(facts) => facts,
            None => {
                return None;
            },
        };
        match (trusted.hash, untrusted.hash) {
            (Some(trusted_hash), Some(untrusted_hash)) => Some(
                witness_hash(&trusted_hash, &untrusted_hash),
            ),
            _ => None,
        }
    }
}

/// Everything one consensus step reads.
#[derive(Clone, Debug)]
pub struct ConsensusInput {
    /// Position of the step in the chain of proofs, from 0.
    pub proving_block_index: u64,
    /// Digest of the verification key of the consensus circuit.
    pub circuit_vkey_u32_hash: [u32; 8],
    /// What the proof of the step before committed to.
    pub parent_public_input: TendermintOutput,
    /// What the verifier of this step knows.
    pub current_public_input: VerifierPublicInput,
    /// The light blocks of this step.
    pub witness: ConsensusWitness,
}

/// Whether two optional hashes are the same.
pub open spec fn spec_same_hash(a: Option<[u8; 32]>, b: Option<[u8; 32]>) -> bool {
    match (a, b) {
        (Some(x), Some(y)) => x@ == y@,
        (None, None) => true,
        _ => false,
    }
}

/// Checks that the next validator set carried by a trusted block is the one
/// its header declares.
pub fn check_next_validators(carried: Option<[u8; 32]>, declared: Option<[u8; 32]>) -> (outcome:
    Result<(), LightClientError>)
    ensures
        spec_same_hash(carried, declared) <==> outcome is Ok,
        outcome is Err ==> outcome == Err::<(), _>(LightClientError::NextValidatorsHashMismatch),
{
    let same = match (carried, declared) {
        (Some(x), Some(y)) => bytes32_eq(&x, &y),
        (None, None) => true,
        _ => false,
    };
    if same {
        Ok(())
    } else {
        Err(LightClientError::NextValidatorsHashMismatch)
    }
}

/// What a verdict of the light client means for the step.
pub open spec fn spec_check_verdict(verdict: HeaderVerdict) -> Result<(), LightClientError> {
    match verdict {
        HeaderVerdict::Success => Ok(()),
        HeaderVerdict::NotEnoughTrust => Err(LightClientError::NotEnoughTrust),
        HeaderVerdict::Invalid => Err(LightClientError::InvalidHeader),
        HeaderVerdict::BadParameters => Err(LightClientError::BadVerificationParameters),
    }
}

/// Accepts a success verdict and nothing else.
pub fn check_verdict(verdict: HeaderVerdict) -> (outcome: Result<(), LightClientError>)
    ensures
        outcome == spec_check_verdict(verdict),
{
    match verdict {
        HeaderVerdict::Success => Ok(()),
        HeaderVerdict::NotEnoughTrust => Err(LightClientError::NotEnoughTrust),
        HeaderVerdict::Invalid => Err(LightClientError::InvalidHeader),
        HeaderVerdict::BadParameters => Err(LightClientError::BadVerificationParameters),
    }
}

/// The outcome of verifying the header of an encoded target block against an
/// encoded trusted block.
///
/// Both must be light blocks, the target one of fewer than 2^31 bytes. The
/// trusted header must stand below the greatest height, and the next
/// validator set that the trusted block
/// carries must be the one its header declares. Then the light client
/// decides, under a trust threshold of two thirds, a trusting period of
/// fourteen days and no clock drift, twenty seconds after the time of the
/// target header; only its success verdict is success.
pub open spec fn spec_verify_header(trusted_block: Seq<u8>, untrusted_block: Seq<u8>) -> Result<
    (),
    LightClientError,
> {
    match header_facts_of(trusted_block) {
        None => Err(LightClientError::UndecodableTrustedBlock),
        Some(trusted) => if untrusted_block.len() > MAX_BLOCK_BYTES {
            Err(LightClientError::TargetBlockTooLong)
        } else if header_facts_of(untrusted_block) is None {
            Err(LightClientError::UndecodableTargetBlock)
        } else if trusted.0 >= MAX_HEIGHT {
            Err(LightClientError::TrustedHeightAtMaximum)
        } else if !spec_same_hash(
            next_validators_hashes_of(trusted_block).0,
            next_validators_hashes_of(trusted_block).1,
        ) {
            Err(LightClientError::NextValidatorsHashMismatch)
        } else {
            spec_check_verdict(
                light_client_verdict_of(
                    untrusted_block,
                    trusted_block,
                    TRUST_THRESHOLD_NUMERATOR,
                    TRUST_THRESHOLD_DENOMINATOR,
                    TRUSTING_PERIOD_SECONDS,
                    CLOCK_DRIFT_SECONDS,
                    VERIFICATION_DELAY_SECONDS,
                ),
            )
        },
    }
}

/// A header that is verified was read: where verification succeeds, both
/// blocks are light blocks and the trusted header stands below the greatest
/// height.
pub proof fn lemma_verified_blocks_were_read(trusted_block: Seq<u8>, untrusted_block: Seq<u8>)
    requires
        spec_verify_header(trusted_block, untrusted_block) is Ok,
    ensures
        header_facts_of(trusted_block) is Some,
        header_facts_of(untrusted_block) is Some,
        header_facts_of(trusted_block)->Some_0.0 < MAX_HEIGHT,
{
}

/// Verifies a target header against a trusted block whose header was read
/// at `trusted_height`, where the target block was read too.
fn verify_read_header(trusted_block: &[u8], untrusted_block: &[u8], trusted_height: u64) -> (outcome:
    Result<(), LightClientError>)
    requires
        header_facts_of(trusted_block@) is Some,
        header_facts_of(trusted_block@)->Some_0.0 == trusted_height,
        untrusted_block@.len() <= MAX_BLOCK_BYTES,
        header_facts_of(untrusted_block@) is Some,
    ensures
        outcome == spec_verify_header(trusted_block@, untrusted_block@),
{
    if trusted_height >= MAX_HEIGHT {
        return Err(LightClientError::TrustedHeightAtMaximum);
    }
    let (carried, declared) = match next_validators_hashes(trusted_block) {
        Some(hashes) => hashes,
        None => {
            return Err(LightClientError::UndecodableTrustedBlock);
        },
    };
    match check_next_validators(carried, declared) {
        Err(e) => {
            return Err(e);
        },
        Ok(()) => {},
    }
    match light_client_verdict(
        untrusted_block,
        trusted_block,
        TRUST_THRESHOLD_NUMERATOR,
        TRUST_THRESHOLD_DENOMINATOR,
        TRUSTING_PERIOD_SECONDS,
        CLOCK_DRIFT_SECONDS,
        VERIFICATION_DELAY_SECONDS,
    ) {
        Some(verdict) => check_verdict(verdict),
        None => Err(LightClientError::UndecodableTargetBlock),
    }
}

/// Verifies the header of `untrusted_block` against `trusted_block`, both
/// encoded.
///
/// Both blocks are read first. Bytes that are no light block are refused,
/// as are a target block of 2^31 bytes or more, which is not read, and a
/// trusted header at the greatest height, which no header can follow. Then the next validator set that the trusted block carries
/// must be the one its header declares, and the light client must accept
/// the target header under a trust threshold of two thirds and a trusting
/// period of fourteen days, twenty seconds after the time of the target
/// header. The first of these that fails is reported.
pub fn verify_header(trusted_block: &[u8], untrusted_block: &[u8]) -> (outcome: Result<
    (),
    LightClientError,
>)
    ensures
        outcome == spec_verify_header(trusted_block@, untrusted_block@),
{
    let trusted = match header_facts(trusted_block) {
        Some(facts) => facts,
        None => {
            return Err(LightClientError::UndecodableTrustedBlock);
        },
    };
    if untrusted_block.len() > MAX_BLOCK_BYTES {
        return Err(LightClientError::TargetBlockTooLong);
    }
    if header_facts(untrusted_block).is_none() {
        return Err(LightClientError::UndecodableTargetBlock);
    }
    verify_read_header(trusted_block, untrusted_block, trusted.height)
}

/// Why what was read of the two headers makes no output, if anything.
pub open spec fn spec_step_output_error(
    trusted_header_hash: Option<[u8; 32]>,
    target_header_hash: Option<[u8; 32]>,
    app_hash: Seq<u8>,
) -> Option<LightClientError> {
    if trusted_header_hash is None {
        Some(LightClientError::InvalidTrustedHeaderHash)
    } else if target_header_hash is None {
        Some(LightClientError::InvalidTargetHeaderHash)
    } else if app_hash.len() != 32 {
        Some(LightClientError::InvalidAppHashLength { actual: app_hash.len() as usize })
    } else {
        None
    }
}

/// States what a step proved: the two heights, the two header hashes, the
/// accumulator and the application state root, each taken as it was read.
///
/// A header without a 32-byte hash, or a state root that is not 32 bytes
/// long, is refused.
pub fn step_output(
    trusted_height: u64,
    target_height: u64,
    trusted_header_hash: Option<[u8; 32]>,
    target_header_hash: Option<[u8; 32]>,
    app_hash: &Vec<u8>,
    accumulator: [u8; 32],
) -> (outcome: Result<TendermintOutput, LightClientError>)
    ensures
        match outcome {
            Ok(output) => {
                &&& spec_step_output_error(trusted_header_hash, target_header_hash, app_hash@)
                    is None
                &&& output.trusted_height == trusted_height
                &&& output.target_height == target_height
                &&& Some(output.trusted_header_hash) == trusted_header_hash
                &&& Some(output.target_header_hash) == target_header_hash
                &&& output.compressed_block_public_input == accumulator
                &&& output.app_hash@ == app_hash@
            },
            Err(e) => spec_step_output_error(trusted_header_hash, target_header_hash, app_hash@)
                == Some(e),
        },
{
    let trusted_header_hash = match trusted_header_hash {
        Some(hash) => hash,
        None => {
            return Err(LightClientError::InvalidTrustedHeaderHash);
        },
    };
    let target_header_hash = match target_header_hash {
        Some(hash) => hash,
        None => {
            return Err(LightClientError::InvalidTargetHeaderHash);
        },
    };
    if app_hash.len() != 32 {
        return Err(LightClientError::InvalidAppHashLength { actual: app_hash.len() });
    }
    let ghost root = app_hash@;
    let app_hash = read_bytes32(app_hash.as_slice(), 0);
    assert(app_hash@ =~= root);
    let output = TendermintOutput {
        trusted_height,
        target_height,
        trusted_header_hash,
        target_header_hash,
        compressed_block_public_input: accumulator,
        app_hash,
    };
    Ok(output)
}

/// What the backend has to verify before the step described by `input` may
/// go on: nothing for the first step, and for a later one the proof of the
/// step before, against the hash of what that proof committed to.
pub fn step_parent_check(input: &ConsensusInput) -> (check: Option<ProofCheck>)
    ensures
        input.proving_block_index == 0 ==> check is None,
        input.proving_block_index != 0 ==> check is Some
            && check->Some_0.vkey_u32_hash == input.circuit_vkey_u32_hash
            && check->Some_0.committed_hash@ == input.parent_public_input.spec_hash(),
{
    if input.proving_block_index == 0 {
        None
    } else {
        let hash = input.parent_public_input.compute_hash();
        parent_proof_check(input.proving_block_index, input.circuit_vkey_u32_hash, hash)
    }
}

/// Why a consensus step yields no output, if anything: the chaining error,
/// else what verification of the header refuses, else what is wrong with
/// what is read of the two headers.
pub open spec fn spec_consensus_step_error(
    input: ConsensusInput,
    parent_verdict: Option<bool>,
) -> Option<ConsensusStepError> {
    let trusted_block = input.witness.trusted_block@;
    let untrusted_block = input.witness.untrusted_block@;
    if input.proving_block_index != 0 && parent_verdict == Some(false) {
        Some(ConsensusStepError::Chain(ChainError::ParentProofRejected))
    } else if input.proving_block_index != 0 && parent_verdict is None {
        Some(ConsensusStepError::Chain(ChainError::ParentProofUnchecked))
    } else {
        match spec_verify_header(trusted_block, untrusted_block) {
            Err(e) => Some(ConsensusStepError::LightClient(e)),
            Ok(()) => match spec_step_output_error(
                header_facts_of(trusted_block)->Some_0.1,
                header_facts_of(untrusted_block)->Some_0.1,
                header_facts_of(untrusted_block)->Some_0.2,
            ) {
                Some(e) => Some(ConsensusStepError::LightClient(e)),
                None => None,
            },
        }
    }
}

/// Runs one consensus step.
///
/// `parent_verdict` is what the backend said of the check that
/// [`step_parent_check`] names. The step folds the hash of its verifier
/// input into the accumulator of the step before, verifies the target header
/// with the light client and states what was proved: the heights and the
/// hashes of the two headers and the application state root of the target
/// header, each as it is read from the blocks, and the folded accumulator. A
/// step that cannot be chained, a header that is not verified, and a header
/// without a 32-byte hash or state root yield the error and no output.
pub fn consensus_step(input: &ConsensusInput, parent_verdict: Option<bool>) -> (outcome: Result<
    TendermintOutput,
    ConsensusStepError,
>)
    ensures
        match outcome {
            Ok(output) => {
                let trusted = header_facts_of(input.witness.trusted_block@);
                let target = header_facts_of(input.witness.untrusted_block@);
                &&& spec_consensus_step_error(*input, parent_verdict) is None
                &&& trusted is Some
                &&& target is Some
                &&& output.trusted_height == trusted->Some_0.0
                &&& output.target_height == target->Some_0.0
                &&& Some(output.trusted_header_hash) == trusted->Some_0.1
                &&& Some(output.target_header_hash) == target->Some_0.1
                &&& output.app_hash@ == target->Some_0.2
                &&& output.compressed_block_public_input@ == spec_fold(
                    input.proving_block_index as int,
                    input.parent_public_input.compressed_block_public_input@,
                    input.current_public_input.spec_hash(),
                )
            },
            Err(e) => spec_consensus_step_error(*input, parent_verdict) == Some(e),
        },
{
    let current_hash = input.current_public_input.compute_hash();
    let accumulator = match fold_step(
        input.proving_block_index,
        &input.parent_public_input.compressed_block_public_input,
        &current_hash,
        parent_verdict,
    ) {
        Ok(accumulator) => accumulator,
        Err(e) => {
            return Err(ConsensusStepError::Chain(e));
        },
    };
    let trusted_block = input.witness.trusted_block.as_slice();
    let untrusted_block = input.witness.untrusted_block.as_slice();
    let trusted = match header_facts(trusted_block) {
        Some(facts) => facts,
        None => {
            return Err(ConsensusStepError::LightClient(LightClientError::UndecodableTrustedBlock));
        },
    };
    if untrusted_block.len() > MAX_BLOCK_BYTES {
        return Err(ConsensusStepError::LightClient(LightClientError::TargetBlockTooLong));
    }
    let target = match header_facts(untrusted_block) {
        Some(facts) => facts,
        None => {
            return Err(ConsensusStepError::LightClient(LightClientError::UndecodableTargetBlock));
        },
    };
    match verify_read_header(trusted_block, untrusted_block, trusted.height) {
        Err(e) => {
            return Err(ConsensusStepError::LightClient(e));
        },
        Ok(()) => {},
    }
    match step_output(
        trusted.height,
        target.height,
        trusted.hash,
        target.hash,
        &target.app_hash,
        accumulator,
    ) {
        Ok(output) => Ok(output),
        Err(e) => Err(ConsensusStepError::LightClient(e)),
    }
}

} // verus!
