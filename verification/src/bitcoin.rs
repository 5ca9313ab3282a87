//! The proof-of-work chain: hashing conventions, the transaction Merkle tree
//! and the inputs of the aggregation step.

use crate::bitcoin::consensus::ConsensusVerifierPublicInput;
use crate::bitcoin::inclusion::InclusionPublicInput;
use crate::bytes::append_bytes;
use crate::bytes::lemma_reversed;
use crate::bytes::spec_reversed;
use crate::sha256;
use crate::sha256_collides;
use crate::sha256_collision_exists;
use crate::sha256_hash;
use vstd::prelude::*;

pub mod block;
pub mod consensus;
pub mod inclusion;
pub mod median;

verus! {

/// Number of headers before the proposed one that every window carries.
pub const MIN_TRUSTED_BLOCK_NUMBER: usize = 11;

/// Depth at which a block's transaction root is committed to.
pub const M_CONFIRMATION: usize = 3;

/// Most headers a window may carry.
pub const MAX_BLOCKS: usize = 3000;

/// Blocks in one difficulty epoch.
pub const EPOCH_BLOCK_NUMBER: u32 = 2016;

/// Seconds that one block is expected to take.
pub const BLOCK_TIMEVAL: u32 = 600;

/// Seconds that one difficulty epoch is expected to take.
pub const EXPECTED_EPOCH_SECONDS: u32 = 1_209_600;

/// Height of the genesis block.
pub const GENESIS_BLOCK_HEIGHT: u64 = 0;

/// Hash that stands for the block before the genesis block.
pub const GENESIS_BLOCK_HASH: [u8; 32] = [
    0, 0, 0, 0, 0, 0, 0, 0, 0, 0, 0, 0, 0, 0, 0, 0, 0, 0, 0, 0, 0, 0, 0, 0, 0, 0, 0, 0, 0, 0, 0, 0,
];

/// Target bits that stand for the block before the genesis block.
pub const GENESIS_TARGET_BITS: [u8; 4] = [0, 0, 0, 0];

/// Public values of the aggregation of a consensus proof and an inclusion
/// proof.
#[derive(Default, Debug, Clone)]
pub struct AggregationPublicInput {
    pub consensus_verifier_public_input: ConsensusVerifierPublicInput,
    pub inclusion_public_input: InclusionPublicInput,
}

/// Private values of the aggregation; there are none.
#[derive(Default, Debug, Clone)]
pub struct AggregationWitness {}

/// Everything the aggregation step reads.
#[derive(Default, Debug, Clone)]
pub struct AggregationInput {
    pub consensus_vkey_u32_hash: [u32; 8],
    pub public_input: AggregationPublicInput,
    pub witness: AggregationWitness,
}

impl AggregationInput {
    /// The input for a key digest and the public values of both proofs.
    pub fn new(
        consensus_vkey_u32_hash: [u32; 8],
        consensus_verifier_public_input: ConsensusVerifierPublicInput,
        inclusion_public_input: InclusionPublicInput,
    ) -> (input: Self)
        ensures
            input.consensus_vkey_u32_hash == consensus_vkey_u32_hash,
            input.public_input.consensus_verifier_public_input == consensus_verifier_public_input,
            input.public_input.inclusion_public_input == inclusion_public_input,
    {
        Self {
            consensus_vkey_u32_hash,
            public_input: AggregationPublicInput {
                consensus_verifier_public_input,
                inclusion_public_input,
            },
            witness: AggregationWitness {  },
        }
    }
}

/// The chain's hash of `data`: SHA-256 applied twice, bytes reversed.
pub open spec fn spec_double_sha256(data: Seq<u8>) -> Seq<u8> {
    sha256(sha256(data)@)@.reverse()
}

/// The chain's hash of `data` as a 32-byte value.
pub open spec fn spec_double_sha256_digest(data: Seq<u8>) -> [u8; 32] {
    spec_reversed(sha256(sha256(data)@))
}

/// The parent of two tree nodes: the chain's hash of both, each reversed.
pub open spec fn spec_hash_pairs(left: Seq<u8>, right: Seq<u8>) -> Seq<u8> {
    spec_double_sha256(left.reverse() + right.reverse())
}

/// The byte strings that a sequence of 32-byte values holds.
pub open spec fn digests(nodes: Seq<[u8; 32]>) -> Seq<Seq<u8>> {
    Seq::new(nodes.len(), |i: int| nodes[i]@)
}

/// The level above `level`: nodes are paired left to right, and a last node
/// without a partner is paired with itself.
pub open spec fn spec_parent_level(level: Seq<Seq<u8>>) -> Seq<Seq<u8>> {
    Seq::new(
        (level.len() + 1) / 2,
        |i: int|
            spec_hash_pairs(
                level[2 * i],
                if 2 * i + 1 < level.len() {
                    level[2 * i + 1]
                } else {
                    level[2 * i]
                },
            ),
    )
}

/// The root of the tree over `leaves`.
pub open spec fn spec_merkle_root(leaves: Seq<Seq<u8>>) -> Seq<u8>
    decreases leaves.len(),
{
    if leaves.len() <= 1 {
        leaves[0]
    } else {
        spec_merkle_root(spec_parent_level(leaves))
    }
}

/// The chain's hash as a 32-byte value holds the bytes of the chain's hash.
pub proof fn lemma_double_sha256_digest(data: Seq<u8>)
    ensures
        spec_double_sha256_digest(data)@ == spec_double_sha256(data),
{
    lemma_reversed(sha256(sha256(data)@));
}

/// Two byte strings with one chain hash give two byte strings with one
/// SHA-256 digest.
pub proof fn lemma_double_sha256_binds(x: Seq<u8>, y: Seq<u8>)
    requires
        x != y,
        spec_double_sha256(x) == spec_double_sha256(y),
    ensures
        sha256_collision_exists(),
{
    let inner_x = sha256(x);
    let inner_y = sha256(y);
    let outer_x = sha256(inner_x@);
    let outer_y = sha256(inner_y@);
    assert(outer_x@.reverse().reverse() =~= outer_x@);
    assert(outer_y@.reverse().reverse() =~= outer_y@);
    assert(outer_x =~= outer_y);
    if inner_x@ != inner_y@ {
        assert(sha256_collides(inner_x@, inner_y@));
    } else {
        assert(inner_x =~= inner_y);
        assert(sha256_collides(x, y));
    }
}

/// Two pairs of 32-byte nodes with one parent give two byte strings with
/// one SHA-256 digest.
pub proof fn lemma_hash_pairs_binds(
    left: Seq<u8>,
    right: Seq<u8>,
    other_left: Seq<u8>,
    other_right: Seq<u8>,
)
    requires
        left.len() == 32,
        right.len() == 32,
        other_left.len() == 32,
        other_right.len() == 32,
        left != other_left || right != other_right,
        spec_hash_pairs(left, right) == spec_hash_pairs(other_left, other_right),
    ensures
        sha256_collision_exists(),
{
    let x = left.reverse() + right.reverse();
    let y = other_left.reverse() + other_right.reverse();
    if x == y {
        assert(x.subrange(0, 32) =~= left.reverse());
        assert(y.subrange(0, 32) =~= other_left.reverse());
        assert(x.subrange(32, 64) =~= right.reverse());
        assert(y.subrange(32, 64) =~= other_right.reverse());
        assert(left.reverse().reverse() =~= left);
        assert(other_left.reverse().reverse() =~= other_left);
        assert(right.reverse().reverse() =~= right);
        assert(other_right.reverse().reverse() =~= other_right);
        assert(false);
    }
    lemma_double_sha256_binds(x, y);
}

/// The bytes of `hash` in the opposite order.
///
/// Chain hashes are displayed big-endian and stored little-endian; this
/// converts either way.
pub fn to_little_endian_bytes(hash: [u8; 32]) -> (le: [u8; 32])
    ensures
        le@ == hash@.reverse(),
        le == spec_reversed(hash),
{
    let mut le: [u8; 32] = [0u8; 32];
    let mut i: usize = 0;
    while i < 32
        invariant
            i <= 32,
            forall|j: int| 0 <= j < i ==> le@[j] == hash@[31 - j],
        decreases 32 - i,
    {
        le[i] = hash[31 - i];
        i += 1;
    }
    proof {
        lemma_reversed(hash);
        assert(le@ =~= hash@.reverse());
        assert(le =~= spec_reversed(hash));
    }
    le
}

/// The chain's hash of `tx`.
pub fn double_sha256_hash(tx: &[u8]) -> (hash: [u8; 32])
    ensures
        hash@ == spec_double_sha256(tx@),
        hash == spec_double_sha256_digest(tx@),
{
    let first = sha256_hash(tx);
    to_little_endian_bytes(sha256_hash(first.as_slice()))
}

/// The parent of two tree nodes.
pub fn hash_pairs(hash_1: [u8; 32], hash_2: [u8; 32]) -> (parent: [u8; 32])
    ensures
        parent@ == spec_hash_pairs(hash_1@, hash_2@),
{
    let mut combined: Vec<u8> = Vec::with_capacity(64);
    let left = to_little_endian_bytes(hash_1);
    let right = to_little_endian_bytes(hash_2);
    append_bytes(&mut combined, left.as_slice());
    append_bytes(&mut combined, right.as_slice());
    assert(combined@ =~= hash_1@.reverse() + hash_2@.reverse());
    double_sha256_hash(combined.as_slice())
}

/// The level above `level`.
pub fn parent_level(level: &Vec<[u8; 32]>) -> (next: Vec<[u8; 32]>)
    ensures
        digests(next@) == spec_parent_level(digests(level@)),
        next@.len() == (level@.len() + 1) / 2,
{
    let n = level.len();
    let pairs = n / 2 + n % 2;
    let mut next: Vec<[u8; 32]> = Vec::new();
    let mut k: usize = 0;
    while k < pairs
        invariant
            n == level@.len(),
            pairs == (n + 1) / 2,
            k <= pairs,
            next@.len() == k,
            forall|j: int|
                0 <= j < k ==> (#[trigger] next@[j])@ == spec_parent_level(digests(level@))[j],
        decreases pairs - k,
    {
        let left = level[2 * k];
        let right = if 2 * k + 1 < n {
            level[2 * k + 1]
        } else {
            left
        };
        let parent = hash_pairs(left, right);
        next.push(parent);
        k += 1;
    }
    assert(digests(next@) =~= spec_parent_level(digests(level@)));
    next
}

/// The root of the transaction tree over `leaves`.
///
/// A level with an odd number of nodes pairs its last node with itself.
pub fn get_merkle_root(leaves: Vec<[u8; 32]>) -> (root: [u8; 32])
    requires
        leaves@.len() >= 1,
    ensures
        root@ == spec_merkle_root(digests(leaves@)),
{
    let mut current_level = leaves;
    while current_level.len() > 1
        invariant
            current_level@.len() >= 1,
            spec_merkle_root(digests(current_level@)) == spec_merkle_root(digests(leaves@)),
        decreases current_level@.len(),
    {
        current_level = parent_level(&current_level);
    }
    current_level[0]
}

} // verus!
