//! Inclusion of a transaction in a block: the public values, and the Merkle
//! path that leads from a transaction to the root of its block.

use crate::bitcoin::digests;
use crate::bitcoin::hash_pairs;
use crate::bitcoin::lemma_hash_pairs_binds;
use crate::bitcoin::parent_level;
use crate::bitcoin::spec_hash_pairs;
use crate::bitcoin::spec_merkle_root;
use crate::bitcoin::spec_parent_level;
use crate::bytes::append_bytes;
use crate::bytes::bytes32_eq;
use crate::sha256;
use crate::sha256_collision_exists;
use crate::sha256_hash;
use vstd::pervasive::unreached;
use vstd::prelude::*;

verus! {

/// One step of a Merkle path: a sibling and the side it stands on.
#[derive(Default, Clone, Copy, Debug)]
pub struct MerkleProofStep {
    /// The sibling node.
    pub hash: [u8; 32],
    /// Whether the sibling stands to the right of the node on the path.
    pub direction: bool,
}

/// What an inclusion proof commits to.
#[derive(Debug, Clone, Default)]
pub struct InclusionPublicInput {
    pub tx_merkle_root: [u8; 32],
    pub tx_id: [u8; 32],
}

impl InclusionPublicInput {
    /// The SHA-256 digest of the root followed by the transaction id.
    pub open spec fn spec_hash(&self) -> Seq<u8> {
        sha256(self.tx_merkle_root@ + self.tx_id@)@
    }

    /// The SHA-256 digest of the root followed by the transaction id.
    pub fn compute_hash(&self) -> (hash: [u8; 32])
        ensures
            hash@ == self.spec_hash(),
    {
        let mut bytes: Vec<u8> = Vec::with_capacity(64);
        append_bytes(&mut bytes, self.tx_merkle_root.as_slice());
        append_bytes(&mut bytes, self.tx_id.as_slice());
        sha256_hash(bytes.as_slice())
    }
}

/// What an inclusion proof reads in private.
#[derive(Debug, Clone, Default)]
pub struct InclusionWitness {
    /// The transaction in the legacy format: inputs and outputs, no
    /// witness data.
    pub legacy_tx: Vec<u8>,
    pub tx_merkle_proof: Vec<MerkleProofStep>,
    pub operator_pubkey: Vec<u8>,
    pub pegin_txid: [u8; 32],
}

/// Everything an inclusion proof reads.
#[derive(Debug, Clone, Default)]
pub struct InclusionInput {
    pub public_input: InclusionPublicInput,
    pub witness: InclusionWitness,
}

impl InclusionInput {
    /// The input for a transaction and its path; the operator key is 33
    /// zero bytes and the peg-in id 32 zero bytes.
    pub fn new(
        legacy_tx: Vec<u8>,
        tx_merkle_proof: Vec<MerkleProofStep>,
        tx_id: [u8; 32],
        tx_merkle_root: [u8; 32],
    ) -> (input: Self)
        ensures
            input.public_input.tx_id == tx_id,
            input.public_input.tx_merkle_root == tx_merkle_root,
            input.witness.legacy_tx == legacy_tx,
            input.witness.tx_merkle_proof == tx_merkle_proof,
            input.witness.operator_pubkey@ == Seq::new(33, |i: int| 0u8),
            input.witness.pegin_txid@ == Seq::new(32, |i: int| 0u8),
    {
        let operator_pubkey: Vec<u8> = vec![0u8; 33];
        let pegin_txid: [u8; 32] = [0u8; 32];
        assert(operator_pubkey@ =~= Seq::new(33, |i: int| 0u8));
        assert(pegin_txid@ =~= Seq::new(32, |i: int| 0u8));
        Self {
            public_input: InclusionPublicInput { tx_id, tx_merkle_root },
            witness: InclusionWitness { legacy_tx, tx_merkle_proof, operator_pubkey, pegin_txid },
        }
    }
}

/// A path as pairs of sibling bytes and side.
pub open spec fn path_view(path: Seq<MerkleProofStep>) -> Seq<(Seq<u8>, bool)> {
    Seq::new(path.len(), |i: int| (path[i].hash@, path[i].direction))
}

/// The first index at or after `from` at which `leaves` holds `leaf`, or the
/// number of leaves where there is none.
pub open spec fn spec_position_from(leaves: Seq<Seq<u8>>, leaf: Seq<u8>, from: int) -> int
    decreases leaves.len() - from,
{
    if from < 0 || from >= leaves.len() {
        leaves.len() as int
    } else if leaves[from] == leaf {
        from
    } else {
        spec_position_from(leaves, leaf, from + 1)
    }
}

/// The first index at which `leaves` holds `leaf`.
pub open spec fn spec_position(leaves: Seq<Seq<u8>>, leaf: Seq<u8>) -> int {
    spec_position_from(leaves, leaf, 0)
}

/// The sibling of the node at `index` in `level`: its partner in the pair,
/// and itself where it is a last node without a partner.
pub open spec fn spec_sibling(level: Seq<Seq<u8>>, index: int) -> Seq<u8> {
    if index % 2 == 1 {
        level[index - 1]
    } else if index + 1 < level.len() {
        level[index + 1]
    } else {
        level[index]
    }
}

/// The path from the node at `index` of `level` up to the root: at each
/// level the sibling, and whether it stands to the right.
pub open spec fn spec_merkle_path(level: Seq<Seq<u8>>, index: int) -> Seq<(Seq<u8>, bool)>
    decreases level.len(),
{
    if level.len() <= 1 {
        seq![]
    } else {
        seq![(spec_sibling(level, index), index % 2 == 0)] + spec_merkle_path(
            spec_parent_level(level),
            index / 2,
        )
    }
}

/// The parent of `node` and the sibling of one step.
pub open spec fn spec_path_step(node: Seq<u8>, step: (Seq<u8>, bool)) -> Seq<u8> {
    if step.1 {
        spec_hash_pairs(node, step.0)
    } else {
        spec_hash_pairs(step.0, node)
    }
}

/// The node that a path leads to from `node`.
pub open spec fn spec_merkle_fold(node: Seq<u8>, path: Seq<(Seq<u8>, bool)>) -> Seq<u8>
    decreases path.len(),
{
    if path.len() == 0 {
        node
    } else {
        spec_merkle_fold(spec_path_step(node, path[0]), path.drop_first())
    }
}

/// Whether `path` leads from `leaf` to `root`.
pub open spec fn spec_merkle_verifies(
    leaf: Seq<u8>,
    path: Seq<(Seq<u8>, bool)>,
    root: Seq<u8>,
) -> bool {
    spec_merkle_fold(leaf, path) == root
}

/// The path of a node of a tree leads from that node to the root of the
/// tree.
pub proof fn lemma_path_leads_to_root(level: Seq<Seq<u8>>, index: int)
    requires
        0 <= index < level.len(),
    ensures
        spec_merkle_verifies(level[index], spec_merkle_path(level, index), spec_merkle_root(level)),
    decreases level.len(),
{
    if level.len() > 1 {
        let parents = spec_parent_level(level);
        let path = spec_merkle_path(level, index);
        let rest = spec_merkle_path(parents, index / 2);
        assert(path.drop_first() =~= rest);
        assert(spec_path_step(level[index], path[0]) == parents[index / 2]);
        lemma_path_leads_to_root(parents, index / 2);
    }
}

/// A path leads from a leaf to one root only: against any other root it
/// does not verify.
pub proof fn lemma_other_root_fails(
    leaf: Seq<u8>,
    path: Seq<(Seq<u8>, bool)>,
    root: Seq<u8>,
    other: Seq<u8>,
)
    requires
        spec_merkle_verifies(leaf, path, root),
        other != root,
    ensures
        !spec_merkle_verifies(leaf, path, other),
{
}

/// Whether two paths have the same shape: as many steps, every sibling 32
/// bytes long, and at every step the sibling on the same side.
pub open spec fn spec_same_shape(path: Seq<(Seq<u8>, bool)>, other: Seq<(Seq<u8>, bool)>) -> bool {
    &&& path.len() == other.len()
    &&& forall|i: int| 0 <= i < path.len() ==> #[trigger] spec_same_step_shape(path[i], other[i])
}

/// Whether two steps hold 32-byte siblings on the same side.
pub open spec fn spec_same_step_shape(step: (Seq<u8>, bool), other: (Seq<u8>, bool)) -> bool {
    step.0.len() == 32 && other.0.len() == 32 && step.1 == other.1
}

/// A root commits to the leaf and to the path: a leaf and a path of the
/// same shape that differ in any byte from ones that lead to a root lead
/// elsewhere, unless two byte strings with one SHA-256 digest are found on
/// the way.
pub proof fn lemma_other_leaf_or_path_fails(
    leaf: Seq<u8>,
    path: Seq<(Seq<u8>, bool)>,
    other_leaf: Seq<u8>,
    other_path: Seq<(Seq<u8>, bool)>,
    root: Seq<u8>,
)
    requires
        leaf.len() == 32,
        other_leaf.len() == 32,
        spec_same_shape(path, other_path),
        leaf != other_leaf || path != other_path,
        spec_merkle_verifies(leaf, path, root),
    ensures
        !spec_merkle_verifies(other_leaf, other_path, root) || sha256_collision_exists(),
    decreases path.len(),
{
    if spec_merkle_verifies(other_leaf, other_path, root) {
        if path.len() == 0 {
            assert(path =~= other_path);
        } else {
            let node = spec_path_step(leaf, path[0]);
            let other_node = spec_path_step(other_leaf, other_path[0]);
            let rest = path.drop_first();
            let other_rest = other_path.drop_first();
            assert(spec_same_shape(rest, other_rest)) by {
                assert forall|i: int| 0 <= i < rest.len() implies #[trigger] spec_same_step_shape(
                    rest[i],
                    other_rest[i],
                ) by {
                    assert(spec_same_step_shape(path[i + 1], other_path[i + 1]));
                }
            }
            if node != other_node || rest != other_rest {
                lemma_other_leaf_or_path_fails(node, rest, other_node, other_rest, root);
            } else {
                if leaf == other_leaf && path[0] == other_path[0] {
                    assert(path =~= seq![path[0]] + rest);
                    assert(other_path =~= seq![other_path[0]] + other_rest);
                    assert(false);
                }
                assert(spec_same_step_shape(path[0], other_path[0]));
                if path[0].1 {
                    lemma_hash_pairs_binds(leaf, path[0].0, other_leaf, other_path[0].0);
                } else {
                    lemma_hash_pairs_binds(path[0].0, leaf, other_path[0].0, other_leaf);
                }
            }
        }
    }
}

/// Whether every sibling of a path is 32 bytes long.
pub open spec fn spec_siblings_are_nodes(path: Seq<(Seq<u8>, bool)>) -> bool {
    spec_same_shape(path, path)
}

/// Folding a path is folding its first `k` steps and then the others.
proof fn lemma_fold_split(node: Seq<u8>, path: Seq<(Seq<u8>, bool)>, k: int)
    requires
        0 <= k <= path.len(),
    ensures
        spec_merkle_fold(node, path) == spec_merkle_fold(
            spec_merkle_fold(node, path.take(k)),
            path.skip(k),
        ),
    decreases k,
{
    if k == 0 {
        assert(path.take(0) =~= Seq::empty());
        assert(path.skip(0) =~= path);
    } else {
        let rest = path.drop_first();
        lemma_fold_split(spec_path_step(node, path[0]), rest, k - 1);
        assert(path.take(k)[0] == path[0]);
        assert(path.take(k).drop_first() =~= rest.take(k - 1));
        assert(path.skip(k) =~= rest.skip(k - 1));
    }
}

/// A path leads from a node of 32 bytes to a node of 32 bytes.
proof fn lemma_fold_is_a_node(node: Seq<u8>, path: Seq<(Seq<u8>, bool)>)
    requires
        node.len() == 32,
    ensures
        spec_merkle_fold(node, path).len() == 32,
    decreases path.len(),
{
    if path.len() > 0 {
        lemma_fold_is_a_node(spec_path_step(node, path[0]), path.drop_first());
    }
}

/// A root commits to the side of every step: a path with the side of one
/// step turned leads elsewhere, unless two byte strings with one SHA-256
/// digest are found on the way. The step must not pair a node with itself,
/// as the last node of a level of odd length is paired: there the two sides
/// are the same.
pub proof fn lemma_turned_side_fails(
    leaf: Seq<u8>,
    path: Seq<(Seq<u8>, bool)>,
    k: int,
    root: Seq<u8>,
)
    requires
        leaf.len() == 32,
        spec_siblings_are_nodes(path),
        0 <= k < path.len(),
        spec_merkle_fold(leaf, path.take(k)) != path[k].0,
        spec_merkle_verifies(leaf, path, root),
    ensures
        !spec_merkle_verifies(leaf, path.update(k, (path[k].0, !path[k].1)), root)
            || sha256_collision_exists(),
{
    let turned = path.update(k, (path[k].0, !path[k].1));
    if spec_merkle_verifies(leaf, turned, root) {
        let node = spec_merkle_fold(leaf, path.take(k));
        let sibling = path[k].0;
        assert(turned.take(k) =~= path.take(k));
        lemma_fold_split(leaf, path, k);
        lemma_fold_split(leaf, turned, k);
        lemma_fold_is_a_node(leaf, path.take(k));
        let rest = path.skip(k);
        let turned_rest = turned.skip(k);
        let tail = rest.drop_first();
        assert(turned_rest.drop_first() =~= tail);
        assert(rest[0] == path[k]);
        assert(turned_rest[0] == (sibling, !path[k].1));
        assert(spec_same_step_shape(path[k], path[k]));
        let above = spec_path_step(node, rest[0]);
        let turned_above = spec_path_step(node, turned_rest[0]);
        if above == turned_above {
            lemma_hash_pairs_binds(node, sibling, sibling, node);
        } else {
            assert(spec_same_shape(tail, tail)) by {
                assert forall|i: int| 0 <= i < tail.len() implies #[trigger] spec_same_step_shape(
                    tail[i],
                    tail[i],
                ) by {
                    assert(spec_same_step_shape(path[k + 1 + i], path[k + 1 + i]));
                }
            }
            lemma_other_leaf_or_path_fails(above, tail, turned_above, tail, root);
        }
    }
}

/// The first index at which `leaves` holds `desired_leaf`.
pub fn leaf_position(leaves: &Vec<[u8; 32]>, desired_leaf: &[u8; 32]) -> (position: Option<usize>)
    ensures
        match position {
            Some(index) => index < leaves@.len() && index == spec_position(
                digests(leaves@),
                desired_leaf@,
            ) && leaves@[index as int]@ == desired_leaf@,
            None => !digests(leaves@).contains(desired_leaf@),
        },
{
    let n = leaves.len();
    let mut i: usize = 0;
    while i < n
        invariant
            n == leaves@.len(),
            i <= n,
            forall|j: int| 0 <= j < i ==> digests(leaves@)[j] != desired_leaf@,
            spec_position(digests(leaves@), desired_leaf@) == spec_position_from(
                digests(leaves@),
                desired_leaf@,
                i as int,
            ),
        decreases n - i,
    {
        if bytes32_eq(&leaves[i], desired_leaf) {
            return Some(i);
        }
        i += 1;
    }
    None
}

/// The Merkle path of the first leaf equal to `desired_leaf`, and the root
/// of the tree over `leaves`.
pub fn generate_merkle_proof_and_root(leaves: Vec<[u8; 32]>, desired_leaf: [u8; 32]) -> (out: (
    Vec<MerkleProofStep>,
    [u8; 32],
))
    requires
        digests(leaves@).contains(desired_leaf@),
    ensures
        path_view(out.0@) == spec_merkle_path(
            digests(leaves@),
            spec_position(digests(leaves@), desired_leaf@),
        ),
        out.1@ == spec_merkle_root(digests(leaves@)),
{
    let mut desired_index = match leaf_position(&leaves, &desired_leaf) {
        Some(index) => index,
        None => unreached(),
    };
    let ghost first_index = desired_index as int;
    let mut current_level = leaves;
    let mut proof: Vec<MerkleProofStep> = Vec::new();
    assert(path_view(proof@) + spec_merkle_path(digests(current_level@), desired_index as int)
        =~= spec_merkle_path(digests(leaves@), first_index));
    while current_level.len() > 1
        invariant
            desired_index < current_level@.len(),
            spec_merkle_root(digests(current_level@)) == spec_merkle_root(digests(leaves@)),
            path_view(proof@) + spec_merkle_path(digests(current_level@), desired_index as int)
                == spec_merkle_path(digests(leaves@), first_index),
        decreases current_level@.len(),
    {
        let sibling = if desired_index % 2 == 1 {
            current_level[desired_index - 1]
        } else if desired_index + 1 < current_level.len() {
            current_level[desired_index + 1]
        } else {
            current_level[desired_index]
        };
        let step = MerkleProofStep { hash: sibling, direction: desired_index % 2 == 0 };
        let ghost level = digests(current_level@);
        let ghost before = path_view(proof@);
        proof.push(step);
        current_level = parent_level(&current_level);
        proof {
            let rest = spec_merkle_path(spec_parent_level(level), desired_index as int / 2);
            assert(path_view(proof@) =~= before.push((step.hash@, step.direction)));
            assert(step.hash@ == spec_sibling(level, desired_index as int));
            assert(path_view(proof@) + rest =~= before + spec_merkle_path(
                level,
                desired_index as int,
            ));
        }
        desired_index = desired_index / 2;
    }
    (proof, current_level[0])
}

/// Whether `proof` leads from `leaf` to `root`.
pub fn verify_merkle_proof(leaf: [u8; 32], proof: &Vec<MerkleProofStep>, root: [u8; 32]) -> (ok:
    bool)
    ensures
        ok == spec_merkle_verifies(leaf@, path_view(proof@), root@),
{
    let mut node = leaf;
    let mut i: usize = 0;
    assert(path_view(proof@).skip(0) =~= path_view(proof@));
    while i < proof.len()
        invariant
            i <= proof@.len(),
            spec_merkle_fold(node@, path_view(proof@).skip(i as int)) == spec_merkle_fold(
                leaf@,
                path_view(proof@),
            ),
        decreases proof@.len() - i,
    {
        let step = proof[i];
        let ghost pending = path_view(proof@).skip(i as int);
        assert(pending[0] == (step.hash@, step.direction));
        assert(pending.drop_first() =~= path_view(proof@).skip(i + 1));
        node = if step.direction {
            hash_pairs(node, step.hash)
        } else {
            hash_pairs(step.hash, node)
        };
        i += 1;
    }
    bytes32_eq(&node, &root)
}

} // verus!
