use sha2::Digest;
use sha2::Sha256;
use zk_light_client::bitcoin::get_merkle_root;
use zk_light_client::bitcoin::inclusion::generate_merkle_proof_and_root;
use zk_light_client::bitcoin::inclusion::leaf_position;
use zk_light_client::bitcoin::inclusion::verify_merkle_proof;
use zk_light_client::bitcoin::inclusion::InclusionInput;
use zk_light_client::bitcoin::inclusion::InclusionPublicInput;
use zk_light_client::bitcoin::inclusion::MerkleProofStep;
use zk_light_client::bitcoin::parent_level;

fn leaf(n: u8) -> [u8; 32] {
    let mut out = [0u8; 32];
    out[0] = n;
    out[31] = n.wrapping_mul(7).wrapping_add(1);
    out
}

fn leaves(n: u8) -> Vec<[u8; 32]> {
    (0..n).map(leaf).collect()
}

// The tree computed on its own: pair up, double the last node of an odd
// level, hash the reversed nodes twice and reverse the digest.
fn reference_parent(left: &[u8; 32], right: &[u8; 32]) -> [u8; 32] {
    let mut data = Vec::with_capacity(64);
    data.extend(left.iter().rev());
    data.extend(right.iter().rev());
    let mut out: [u8; 32] = Sha256::digest(Sha256::digest(&data)).into();
    out.reverse();
    out
}

fn reference_root(level: &[[u8; 32]]) -> [u8; 32] {
    if level.len() == 1 {
        return level[0];
    }
    let mut next = Vec::new();
    for pair in level.chunks(2) {
        let right = if pair.len() == 2 { &pair[1] } else { &pair[0] };
        next.push(reference_parent(&pair[0], right));
    }
    reference_root(&next)
}

#[test]
fn merkle_root_of_one_leaf_is_the_leaf() {
    assert_eq!(get_merkle_root(leaves(1)), leaf(0));
}

#[test]
fn merkle_root_of_two_leaves() {
    assert_eq!(get_merkle_root(leaves(2)), reference_parent(&leaf(0), &leaf(1)));
    assert_eq!(get_merkle_root(leaves(2)), reference_root(&leaves(2)));
}

#[test]
fn merkle_root_of_three_leaves_doubles_the_last() {
    let left = reference_parent(&leaf(0), &leaf(1));
    let right = reference_parent(&leaf(2), &leaf(2));
    assert_eq!(get_merkle_root(leaves(3)), reference_parent(&left, &right));
    assert_eq!(get_merkle_root(leaves(3)), reference_root(&leaves(3)));
}

#[test]
fn merkle_root_of_five_leaves() {
    assert_eq!(get_merkle_root(leaves(5)), reference_root(&leaves(5)));
}

#[test]
fn merkle_root_of_sixteen_leaves() {
    assert_eq!(get_merkle_root(leaves(16)), reference_root(&leaves(16)));
}

#[test]
fn merkle_root_of_a_real_block() {
    // Block 170 of the Bitcoin chain holds two transactions.
    let tx = |hex: &str| -> [u8; 32] {
        let mut out = [0u8; 32];
        for i in 0..32 {
            out[i] = u8::from_str_radix(&hex[2 * i..2 * i + 2], 16).unwrap();
        }
        out
    };
    let coinbase = tx("b1fea52486ce0c62bb442b530a3f0132b826c74e473d1f2c220bfa78111c5082");
    let payment = tx("f4184fc596403b9d638783cf57adfe4c75c605f6356fbc91338530e9831e9e16");
    let root = tx("7dac2c5666815c17a3b36427de37bb9d2e2c5ccec3f8633eb91a4205cb4c10ff");
    assert_eq!(get_merkle_root(vec![coinbase, payment]), root);
}

#[test]
fn parent_level_halves_rounding_up() {
    assert_eq!(parent_level(&leaves(5)).len(), 3);
    assert_eq!(parent_level(&leaves(4)).len(), 2);
    assert_eq!(parent_level(&leaves(1)).len(), 1);
    assert_eq!(parent_level(&leaves(0)).len(), 0);
    assert_eq!(parent_level(&leaves(1))[0], reference_parent(&leaf(0), &leaf(0)));
}

#[test]
fn leaf_position_finds_the_first_occurrence() {
    let mut all = leaves(4);
    all.push(leaf(1));
    assert_eq!(leaf_position(&all, &leaf(1)), Some(1));
    assert_eq!(leaf_position(&all, &leaf(3)), Some(3));
    assert_eq!(leaf_position(&all, &leaf(9)), None);
    assert_eq!(leaf_position(&Vec::new(), &leaf(0)), None);
}

#[test]
fn generated_proof_has_the_documented_steps() {
    let (proof, root) = generate_merkle_proof_and_root(leaves(3), leaf(2));
    assert_eq!(root, reference_root(&leaves(3)));
    assert_eq!(proof.len(), 2);
    // The last leaf of an odd level is its own sibling, to the right.
    assert_eq!(proof[0].hash, leaf(2));
    assert!(proof[0].direction);
    assert_eq!(proof[1].hash, reference_parent(&leaf(0), &leaf(1)));
    assert!(!proof[1].direction);

    let (proof, _) = generate_merkle_proof_and_root(leaves(3), leaf(0));
    assert_eq!(proof[0].hash, leaf(1));
    assert!(proof[0].direction);
    assert_eq!(proof[1].hash, reference_parent(&leaf(2), &leaf(2)));
    assert!(proof[1].direction);

    let (proof, root) = generate_merkle_proof_and_root(leaves(1), leaf(0));
    assert!(proof.is_empty());
    assert_eq!(root, leaf(0));
}

#[test]
fn generated_proofs_verify_for_every_leaf() {
    for n in [1u8, 2, 3, 5, 16] {
        let root = get_merkle_root(leaves(n));
        for i in 0..n {
            let (proof, proof_root) = generate_merkle_proof_and_root(leaves(n), leaf(i));
            assert_eq!(proof_root, root);
            assert!(verify_merkle_proof(leaf(i), &proof, root));
        }
    }
}

#[test]
fn mutated_leaf_proof_or_root_fails() {
    let n = 5u8;
    let root = get_merkle_root(leaves(n));
    let (proof, _) = generate_merkle_proof_and_root(leaves(n), leaf(3));
    assert!(verify_merkle_proof(leaf(3), &proof, root));
    for byte in 0..32 {
        let mut bad_leaf = leaf(3);
        bad_leaf[byte] ^= 0x01;
        assert!(!verify_merkle_proof(bad_leaf, &proof, root));
        let mut bad_root = root;
        bad_root[byte] ^= 0x80;
        assert!(!verify_merkle_proof(leaf(3), &proof, bad_root));
        for step in 0..proof.len() {
            let mut bad_proof = proof.clone();
            bad_proof[step].hash[byte] ^= 0x10;
            assert!(!verify_merkle_proof(leaf(3), &bad_proof, root));
        }
    }
    let mut flipped = proof.clone();
    flipped[0].direction = !flipped[0].direction;
    assert!(!verify_merkle_proof(leaf(3), &flipped, root));
}

#[test]
fn empty_proof_verifies_only_the_root_itself() {
    let proof: Vec<MerkleProofStep> = Vec::new();
    assert!(verify_merkle_proof(leaf(4), &proof, leaf(4)));
    assert!(!verify_merkle_proof(leaf(4), &proof, leaf(5)));
}

#[test]
fn inclusion_public_input_hash() {
    let input = InclusionPublicInput { tx_merkle_root: [3u8; 32], tx_id: [9u8; 32] };
    let mut bytes = vec![3u8; 32];
    bytes.extend_from_slice(&[9u8; 32]);
    let expected: [u8; 32] = Sha256::digest(&bytes).into();
    assert_eq!(input.compute_hash(), expected);
}

#[test]
fn inclusion_input_fills_the_placeholders() {
    let step = MerkleProofStep { hash: [1u8; 32], direction: true };
    let input = InclusionInput::new(vec![1, 2, 3], vec![step], [4u8; 32], [5u8; 32]);
    assert_eq!(input.public_input.tx_id, [4u8; 32]);
    assert_eq!(input.public_input.tx_merkle_root, [5u8; 32]);
    assert_eq!(input.witness.legacy_tx, vec![1, 2, 3]);
    assert_eq!(input.witness.tx_merkle_proof.len(), 1);
    assert_eq!(input.witness.operator_pubkey, vec![0u8; 33]);
    assert_eq!(input.witness.pegin_txid, [0u8; 32]);
}
