use ibc_core_commitment_types::merkle::MerkleProof;
use ibc_core_commitment_types::proto::ics23::calculate_existence_root;
use ibc_core_commitment_types::proto::ics23::commitment_proof::Proof;
use ibc_core_commitment_types::proto::ics23::CommitmentProof;
use ibc_core_commitment_types::proto::ics23::ExistenceProof;
use ibc_core_commitment_types::proto::ics23::HostFunctionsManager;
use ibc_core_commitment_types::proto::ics23::InnerOp;
use ibc_core_commitment_types::proto::ics23::LeafOp;
use ibc_core_commitment_types::proto::v1::MerkleProof as RawMerkleProof;
use ibc_proto::Protobuf;
use sha2::Digest;
use sha2::Sha256;
use zk_light_client::babylon::membership_step;
use zk_light_client::babylon::verify_membership_proof;
use zk_light_client::babylon::KVPair;
use zk_light_client::babylon::MembershipError;
use zk_light_client::babylon::MembershipInput;
use zk_light_client::provers::membership_input;
use zk_light_client::provers::ProverError;

const SHA256: i32 = 1;
const NO_HASH: i32 = 0;
const VAR_PROTO: i32 = 1;

fn leaf_op(prefix: Vec<u8>) -> LeafOp {
    LeafOp { hash: SHA256, prehash_key: NO_HASH, prehash_value: SHA256, length: VAR_PROTO, prefix }
}

// The existence of `value` at `key` in a store that holds nothing else.
fn store_proof(key: &[u8], value: &[u8]) -> ExistenceProof {
    ExistenceProof {
        key: key.to_vec(),
        value: value.to_vec(),
        // Height 0, size 1, version 1, each as a signed varint.
        leaf: Some(leaf_op(vec![0, 2, 2])),
        path: vec![],
    }
}

// The existence of a store with root `store_root` under the name `store`,
// as the left one of two stores; `sibling` is the hash of the other.
fn root_proof(store: &[u8], store_root: &[u8], sibling: &[u8; 32]) -> ExistenceProof {
    ExistenceProof {
        key: store.to_vec(),
        value: store_root.to_vec(),
        leaf: Some(leaf_op(vec![0])),
        path: vec![InnerOp { hash: SHA256, prefix: vec![1], suffix: sibling.to_vec() }],
    }
}

struct Fixture {
    app_hash: [u8; 32],
    pair: KVPair,
    proof: Vec<u8>,
}

fn fixture(store: &[u8], key: &[u8], value: &[u8], sibling: &[u8; 32]) -> Fixture {
    let lower = store_proof(key, value);
    let store_root = calculate_existence_root::<HostFunctionsManager>(&lower).unwrap();
    let upper = root_proof(store, &store_root, sibling);
    let root = calculate_existence_root::<HostFunctionsManager>(&upper).unwrap();
    let proof = MerkleProof {
        proofs: vec![
            CommitmentProof { proof: Some(Proof::Exist(lower)) },
            CommitmentProof { proof: Some(Proof::Exist(upper)) },
        ],
    };
    Fixture {
        app_hash: root.try_into().unwrap(),
        pair: KVPair { keys: vec![store.to_vec(), key.to_vec()], value: value.to_vec() },
        proof: Protobuf::<RawMerkleProof>::encode_vec(proof),
    }
}

// Two stores under one root: the first is the left child and the second
// the right one.
fn two_stores() -> (Fixture, Fixture) {
    let right_lower = store_proof(b"supply", b"1000");
    let right_root = calculate_existence_root::<HostFunctionsManager>(&right_lower).unwrap();
    let right_leaf = ExistenceProof {
        key: b"bank".to_vec(),
        value: right_root.clone(),
        leaf: Some(leaf_op(vec![0])),
        path: vec![],
    };
    let right_hash: [u8; 32] =
        calculate_existence_root::<HostFunctionsManager>(&right_leaf).unwrap().try_into().unwrap();
    let left = fixture(b"acc", b"alice", b"42", &right_hash);

    let left_lower = store_proof(b"alice", b"42");
    let left_root = calculate_existence_root::<HostFunctionsManager>(&left_lower).unwrap();
    let left_leaf = ExistenceProof {
        key: b"acc".to_vec(),
        value: left_root,
        leaf: Some(leaf_op(vec![0])),
        path: vec![],
    };
    let left_hash = calculate_existence_root::<HostFunctionsManager>(&left_leaf).unwrap();
    let mut prefix = vec![1u8];
    prefix.extend_from_slice(&left_hash);
    let right_upper = ExistenceProof {
        key: b"bank".to_vec(),
        value: right_root,
        leaf: Some(leaf_op(vec![0])),
        path: vec![InnerOp { hash: SHA256, prefix, suffix: vec![] }],
    };
    let root = calculate_existence_root::<HostFunctionsManager>(&right_upper).unwrap();
    assert_eq!(root, left.app_hash.to_vec());
    let proof = MerkleProof {
        proofs: vec![
            CommitmentProof { proof: Some(Proof::Exist(right_lower)) },
            CommitmentProof { proof: Some(Proof::Exist(right_upper)) },
        ],
    };
    let right = Fixture {
        app_hash: left.app_hash,
        pair: KVPair { keys: vec![b"bank".to_vec(), b"supply".to_vec()], value: b"1000".to_vec() },
        proof: Protobuf::<RawMerkleProof>::encode_vec(proof),
    };
    (left, right)
}

#[test]
fn state_root_is_the_hash_the_proof_format_prescribes() {
    let f = fixture(b"acc", b"alice", b"42", &[0x77; 32]);
    // Leaf of the store: prefix, length and key, length and digest of the
    // value.
    let mut leaf = vec![0u8, 2, 2, 5];
    leaf.extend_from_slice(b"alice");
    leaf.push(32);
    leaf.extend_from_slice(&Sha256::digest(b"42"));
    let store_root = Sha256::digest(&leaf);
    let mut upper = vec![0u8, 3];
    upper.extend_from_slice(b"acc");
    upper.push(32);
    upper.extend_from_slice(&Sha256::digest(store_root));
    let upper_leaf = Sha256::digest(&upper);
    let mut inner = vec![1u8];
    inner.extend_from_slice(&upper_leaf);
    inner.extend_from_slice(&[0x77; 32]);
    let root: [u8; 32] = Sha256::digest(&inner).into();
    assert_eq!(f.app_hash, root);
}

#[test]
fn valid_proof_is_accepted() {
    let f = fixture(b"acc", b"alice", b"42", &[0x77; 32]);
    assert_eq!(verify_membership_proof(f.app_hash, &[(f.pair, f.proof)]), Ok(()));
}

#[test]
fn empty_batch_is_accepted() {
    assert_eq!(verify_membership_proof([0u8; 32], &[]), Ok(()));
}

#[test]
fn two_records_under_one_root_are_accepted() {
    let (left, right) = two_stores();
    let root = left.app_hash;
    assert_eq!(
        verify_membership_proof(root, &[(left.pair, left.proof), (right.pair, right.proof)]),
        Ok(())
    );
}

#[test]
fn record_proved_under_another_root_refuses_the_batch() {
    let (left, right) = two_stores();
    let other = fixture(b"acc", b"alice", b"42", &[0x78; 32]);
    assert_ne!(other.app_hash, left.app_hash);
    let root = left.app_hash;
    let batch = vec![
        (left.pair.clone(), left.proof.clone()),
        (right.pair.clone(), right.proof.clone()),
        (other.pair.clone(), other.proof.clone()),
    ];
    assert_eq!(
        verify_membership_proof(root, &batch),
        Err(MembershipError::FailedToVerify { index: 2 })
    );
    // The first two alone are still accepted, and the third is accepted
    // under its own root.
    assert_eq!(verify_membership_proof(root, &batch[..2]), Ok(()));
    assert_eq!(verify_membership_proof(other.app_hash, &batch[2..]), Ok(()));
    let input = MembershipInput { app_hash: root, merkle_proofs: batch };
    assert_eq!(
        membership_step(input).unwrap_err(),
        MembershipError::FailedToVerify { index: 2 }
    );
}

#[test]
fn first_failing_record_is_reported() {
    let (left, right) = two_stores();
    let other = fixture(b"acc", b"alice", b"42", &[0x78; 32]);
    let root = left.app_hash;
    let batch = vec![
        (left.pair, left.proof),
        (other.pair.clone(), other.proof.clone()),
        (right.pair, right.proof),
        (other.pair, other.proof),
    ];
    assert_eq!(
        verify_membership_proof(root, &batch),
        Err(MembershipError::FailedToVerify { index: 1 })
    );
}

#[test]
fn changed_value_key_or_root_is_refused() {
    let f = fixture(b"acc", b"alice", b"42", &[0x77; 32]);
    let refused = Err(MembershipError::FailedToVerify { index: 0 });

    let mut pair = f.pair.clone();
    pair.value = b"43".to_vec();
    assert_eq!(verify_membership_proof(f.app_hash, &[(pair, f.proof.clone())]), refused);

    let mut pair = f.pair.clone();
    pair.value = vec![];
    assert_eq!(verify_membership_proof(f.app_hash, &[(pair, f.proof.clone())]), refused);

    let mut pair = f.pair.clone();
    pair.keys[1] = b"bob".to_vec();
    assert_eq!(verify_membership_proof(f.app_hash, &[(pair, f.proof.clone())]), refused);

    let mut pair = f.pair.clone();
    pair.keys[0] = b"bank".to_vec();
    assert_eq!(verify_membership_proof(f.app_hash, &[(pair, f.proof.clone())]), refused);

    let mut pair = f.pair.clone();
    pair.keys.pop();
    assert_eq!(verify_membership_proof(f.app_hash, &[(pair, f.proof.clone())]), refused);

    let mut root = f.app_hash;
    root[0] ^= 1;
    assert_eq!(verify_membership_proof(root, &[(f.pair.clone(), f.proof.clone())]), refused);
}

#[test]
fn bytes_that_are_no_proof_are_undecodable() {
    let f = fixture(b"acc", b"alice", b"42", &[0x77; 32]);
    assert_eq!(
        verify_membership_proof(f.app_hash, &[(f.pair.clone(), vec![0xff, 0xff, 0xff])]),
        Err(MembershipError::UndecodableProof { index: 0 })
    );
    // No bytes decode to a proof without parts, which is read and refused.
    assert_eq!(
        verify_membership_proof(f.app_hash, &[(f.pair, vec![])]),
        Err(MembershipError::FailedToVerify { index: 0 })
    );
}

#[test]
fn membership_step_commits_to_the_root_and_the_pairs() {
    let (left, right) = two_stores();
    let root = left.app_hash;
    let input = MembershipInput {
        app_hash: root,
        merkle_proofs: vec![(left.pair, left.proof), (right.pair, right.proof)],
    };
    let output = membership_step(input).unwrap();
    assert_eq!(output.app_hash, root);
    assert_eq!(output.kv_pairs.len(), 2);
    assert_eq!(output.kv_pairs[0].keys, vec![b"acc".to_vec(), b"alice".to_vec()]);
    assert_eq!(output.kv_pairs[0].value, b"42".to_vec());
    assert_eq!(output.kv_pairs[1].keys, vec![b"bank".to_vec(), b"supply".to_vec()]);
    assert_eq!(output.kv_pairs[1].value, b"1000".to_vec());
}

#[test]
fn membership_input_checks_the_root_and_the_proofs() {
    let f = fixture(b"acc", b"alice", b"42", &[0x77; 32]);
    let batch = vec![(f.pair.clone(), f.proof.clone())];
    let input = membership_input(&f.app_hash, batch.clone()).unwrap();
    assert_eq!(input.app_hash, f.app_hash);
    assert_eq!(input.merkle_proofs.len(), 1);
    assert_eq!(input.merkle_proofs[0].1, f.proof);

    assert_eq!(
        membership_input(&f.app_hash[..31], batch.clone()).unwrap_err(),
        ProverError::Other("Invalid app_hash length".to_string())
    );
    assert_eq!(
        membership_input(&[], batch.clone()).unwrap_err(),
        ProverError::Other("Invalid app_hash length".to_string())
    );
    let mut root = f.app_hash;
    root[3] ^= 4;
    assert_eq!(
        membership_input(&root, batch).unwrap_err(),
        ProverError::Membership(MembershipError::FailedToVerify { index: 0 })
    );
}
