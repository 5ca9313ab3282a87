use sha2::Digest;
use sha2::Sha256;
use zk_light_client::bitcoin::double_sha256_hash;
use zk_light_client::bitcoin::hash_pairs;
use zk_light_client::bitcoin::to_little_endian_bytes;
use zk_light_client::bytes::read_u32_le;
use zk_light_client::bytes::read_u64_le;
use zk_light_client::bytes::write_u32_le;
use zk_light_client::bytes::write_u64_le;
use zk_light_client::bytes::bytes32_eq;
use zk_light_client::bytes::bytes_eq;
use zk_light_client::sha256_hash;

#[test]
fn sha256_of_empty_input() {
    let digest = sha256_hash(&[]);
    let expected: [u8; 32] = [
        0xe3, 0xb0, 0xc4, 0x42, 0x98, 0xfc, 0x1c, 0x14, 0x9a, 0xfb, 0xf4, 0xc8, 0x99, 0x6f, 0xb9,
        0x24, 0x27, 0xae, 0x41, 0xe4, 0x64, 0x9b, 0x93, 0x4c, 0xa4, 0x95, 0x99, 0x1b, 0x78, 0x52,
        0xb8, 0x55,
    ];
    assert_eq!(digest, expected);
}

#[test]
fn sha256_of_abc() {
    let digest = sha256_hash(b"abc");
    let expected: [u8; 32] = [
        0xba, 0x78, 0x16, 0xbf, 0x8f, 0x01, 0xcf, 0xea, 0x41, 0x41, 0x40, 0xde, 0x5d, 0xae, 0x22,
        0x23, 0xb0, 0x03, 0x61, 0xa3, 0x96, 0x17, 0x7a, 0x9c, 0xb4, 0x10, 0xff, 0x61, 0xf2, 0x00,
        0x15, 0xad,
    ];
    assert_eq!(digest, expected);
    assert_ne!(digest.to_vec(), b"abc".to_vec());
}

#[test]
fn sha256_is_repeatable() {
    assert_eq!(sha256_hash(b"light client"), sha256_hash(b"light client"));
    assert_ne!(sha256_hash(b"light client"), sha256_hash(b"light clienu"));
}

#[test]
fn reversal_turns_the_bytes_around() {
    let mut hash = [0u8; 32];
    for (i, byte) in hash.iter_mut().enumerate() {
        *byte = i as u8;
    }
    let reversed = to_little_endian_bytes(hash);
    for i in 0..32 {
        assert_eq!(reversed[i], (31 - i) as u8);
    }
    assert_eq!(to_little_endian_bytes(reversed), hash);
}

#[test]
fn double_hash_is_two_digests_reversed() {
    let data = b"hello";
    let once = Sha256::digest(data);
    let twice: [u8; 32] = Sha256::digest(once).into();
    let mut expected = twice;
    expected.reverse();
    assert_eq!(double_sha256_hash(data), expected);
    // The well-known double digest of "hello", in display order reversed.
    assert_eq!(twice[0], 0x95);
    assert_eq!(twice[1], 0x95);
    assert_eq!(twice[31], 0x50);
    assert_eq!(double_sha256_hash(data)[0], 0x50);
}

#[test]
fn hash_pairs_reverses_both_nodes() {
    let left = [0x11u8; 32];
    let mut right = [0u8; 32];
    right[0] = 0xaa;
    right[31] = 0xbb;
    let mut combined = Vec::new();
    combined.extend(left.iter().rev());
    combined.extend(right.iter().rev());
    assert_eq!(combined[32], 0xbb);
    assert_eq!(combined[63], 0xaa);
    let once = Sha256::digest(&combined);
    let mut expected: [u8; 32] = Sha256::digest(once).into();
    expected.reverse();
    assert_eq!(hash_pairs(left, right), expected);
    assert_ne!(hash_pairs(left, right), hash_pairs(right, left));
}

#[test]
fn little_endian_integers() {
    assert_eq!(write_u32_le(0x1d00ffff), [0xff, 0xff, 0x00, 0x1d]);
    assert_eq!(read_u32_le(&[0xff, 0xff, 0x00, 0x1d]), 0x1d00ffff);
    assert_eq!(write_u32_le(u32::MAX), [0xff; 4]);
    assert_eq!(write_u32_le(0), [0; 4]);
    assert_eq!(
        write_u64_le(0x0102030405060708),
        [0x08, 0x07, 0x06, 0x05, 0x04, 0x03, 0x02, 0x01]
    );
    assert_eq!(write_u64_le(u64::MAX), [0xff; 8]);
    let data = [0xee, 0x08, 0x07, 0x06, 0x05, 0x04, 0x03, 0x02, 0x01, 0xee];
    assert_eq!(read_u64_le(&data, 1), 0x0102030405060708);
    for value in [0u64, 1, 255, 256, 1 << 40, u64::MAX - 1, u64::MAX] {
        assert_eq!(read_u64_le(&write_u64_le(value), 0), value);
        assert_eq!(write_u64_le(value), value.to_le_bytes());
    }
    for value in [0u32, 1, 255, 256, 0x7fffff, u32::MAX] {
        assert_eq!(read_u32_le(&write_u32_le(value)), value);
        assert_eq!(write_u32_le(value), value.to_le_bytes());
    }
}

#[test]
fn byte_comparison() {
    let a = [7u8; 32];
    let mut b = a;
    assert!(bytes32_eq(&a, &b));
    b[31] = 8;
    assert!(!bytes32_eq(&a, &b));
    assert!(bytes_eq(&[], &[]));
    assert!(!bytes_eq(&[1], &[]));
    assert!(!bytes_eq(&[1, 2], &[1, 3]));
    assert!(bytes_eq(&[1, 2], &[1, 2]));
}
