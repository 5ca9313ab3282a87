use zk_light_client::accumulator::ChainError;
use zk_light_client::bitcoin::block::bits_to_target;
use zk_light_client::bitcoin::block::median_block_index;
use zk_light_client::bitcoin::block::median_position;
use zk_light_client::bitcoin::block::new_target_bits_match;
use zk_light_client::bitcoin::block::to_circuit_block;
use zk_light_client::bitcoin::block::validate_block;
use zk_light_client::bitcoin::block::BlockValidationError;
use zk_light_client::bitcoin::block::CircuitBlock;
use zk_light_client::bitcoin::consensus::consensus_step;
use zk_light_client::bitcoin::consensus::step_parent_check;
use zk_light_client::bitcoin::consensus::ConsensusBlockPublicInput;
use zk_light_client::bitcoin::consensus::ConsensusInput;
use zk_light_client::bitcoin::consensus::ConsensusStepError;
use zk_light_client::bitcoin::consensus::ConsensusVerifierPublicInput;
use zk_light_client::bitcoin::consensus::ConsensusWitness;
use zk_light_client::bitcoin::median::select_by_time;
use zk_light_client::bitcoin::to_little_endian_bytes;
use zk_light_client::sha256_hash;

const EASY_BITS: u32 = 0x207fffff;

fn hex32(hex: &str) -> [u8; 32] {
    let mut out = [0u8; 32];
    for i in 0..32 {
        out[i] = u8::from_str_radix(&hex[2 * i..2 * i + 2], 16).unwrap();
    }
    out
}

fn genesis() -> CircuitBlock {
    let mut merkle_root =
        hex32("4a5e1e4baab89f3a32518a88c31bc87f618f76673e2cc77ab2127b7afdeda33b");
    merkle_root.reverse();
    to_circuit_block(0, 1, [0u8; 32], merkle_root, 1231006505, 0x1d00ffff, 2083236893)
}

// A header at `height` on top of `parent`, with a nonce that meets the
// easy target.
fn mine(height: u64, parent: &CircuitBlock, time: u32) -> CircuitBlock {
    let mut prev = parent.compute_block_hash();
    prev.reverse();
    let mut merkle_root = [0u8; 32];
    merkle_root[0] = height as u8;
    merkle_root[1] = 0x5a;
    for nonce in 0..10_000u32 {
        let block = to_circuit_block(height, 2, prev, merkle_root, time, EASY_BITS, nonce);
        // The hash is at most the target when its top byte is below 0x7f.
        if block.compute_block_hash()[0] < 0x7f {
            return block;
        }
    }
    panic!("no nonce found");
}

// Thirteen headers, heights 0 to 12, each linked to the one before and ten
// minutes apart.
fn chain() -> Vec<CircuitBlock> {
    let first = to_circuit_block(0, 2, [0u8; 32], [7u8; 32], 1_700_000_000, EASY_BITS, 0);
    let mut blocks = vec![first];
    for height in 1..13u64 {
        let parent = blocks[blocks.len() - 1];
        blocks.push(mine(height, &parent, 1_700_000_000 + 600 * height as u32));
    }
    blocks
}

fn public_record(blocks: &[CircuitBlock], retarget: &CircuitBlock) -> ConsensusBlockPublicInput {
    let n = blocks.len();
    ConsensusBlockPublicInput::new(
        blocks[n - 2].compute_block_hash(),
        blocks[n - 1].compute_block_hash(),
        retarget.compute_block_hash(),
        // With rising times the median of the eleven before the last is
        // the sixth of them.
        blocks[n - 12 + 5].compute_block_hash(),
        blocks[n - 4].merkle_root,
        blocks[n - 1].height,
    )
}

#[test]
fn genesis_header_serializes_to_its_wire_form() {
    let bytes = genesis().serialize();
    assert_eq!(bytes.len(), 80);
    assert_eq!(&bytes[0..4], &[1, 0, 0, 0]);
    assert_eq!(&bytes[4..36], &[0u8; 32]);
    assert_eq!(bytes[36], 0x3b);
    assert_eq!(bytes[67], 0x4a);
    assert_eq!(&bytes[68..72], &[0x29, 0xab, 0x5f, 0x49]);
    assert_eq!(&bytes[72..76], &[0xff, 0xff, 0x00, 0x1d]);
    assert_eq!(&bytes[76..80], &[0x1d, 0xac, 0x2b, 0x7c]);
}

#[test]
fn genesis_header_has_its_known_hash() {
    let expected = hex32("000000000019d6689c085ae165831e934ff763ae46a2a6c172b3f1b60a8ce26f");
    assert_eq!(genesis().compute_block_hash(), expected);
}

#[test]
fn header_hash_ignores_the_height() {
    let mut other = genesis();
    other.height = 99;
    assert_eq!(other.compute_block_hash(), genesis().compute_block_hash());
    other.nonce[0] ^= 1;
    assert_ne!(other.compute_block_hash(), genesis().compute_block_hash());
}

#[test]
fn negative_version_is_written_in_twos_complement() {
    let block = to_circuit_block(5, -2, [1u8; 32], [2u8; 32], 3, 4, 5);
    assert_eq!(block.version, [0xfe, 0xff, 0xff, 0xff]);
    assert_eq!(block.height, 5);
    assert_eq!(block.time, [3, 0, 0, 0]);
    assert_eq!(block.bits, [4, 0, 0, 0]);
    assert_eq!(block.nonce, [5, 0, 0, 0]);
    assert_eq!(to_circuit_block(0, 0x20000000, [0; 32], [0; 32], 0, 0, 0).version, [0, 0, 0, 0x20]);
}

#[test]
fn target_of_the_genesis_bits() {
    let target = bits_to_target([0xff, 0xff, 0x00, 0x1d]);
    let mut expected = [0u8; 32];
    expected[4] = 0xff;
    expected[5] = 0xff;
    assert_eq!(target.be_bytes, expected);
}

#[test]
fn target_of_small_exponents() {
    let value = |bits: u32| -> [u8; 32] { bits_to_target(bits.to_le_bytes()).be_bytes };
    let number = |n: u32| -> [u8; 32] {
        let mut out = [0u8; 32];
        out[28..32].copy_from_slice(&n.to_be_bytes());
        out
    };
    assert_eq!(value(0x03123456), number(0x123456));
    assert_eq!(value(0x02123456), number(0x1234));
    assert_eq!(value(0x01123456), number(0x12));
    assert_eq!(value(0x00123456), number(0));
    assert_eq!(value(0x04123456), number(0x12345600));
    assert_eq!(value(0x05009234), number(0x92340000));
    // A coefficient with its highest bit set stands for zero.
    assert_eq!(value(0x03800000), number(0));
    assert_eq!(value(0x04923456), number(0));
    assert_eq!(value(0x1d800000), number(0));
    // Below exponent 3 the highest bit is shifted out first.
    assert_eq!(value(0x02800000), number(0x8000));
    assert_eq!(value(0x01fedcba), number(0xfe));
}

#[test]
fn target_of_large_exponents_is_cut_to_256_bits() {
    let value = |bits: u32| -> [u8; 32] { bits_to_target(bits.to_le_bytes()).be_bytes };
    let mut top = [0u8; 32];
    top[0] = 0x7f;
    top[1] = 0xff;
    top[2] = 0xff;
    assert_eq!(value(0x207fffff), top);
    let mut cut = [0u8; 32];
    cut[0] = 0x34;
    cut[1] = 0x56;
    assert_eq!(value(0x21123456), cut);
    assert_eq!(value(0x23000001), [0u8; 32]);
    assert_eq!(value(0xff123456), [0u8; 32]);
    let mut one = [0u8; 32];
    one[0] = 0x01;
    assert_eq!(value(0x22000001), one);
}

fn epoch(bits: u32, begin_time: u32, end_time: u32, new_bits: u32) -> bool {
    let begin = to_circuit_block(0, 2, [0; 32], [0; 32], begin_time, bits, 0);
    let end = to_circuit_block(2015, 2, [0; 32], [0; 32], end_time, bits, 0);
    let next = to_circuit_block(2016, 2, [0; 32], [0; 32], end_time + 600, new_bits, 0);
    new_target_bits_match(&begin, &end, &next)
}

#[test]
fn retarget_after_the_expected_time_keeps_the_target() {
    assert!(epoch(0x1d00ffff, 1_000_000, 1_000_000 + 1_209_600, 0x1d00ffff));
    assert!(epoch(0x1b0404cb, 5, 5 + 1_209_600, 0x1b0404cb));
    assert!(!epoch(0x1d00ffff, 1_000_000, 1_000_000 + 1_209_600, 0x1d00fffe));
    assert!(!epoch(0x1d00ffff, 1_000_000, 1_000_000 + 1_209_600, 0x1c00ffff));
}

#[test]
fn retarget_after_twice_the_expected_time_doubles_the_target() {
    // 0xffff * 2 = 0x1fffe, at the same exponent.
    assert!(epoch(0x1d00ffff, 1_000_000, 1_000_000 + 2 * 1_209_600, 0x1d01fffe));
    assert!(!epoch(0x1d00ffff, 1_000_000, 1_000_000 + 2 * 1_209_600, 0x1d00ffff));
    // 0x0404cb * 2 = 0x080996.
    assert!(epoch(0x1b0404cb, 0, 2 * 1_209_600, 0x1b080996));
    // Doubling 0x7fffff overflows the coefficient: one byte moves into the
    // exponent and the lowest byte is dropped.
    assert!(epoch(0x1c7fffff, 0, 2 * 1_209_600, 0x1d00ffff));
}

#[test]
fn retarget_of_the_first_adjustment_on_the_bitcoin_chain() {
    // The epoch from block 30240 to block 32255 took 1022578 seconds, and
    // block 32256 carries the bits 0x1d00d86a.
    assert!(epoch(0x1d00ffff, 1_261_130_161, 1_262_152_739, 0x1d00d86a));
    assert!(!epoch(0x1d00ffff, 1_261_130_161, 1_262_152_739, 0x1d00d86b));
}

#[test]
fn retarget_with_time_running_backwards_fails() {
    assert!(!epoch(0x1d00ffff, 2_000_000, 1_999_999, 0x1d00ffff));
    assert!(!epoch(0x1d00ffff, 2_000_000, 1_999_999, 0));
}

#[test]
fn retarget_that_overflows_fails() {
    // The largest target times a long epoch needs more than 256 bits.
    assert!(!epoch(0x207fffff, 0, 4_000_000_000, 0x207fffff));
    assert!(!epoch(0x207fffff, 0, 1_209_600, 0x207fffff));
    // A short epoch with a zero target keeps it zero.
    assert!(epoch(0x03000000, 0, 1_209_600, 0x03000000));
}

#[test]
fn retarget_reads_small_exponents_of_the_new_bits() {
    // Target 0x12 after the expected time: 0x01120000 stands for 0x12.
    assert!(epoch(0x01120000, 0, 1_209_600, 0x01120000));
    assert!(epoch(0x01120000, 0, 1_209_600, 0x02001200));
    assert!(epoch(0x01120000, 0, 1_209_600, 0x03000012));
    assert!(!epoch(0x01120000, 0, 1_209_600, 0x03000013));
    // A coefficient with its highest bit set is read without its low byte.
    assert!(epoch(0x02800000, 0, 1_209_600, 0x03800000));
    assert!(!epoch(0x02008000, 0, 1_209_600, 0x03800000));
}

#[test]
fn median_position_follows_the_parity_of_the_window() {
    assert_eq!(median_position(11), 5);
    assert_eq!(median_position(10), 5);
    assert_eq!(median_position(12), 6);
    assert_eq!(median_position(1), 0);
    assert_eq!(median_position(2), 1);
    assert_eq!(median_position(0), 0);
}

#[test]
fn selection_orders_by_time_and_keeps_equal_times_in_place() {
    let times = vec![50u32, 10, 40, 10, 30, 20];
    // Ordered: 10 (index 1), 10 (index 3), 20 (5), 30 (4), 40 (2), 50 (0).
    let expected = [1usize, 3, 5, 4, 2, 0];
    for (position, index) in expected.iter().enumerate() {
        assert_eq!(select_by_time(&times, position), *index);
    }
    assert_eq!(select_by_time(&vec![7u32], 0), 0);
    let same = vec![3u32; 11];
    for position in 0..11 {
        assert_eq!(select_by_time(&same, position), position);
    }
    let falling: Vec<u32> = (0..11u32).rev().collect();
    assert_eq!(select_by_time(&falling, 5), 5);
    assert_eq!(select_by_time(&falling, 0), 10);
}

#[test]
fn selection_agrees_with_a_stable_sort() {
    let times = vec![9u32, 3, 7, 3, 1, 9, 4, 4, 0, 8, 3];
    let mut order: Vec<usize> = (0..times.len()).collect();
    order.sort_by(|&a, &b| times[a].cmp(&times[b]));
    for position in 0..times.len() {
        assert_eq!(select_by_time(&times, position), order[position]);
    }
}

#[test]
fn median_block_is_the_sixth_by_time_of_the_eleven_before_the_last() {
    let mut blocks = chain();
    assert_eq!(median_block_index(&blocks), 6);
    // Shuffle the times of the window: the header with the sixth-lowest
    // time is the median wherever it stands.
    let times = [90u32, 20, 70, 10, 60, 30, 80, 40, 50, 100, 110];
    for (i, time) in times.iter().enumerate() {
        blocks[1 + i].time = time.to_le_bytes();
    }
    // Ordered: 10, 20, 30, 40, 50, 60, ...: the sixth is 60, at window
    // index 4.
    assert_eq!(median_block_index(&blocks), 1 + 4);
    // A longer chain looks at the eleven headers before its last.
    let mut longer = chain();
    longer.insert(0, genesis());
    assert_eq!(median_block_index(&longer), 7);
}

#[test]
fn valid_window_of_thirteen_headers_is_accepted() {
    let blocks = chain();
    let retarget = blocks[0];
    let record = public_record(&blocks, &retarget);
    assert_eq!(validate_block(blocks, retarget, record), Ok(()));
}

#[test]
fn valid_window_of_twelve_headers_is_accepted() {
    let blocks: Vec<CircuitBlock> = chain()[1..].to_vec();
    assert_eq!(blocks.len(), 12);
    let retarget = chain()[0];
    let record = public_record(&blocks, &retarget);
    assert_eq!(validate_block(blocks, retarget, record), Ok(()));
}

#[test]
fn window_of_eleven_headers_is_too_short() {
    let all = chain();
    let retarget = all[0];
    let record = public_record(&all, &retarget);
    let blocks: Vec<CircuitBlock> = all[2..].to_vec();
    assert_eq!(
        validate_block(blocks, retarget, record),
        Err(BlockValidationError::ChainTooShort { length: 11 })
    );
    assert_eq!(
        validate_block(Vec::new(), retarget, record),
        Err(BlockValidationError::ChainTooShort { length: 0 })
    );
}

#[test]
fn height_rules_are_reported_in_order() {
    let blocks = chain();
    let retarget = blocks[0];
    let record = public_record(&blocks, &retarget);

    let mut low = record;
    low.proposed_block_height = 11;
    assert_eq!(
        validate_block(blocks.clone(), retarget, low),
        Err(BlockValidationError::HeightTooLow { height: 11 })
    );

    let mut late_retarget = retarget;
    late_retarget.height = 13;
    assert_eq!(
        validate_block(blocks.clone(), late_retarget, record),
        Err(BlockValidationError::HeightBelowRetarget { height: 12, retarget_height: 13 })
    );

    let mut other = record;
    other.proposed_block_height = 13;
    assert_eq!(
        validate_block(blocks.clone(), retarget, other),
        Err(BlockValidationError::HeightMismatch { expected: 13, actual: 12 })
    );

    let mut gap = blocks.clone();
    gap[11].height = 10;
    assert_eq!(
        validate_block(gap, retarget, record),
        Err(BlockValidationError::PreviousHeightMismatch { expected: 12, previous_height: 10 })
    );

    let mut top = blocks.clone();
    top[11].height = u64::MAX;
    assert_eq!(
        validate_block(top, retarget, record),
        Err(BlockValidationError::PreviousHeightMismatch {
            expected: 12,
            previous_height: u64::MAX
        })
    );

    let mut deep = blocks.clone();
    deep[9].height = 8;
    assert_eq!(
        validate_block(deep, retarget, record),
        Err(BlockValidationError::DeepHeightMismatch { expected: 12, deep_height: 8 })
    );
}

#[test]
fn each_committed_digest_is_checked() {
    let blocks = chain();
    let retarget = blocks[0];
    let record = public_record(&blocks, &retarget);

    let mut bad = record;
    bad.proposed_block_hash[5] ^= 1;
    assert_eq!(
        validate_block(blocks.clone(), retarget, bad),
        Err(BlockValidationError::ProposedHashMismatch {
            expected: bad.proposed_block_hash,
            actual: blocks[12].compute_block_hash(),
        })
    );

    let mut bad = record;
    bad.prev_block_hash[5] ^= 1;
    assert_eq!(
        validate_block(blocks.clone(), retarget, bad),
        Err(BlockValidationError::PreviousHashMismatch {
            expected: bad.prev_block_hash,
            actual: blocks[11].compute_block_hash(),
        })
    );

    let mut bad = record;
    bad.retarget_block_hash[5] ^= 1;
    assert_eq!(
        validate_block(blocks.clone(), retarget, bad),
        Err(BlockValidationError::RetargetHashMismatch {
            expected: bad.retarget_block_hash,
            actual: retarget.compute_block_hash(),
        })
    );

    let mut bad = record;
    bad.median_block_hash[5] ^= 1;
    assert_eq!(
        validate_block(blocks.clone(), retarget, bad),
        Err(BlockValidationError::MedianHashMismatch {
            expected: bad.median_block_hash,
            actual: blocks[6].compute_block_hash(),
        })
    );

    let mut bad = record;
    bad.m_deep_tx_merkle_root[5] ^= 1;
    assert_eq!(
        validate_block(blocks.clone(), retarget, bad),
        Err(BlockValidationError::MerkleRootMismatch {
            expected: bad.m_deep_tx_merkle_root,
            actual: blocks[9].merkle_root,
        })
    );
}

#[test]
fn header_that_does_not_name_its_parent_breaks_the_link() {
    let mut blocks = chain();
    let retarget = blocks[0];
    // Replace the header before the last one: the last header still names
    // the old one as its parent.
    let named = blocks[11].compute_block_hash();
    blocks[11].nonce = [0xde, 0xad, 0xbe, 0xef];
    let record = public_record(&blocks, &retarget);
    assert_eq!(
        validate_block(blocks.clone(), retarget, record),
        Err(BlockValidationError::BrokenLink {
            expected: blocks[11].compute_block_hash(),
            actual: named,
        })
    );
}

#[test]
fn retarget_header_must_not_be_the_proposed_one() {
    let blocks = chain();
    let retarget = blocks[12];
    let record = public_record(&blocks, &retarget);
    assert_eq!(
        validate_block(blocks, retarget, record),
        Err(BlockValidationError::RetargetIsProposed)
    );
}

#[test]
fn bits_must_stay_those_of_the_retarget_header() {
    let blocks = chain();
    let mut retarget = blocks[0];
    retarget.bits = 0x1d00ffffu32.to_le_bytes();
    let record = public_record(&blocks, &retarget);
    assert_eq!(
        validate_block(blocks, retarget, record),
        Err(BlockValidationError::TargetBitsMismatch)
    );
}

#[test]
fn hash_above_the_target_is_insufficient_work() {
    let mut blocks = chain();
    // Look for a nonce whose hash is above the easy target.
    let mut found = false;
    for nonce in 0..10_000u32 {
        blocks[12].nonce = nonce.to_le_bytes();
        if blocks[12].compute_block_hash()[0] > 0x7f {
            found = true;
            break;
        }
    }
    assert!(found);
    let retarget = blocks[0];
    let record = public_record(&blocks, &retarget);
    assert_eq!(
        validate_block(blocks, retarget, record),
        Err(BlockValidationError::InsufficientWork)
    );
}

#[test]
fn header_older_than_the_median_is_refused() {
    let all = chain();
    let mut blocks = all.clone();
    // Give the last header the time of the first and mine it again.
    let parent = blocks[11];
    let mut last = to_circuit_block(12, 2, [0; 32], blocks[12].merkle_root, 1_700_000_000, EASY_BITS, 0);
    last.prev_blockhash = to_little_endian_bytes(parent.compute_block_hash());
    for nonce in 0..10_000u32 {
        last.nonce = nonce.to_le_bytes();
        if last.compute_block_hash()[0] < 0x7f {
            break;
        }
    }
    blocks[12] = last;
    let retarget = blocks[0];
    let record = public_record(&blocks, &retarget);
    assert_eq!(
        validate_block(blocks, retarget, record),
        Err(BlockValidationError::TimestampBeforeMedian)
    );
}

#[test]
fn header_with_the_time_of_the_median_is_accepted() {
    let mut blocks = chain();
    let parent = blocks[11];
    let median_time = 1_700_000_000 + 600 * 6;
    let mut last = to_circuit_block(12, 2, [0; 32], blocks[12].merkle_root, median_time, EASY_BITS, 0);
    last.prev_blockhash = to_little_endian_bytes(parent.compute_block_hash());
    for nonce in 0..10_000u32 {
        last.nonce = nonce.to_le_bytes();
        if last.compute_block_hash()[0] < 0x7f {
            break;
        }
    }
    blocks[12] = last;
    let retarget = blocks[0];
    let record = public_record(&blocks, &retarget);
    assert_eq!(validate_block(blocks, retarget, record), Ok(()));
}

#[test]
fn block_at_an_epoch_boundary_needs_retargeted_bits() {
    // Heights 2005 to 2016; the epoch ran from the retarget header at height
    // 0 to the header at height 2015 and took exactly the expected time.
    let begin_time = 1_700_000_000u32;
    let retarget = to_circuit_block(0, 2, [0u8; 32], [7u8; 32], begin_time, EASY_BITS, 0);
    let mut blocks = vec![to_circuit_block(2004, 2, [0; 32], [1; 32], begin_time, EASY_BITS, 0)];
    for height in 2005..2017u64 {
        let parent = blocks[blocks.len() - 1];
        let time = if height == 2015 { begin_time + 1_209_600 } else { begin_time + height as u32 };
        blocks.push(mine(height, &parent, time));
    }
    blocks[12].time = (begin_time + 1_209_600 + 600).to_le_bytes();
    let parent = blocks[11];
    blocks[12] = mine(2016, &parent, begin_time + 1_209_600 + 600);
    // The easy target times the expected time overflows 256 bits, so the
    // bits cannot be retargeted and the block is refused.
    let record = public_record(&blocks, &retarget);
    assert_eq!(
        validate_block(blocks, retarget, record),
        Err(BlockValidationError::TargetBitsMismatch)
    );
}

#[test]
fn block_public_input_serializes_to_168_bytes() {
    let record = ConsensusBlockPublicInput::new(
        [1u8; 32], [2u8; 32], [3u8; 32], [4u8; 32], [5u8; 32], 0x0102030405060708,
    );
    let bytes = record.serialize();
    assert_eq!(bytes.len(), 168);
    assert_eq!(&bytes[0..32], &[1u8; 32]);
    assert_eq!(&bytes[32..64], &[2u8; 32]);
    assert_eq!(&bytes[64..96], &[3u8; 32]);
    assert_eq!(&bytes[96..128], &[4u8; 32]);
    assert_eq!(&bytes[128..160], &[5u8; 32]);
    assert_eq!(&bytes[160..168], &[8, 7, 6, 5, 4, 3, 2, 1]);
    assert_eq!(record.compute_hash(), sha256_hash(&bytes));
}

#[test]
fn verifier_public_input_hashes_its_72_bytes() {
    let record = ConsensusVerifierPublicInput::new([9u8; 32], [8u8; 32], 513);
    let mut bytes = vec![9u8; 32];
    bytes.extend_from_slice(&[8u8; 32]);
    bytes.extend_from_slice(&[1, 2, 0, 0, 0, 0, 0, 0]);
    assert_eq!(bytes.len(), 72);
    assert_eq!(record.compute_hash(), sha256_hash(&bytes));
    assert_eq!(record.current_block_height, 513);
}

fn step_input(seq: u32, parent: ConsensusVerifierPublicInput) -> ConsensusInput {
    let blocks = chain();
    let retarget = blocks[0];
    let record = public_record(&blocks, &retarget);
    ConsensusInput::new(seq, [7u32; 8], parent, record, ConsensusWitness::new(blocks, retarget))
}

#[test]
fn first_step_commits_to_the_hash_of_its_step_hash() {
    let input = step_input(0, ConsensusVerifierPublicInput::default());
    assert!(step_parent_check(&input).is_none());
    let record = input.block_public_input;
    let output = consensus_step(input, None).unwrap();
    let step_hash = sha256_hash(&record.serialize());
    assert_eq!(output.compressed_block_public_input, sha256_hash(&step_hash));
    assert_eq!(output.m_deep_tx_merkle_root, record.m_deep_tx_merkle_root);
    assert_eq!(output.current_block_height, 12);
}

#[test]
fn later_step_folds_the_parent_accumulator() {
    let parent = ConsensusVerifierPublicInput::new([0x33u8; 32], [0x44u8; 32], 11);
    let input = step_input(4, parent);
    let check = step_parent_check(&input).unwrap();
    assert_eq!(check.vkey_u32_hash, [7u32; 8]);
    assert_eq!(check.committed_hash, parent.compute_hash());
    let record = input.block_public_input;
    let output = consensus_step(input, Some(true)).unwrap();
    let mut bytes = vec![0x33u8; 32];
    bytes.extend_from_slice(&sha256_hash(&record.serialize()));
    assert_eq!(output.compressed_block_public_input, sha256_hash(&bytes));
}

#[test]
fn later_step_needs_a_verified_parent() {
    let parent = ConsensusVerifierPublicInput::new([0x33u8; 32], [0x44u8; 32], 11);
    assert_eq!(
        consensus_step(step_input(1, parent), Some(false)).unwrap_err(),
        ConsensusStepError::Chain(ChainError::ParentProofRejected)
    );
    assert_eq!(
        consensus_step(step_input(1, parent), None).unwrap_err(),
        ConsensusStepError::Chain(ChainError::ParentProofUnchecked)
    );
}

#[test]
fn step_with_a_bad_window_yields_the_broken_rule() {
    let mut input = step_input(0, ConsensusVerifierPublicInput::default());
    let median = input.block_public_input.median_block_hash;
    input.block_public_input.median_block_hash[0] ^= 1;
    let changed = input.block_public_input.median_block_hash;
    assert_eq!(
        consensus_step(input, None).unwrap_err(),
        ConsensusStepError::Block(BlockValidationError::MedianHashMismatch {
            expected: changed,
            actual: median,
        })
    );
}

#[test]
fn target_is_held_big_endian() {
    let mut bytes = [0u8; 32];
    bytes[31] = 7;
    let value = zk_light_client::uint256::Uint256::from_be_bytes(bytes);
    assert_eq!(value.be_bytes, bytes);
    assert_eq!(bits_to_target([7, 0, 0, 3]).be_bytes, bytes);
}

#[test]
fn header_round_trips_through_its_wire_form() {
    let header = genesis();
    let decoded = CircuitBlock::deserialize(0, &header.serialize()).unwrap();
    assert_eq!(decoded.height, 0);
    assert_eq!(decoded.version, header.version);
    assert_eq!(decoded.prev_blockhash, header.prev_blockhash);
    assert_eq!(decoded.merkle_root, header.merkle_root);
    assert_eq!(decoded.time, header.time);
    assert_eq!(decoded.bits, header.bits);
    assert_eq!(decoded.nonce, header.nonce);
    let other = CircuitBlock::deserialize(77, &header.serialize()).unwrap();
    assert_eq!(other.height, 77);
    assert_eq!(other.serialize(), header.serialize());
    let mut bytes = Vec::new();
    for i in 0..80u8 {
        bytes.push(i.wrapping_mul(3));
    }
    assert_eq!(CircuitBlock::deserialize(1, &bytes).unwrap().serialize(), bytes);
}

#[test]
fn header_of_wrong_length_is_refused() {
    let bytes = genesis().serialize();
    assert_eq!(
        CircuitBlock::deserialize(0, &bytes[..79]).unwrap_err(),
        zk_light_client::bytes::DecodeError::LengthMismatch { expected: 80, actual: 79 }
    );
    let mut longer = bytes.clone();
    longer.push(0);
    assert_eq!(
        CircuitBlock::deserialize(0, &longer).unwrap_err(),
        zk_light_client::bytes::DecodeError::LengthMismatch { expected: 80, actual: 81 }
    );
}

#[test]
fn block_public_input_round_trips() {
    let record = ConsensusBlockPublicInput::new(
        [1u8; 32], [2u8; 32], [3u8; 32], [4u8; 32], [5u8; 32], u64::MAX - 5,
    );
    let decoded = ConsensusBlockPublicInput::deserialize(&record.serialize()).unwrap();
    assert_eq!(decoded.prev_block_hash, [1u8; 32]);
    assert_eq!(decoded.proposed_block_hash, [2u8; 32]);
    assert_eq!(decoded.retarget_block_hash, [3u8; 32]);
    assert_eq!(decoded.median_block_hash, [4u8; 32]);
    assert_eq!(decoded.m_deep_tx_merkle_root, [5u8; 32]);
    assert_eq!(decoded.proposed_block_height, u64::MAX - 5);
    assert_eq!(
        ConsensusBlockPublicInput::deserialize(&record.serialize()[1..]).unwrap_err(),
        zk_light_client::bytes::DecodeError::LengthMismatch { expected: 168, actual: 167 }
    );
    assert_eq!(
        ConsensusBlockPublicInput::deserialize(&[]).unwrap_err(),
        zk_light_client::bytes::DecodeError::LengthMismatch { expected: 168, actual: 0 }
    );
}

#[test]
fn verifier_public_input_round_trips() {
    let record = ConsensusVerifierPublicInput::new([9u8; 32], [8u8; 32], 0x0102030405);
    let bytes = record.serialize();
    assert_eq!(bytes.len(), 72);
    assert_eq!(&bytes[64..], &[5, 4, 3, 2, 1, 0, 0, 0]);
    let decoded = ConsensusVerifierPublicInput::deserialize(&bytes).unwrap();
    assert_eq!(decoded.compressed_block_public_input, [9u8; 32]);
    assert_eq!(decoded.m_deep_tx_merkle_root, [8u8; 32]);
    assert_eq!(decoded.current_block_height, 0x0102030405);
    assert_eq!(
        ConsensusVerifierPublicInput::deserialize(&bytes[..71]).unwrap_err(),
        zk_light_client::bytes::DecodeError::LengthMismatch { expected: 72, actual: 71 }
    );
}

#[test]
fn changed_field_of_the_proposed_header_is_refused() {
    let blocks = chain();
    let retarget = blocks[0];
    let record = public_record(&blocks, &retarget);
    let refused = |changed: Vec<CircuitBlock>| {
        let actual = changed[12].compute_block_hash();
        assert_ne!(actual, record.proposed_block_hash);
        assert_eq!(
            validate_block(changed, retarget, record),
            Err(BlockValidationError::ProposedHashMismatch {
                expected: record.proposed_block_hash,
                actual,
            })
        );
    };

    let mut changed = blocks.clone();
    changed[12].nonce[0] ^= 1;
    refused(changed);

    let mut changed = blocks.clone();
    changed[12].time[0] ^= 1;
    refused(changed);

    let mut changed = blocks.clone();
    changed[12].bits[0] ^= 1;
    refused(changed);

    let mut changed = blocks.clone();
    changed[12].version[3] ^= 0x20;
    refused(changed);

    let mut changed = blocks.clone();
    changed[12].merkle_root[31] ^= 1;
    refused(changed);

    let mut changed = blocks.clone();
    changed[12].prev_blockhash[31] ^= 1;
    refused(changed);

    // The height is not on the wire: the hash stays, the height rule fails.
    let mut changed = blocks.clone();
    changed[12].height = 13;
    assert_eq!(
        validate_block(changed, retarget, record),
        Err(BlockValidationError::HeightMismatch { expected: 12, actual: 13 })
    );
}

#[test]
fn changed_field_of_another_header_is_refused_where_it_is_committed_to() {
    let blocks = chain();
    let retarget = blocks[0];
    let record = public_record(&blocks, &retarget);

    let mut changed = blocks.clone();
    changed[11].nonce[0] ^= 1;
    assert!(matches!(
        validate_block(changed, retarget, record),
        Err(BlockValidationError::PreviousHashMismatch { .. })
    ));

    let mut changed_retarget = retarget;
    changed_retarget.nonce[0] ^= 1;
    assert!(matches!(
        validate_block(blocks.clone(), changed_retarget, record),
        Err(BlockValidationError::RetargetHashMismatch { .. })
    ));

    let mut changed = blocks.clone();
    changed[6].nonce[0] ^= 1;
    assert!(matches!(
        validate_block(changed, retarget, record),
        Err(BlockValidationError::MedianHashMismatch { .. })
    ));

    let mut changed = blocks.clone();
    changed[9].merkle_root[0] ^= 1;
    assert_eq!(
        validate_block(changed.clone(), retarget, record),
        Err(BlockValidationError::MerkleRootMismatch {
            expected: record.m_deep_tx_merkle_root,
            actual: changed[9].merkle_root,
        })
    );

    // A header of the window that nothing commits to may change its nonce.
    let mut changed = blocks.clone();
    changed[3].nonce[0] ^= 1;
    assert_eq!(validate_block(changed, retarget, record), Ok(()));
}
