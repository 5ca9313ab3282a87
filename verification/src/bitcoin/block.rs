//! Block headers and their validation against the chain's consensus rules.

use crate::bitcoin::consensus::ConsensusBlockPublicInput;
use crate::bitcoin::double_sha256_hash;
use crate::bitcoin::EXPECTED_EPOCH_SECONDS;
use crate::bitcoin::lemma_double_sha256_binds;
use crate::bitcoin::lemma_double_sha256_digest;
use crate::bitcoin::median::index_at_position;
use crate::bitcoin::median::select_by_time;
use crate::bitcoin::spec_double_sha256;
use crate::bitcoin::spec_double_sha256_digest;
use crate::bitcoin::to_little_endian_bytes;
use crate::bytes::append_bytes;
use crate::bytes::bytes32_eq;
use crate::bytes::bytes4_eq;
use crate::bytes::DecodeError;
use crate::bytes::read_bytes32;
use crate::bytes::read_bytes4;
use crate::bytes::read_u32_le;
use crate::bytes::spec_reversed;
use crate::bytes::u32_from_le;
use crate::bytes::u32_to_le;
use crate::bytes::write_u32_le;
use crate::sha256_collision_exists;
use crate::uint256::be_value;
use crate::uint256::Uint256;
use vstd::arithmetic::div_mod::lemma_small_mod;
use vstd::arithmetic::power2::lemma2_to64;
use vstd::arithmetic::power2::lemma_pow2_adds;
use vstd::arithmetic::power2::lemma_pow2_pos;
use vstd::arithmetic::power2::lemma_pow2_strictly_increases;
use vstd::arithmetic::power2::pow2;
use vstd::prelude::*;

verus! {

/// A block header in the form the proof system reads: the height, and every
/// field of the 80-byte wire form as little-endian bytes.
#[derive(Default, Clone, Copy, Debug)]
pub struct CircuitBlock {
    pub height: u64,
    pub version: [u8; 4],
    pub prev_blockhash: [u8; 32],
    pub merkle_root: [u8; 32],
    pub time: [u8; 4],
    pub bits: [u8; 4],
    pub nonce: [u8; 4],
}

impl CircuitBlock {
    /// The header's 80 bytes on the wire: version, previous hash, Merkle
    /// root, time, bits, nonce. The height is not part of them.
    pub open spec fn spec_serialize(&self) -> Seq<u8> {
        self.version@ + self.prev_blockhash@ + self.merkle_root@ + self.time@ + self.bits@
            + self.nonce@
    }

    /// The header's hash: the chain's hash of its 80 bytes.
    pub open spec fn spec_block_hash(&self) -> Seq<u8> {
        spec_double_sha256(self.spec_serialize())
    }

    /// The header's hash as a 32-byte value.
    pub open spec fn spec_block_hash_digest(&self) -> [u8; 32] {
        spec_double_sha256_digest(self.spec_serialize())
    }

    /// The header's timestamp.
    pub open spec fn spec_time(&self) -> u32 {
        u32_from_le(self.time@) as u32
    }

    /// The header's compact difficulty target.
    pub open spec fn spec_bits(&self) -> u32 {
        u32_from_le(self.bits@) as u32
    }

    /// The header's 80 bytes on the wire.
    pub fn serialize(&self) -> (bytes: Vec<u8>)
        ensures
            bytes@ == self.spec_serialize(),
            bytes@.len() == 80,
    {
        let mut bytes: Vec<u8> = Vec::with_capacity(80);
        append_bytes(&mut bytes, self.version.as_slice());
        append_bytes(&mut bytes, self.prev_blockhash.as_slice());
        append_bytes(&mut bytes, self.merkle_root.as_slice());
        append_bytes(&mut bytes, self.time.as_slice());
        append_bytes(&mut bytes, self.bits.as_slice());
        append_bytes(&mut bytes, self.nonce.as_slice());
        bytes
    }

    /// The header's hash.
    pub fn compute_block_hash(&self) -> (hash: [u8; 32])
        ensures
            hash@ == self.spec_block_hash(),
            hash == self.spec_block_hash_digest(),
    {
        let header = self.serialize();
        double_sha256_hash(header.as_slice())
    }

    /// Two headers at one height with the same bytes on the wire are the
    /// same header.
    pub proof fn lemma_serialize_injective(a: CircuitBlock, b: CircuitBlock)
        requires
            a.height == b.height,
            a.spec_serialize() == b.spec_serialize(),
        ensures
            a == b,
    {
        let ea = a.spec_serialize();
        let eb = b.spec_serialize();
        assert(ea.subrange(0, 4) =~= a.version@);
        assert(eb.subrange(0, 4) =~= b.version@);
        assert(ea.subrange(4, 36) =~= a.prev_blockhash@);
        assert(eb.subrange(4, 36) =~= b.prev_blockhash@);
        assert(ea.subrange(36, 68) =~= a.merkle_root@);
        assert(eb.subrange(36, 68) =~= b.merkle_root@);
        assert(ea.subrange(68, 72) =~= a.time@);
        assert(eb.subrange(68, 72) =~= b.time@);
        assert(ea.subrange(72, 76) =~= a.bits@);
        assert(eb.subrange(72, 76) =~= b.bits@);
        assert(ea.subrange(76, 80) =~= a.nonce@);
        assert(eb.subrange(76, 80) =~= b.nonce@);
        assert(a.version =~= b.version);
        assert(a.prev_blockhash =~= b.prev_blockhash);
        assert(a.merkle_root =~= b.merkle_root);
        assert(a.time =~= b.time);
        assert(a.bits =~= b.bits);
        assert(a.nonce =~= b.nonce);
    }

    /// Reads the header at `height` from its 80 bytes on the wire.
    ///
    /// Any other length is refused; every string of 80 bytes is the wire
    /// form of exactly one header at that height, which is returned.
    pub fn deserialize(height: u64, data: &[u8]) -> (outcome: Result<Self, DecodeError>)
        ensures
            data@.len() != 80 ==> outcome == Err::<Self, _>(
                DecodeError::LengthMismatch { expected: 80, actual: data@.len() as usize },
            ),
            data@.len() == 80 ==> outcome is Ok && outcome->Ok_0.height == height
                && outcome->Ok_0.spec_serialize() == data@,
            forall|header: CircuitBlock|
                header.height == height && header.spec_serialize() == data@ ==> outcome == Ok::<
                    Self,
                    DecodeError,
                >(header),
    {
        if data.len() != 80 {
            return Err(DecodeError::LengthMismatch { expected: 80, actual: data.len() });
        }
        let block = CircuitBlock {
            height,
            version: read_bytes4(data, 0),
            prev_blockhash: read_bytes32(data, 4),
            merkle_root: read_bytes32(data, 36),
            time: read_bytes4(data, 68),
            bits: read_bytes4(data, 72),
            nonce: read_bytes4(data, 76),
        };
        proof {
            assert(block.spec_serialize() =~= data@);
            assert forall|header: CircuitBlock|
                header.height == height && header.spec_serialize() == data@ implies block
                == header by {
                Self::lemma_serialize_injective(block, header);
            }
        }
        Ok(block)
    }
}

/// The header with the given fields, each integer written little-endian.
pub fn to_circuit_block(
    height: u64,
    version: i32,
    prev_blockhash: [u8; 32],
    merkle_root: [u8; 32],
    time: u32,
    bits: u32,
    nonce: u32,
) -> (block: CircuitBlock)
    ensures
        block.height == height,
        block.version@ == u32_to_le(version as u32),
        block.prev_blockhash == prev_blockhash,
        block.merkle_root == merkle_root,
        block.time@ == u32_to_le(time),
        block.bits@ == u32_to_le(bits),
        block.nonce@ == u32_to_le(nonce),
{
    CircuitBlock {
        height,
        version: write_u32_le(#[verifier::truncate] (version as u32)),
        prev_blockhash,
        merkle_root,
        time: write_u32_le(time),
        bits: write_u32_le(bits),
        nonce: write_u32_le(nonce),
    }
}

/// The target that compact `bits` stand for.
///
/// The top byte is an exponent `e` and the low three bytes a coefficient
/// `c`. For `e` of at most 3 the target is `c` without its low `3 - e`
/// bytes; above that it is `c` followed by `e - 3` zero bytes, cut to 256
/// bits. A target whose 24th bit would be set is zero.
pub open spec fn spec_bits_to_target(bits: u32) -> nat {
    let exponent = bits as int / 0x100_0000;
    let coefficient = bits as int % 0x100_0000;
    if exponent <= 3 {
        let mantissa = if exponent == 3 {
            coefficient
        } else if exponent == 2 {
            coefficient / 0x100
        } else if exponent == 1 {
            coefficient / 0x1_0000
        } else {
            0
        };
        if mantissa > 0x7f_ffff {
            0
        } else {
            mantissa as nat
        }
    } else if coefficient > 0x7f_ffff {
        0
    } else {
        ((coefficient * pow2((8 * (exponent - 3)) as nat)) % (pow2(256) as int)) as nat
    }
}

/// The target of the next epoch: the old one scaled by the time the epoch
/// took over the time it was meant to take, rounded down.
pub open spec fn spec_retarget(old_target: nat, elapsed: nat) -> nat {
    old_target * elapsed / (EXPECTED_EPOCH_SECONDS as nat)
}

/// Whether compact `bits` stand for `target` up to the precision that the
/// compact form keeps.
///
/// A coefficient with its 24th bit set is read without its low byte. For an
/// exponent `e` of at most 3 the target must equal the coefficient without
/// its low `3 - e` bytes; above that the target without its low `e - 3`
/// bytes must equal the coefficient.
pub open spec fn spec_compact_matches(target: nat, bits: u32) -> bool {
    let exponent = bits as int / 0x100_0000;
    let coefficient = bits as int % 0x100_0000;
    let mantissa = if coefficient > 0x7f_ffff {
        coefficient / 0x100
    } else {
        coefficient
    };
    if exponent <= 3 {
        target == mantissa / (pow2((8 * (3 - exponent)) as nat) as int)
    } else {
        target / pow2((8 * (exponent - 3)) as nat) == mantissa
    }
}

/// Whether the bits of the header that opens an epoch follow from the
/// epoch before: `begin` opened that epoch and `end` closed it.
pub open spec fn spec_new_target_bits_match(
    begin: CircuitBlock,
    end: CircuitBlock,
    new_begin: CircuitBlock,
) -> bool {
    let old_target = spec_bits_to_target(begin.spec_bits());
    let elapsed = end.spec_time() - begin.spec_time();
    &&& elapsed >= 0
    &&& old_target * elapsed < pow2(256)
    &&& spec_compact_matches(spec_retarget(old_target, elapsed as nat), new_begin.spec_bits())
}

/// An epoch that took exactly the expected time leaves the target as it
/// was, and one that took twice as long doubles it.
pub proof fn lemma_retarget_scales(old_target: nat)
    ensures
        spec_retarget(old_target, EXPECTED_EPOCH_SECONDS as nat) == old_target,
        spec_retarget(old_target, 2 * (EXPECTED_EPOCH_SECONDS as nat)) == 2 * old_target,
{
    let e = EXPECTED_EPOCH_SECONDS as nat;
    assert(old_target * e / e == old_target) by (nonlinear_arith)
        requires
            e > 0,
    ;
    assert(old_target * (2 * e) / e == 2 * old_target) by (nonlinear_arith)
        requires
            e > 0,
    ;
}

/// An epoch that took exactly the expected time keeps the bits of the
/// header that opened it, for bits with a coefficient below `0x800000` and
/// an exponent of at most 29. Above that the scaled target may need more
/// than 256 bits, and then no bits match.
pub proof fn lemma_expected_epoch_keeps_bits(
    begin: CircuitBlock,
    end: CircuitBlock,
    new_begin: CircuitBlock,
)
    requires
        new_begin.spec_bits() == begin.spec_bits(),
        end.spec_time() - begin.spec_time() == EXPECTED_EPOCH_SECONDS,
        begin.spec_bits() % 0x100_0000 <= 0x7f_ffff,
        begin.spec_bits() / 0x100_0000 <= 29,
    ensures
        spec_new_target_bits_match(begin, end, new_begin),
{
    let bits = begin.spec_bits();
    let exponent = bits as int / 0x100_0000;
    let coefficient = bits as int % 0x100_0000;
    let old_target = spec_bits_to_target(bits);
    let seconds = EXPECTED_EPOCH_SECONDS as nat;
    lemma2_to64();
    lemma_pow2_strictly_increases(64, 256);
    if exponent <= 3 {
        let low = pow2((8 * (3 - exponent)) as nat);
        assert(old_target == coefficient / (low as int)) by {
            if exponent == 3 {
                assert(coefficient / (low as int) == coefficient) by (nonlinear_arith)
                    requires
                        low == 1,
                ;
            } else if exponent == 2 {
                assert(coefficient / (low as int) == coefficient / 0x100) by (nonlinear_arith)
                    requires
                        low == 0x100,
                ;
            } else if exponent == 1 {
                assert(coefficient / (low as int) == coefficient / 0x1_0000) by (nonlinear_arith)
                    requires
                        low == 0x1_0000,
                ;
            } else {
                assert(coefficient / (low as int) == 0) by (nonlinear_arith)
                    requires
                        low == 0x100_0000,
                        0 <= coefficient < 0x100_0000,
                ;
            }
        }
        assert(old_target * seconds < 0x1_0000_0000_0000_0000) by (nonlinear_arith)
            requires
                old_target < 0x80_0000,
                seconds == 1_209_600,
        ;
        assert(old_target * seconds / seconds == old_target) by (nonlinear_arith)
            requires
                seconds > 0,
        ;
    } else {
        let shift = (8 * (exponent - 3)) as nat;
        let zeros = pow2(shift);
        lemma_pow2_pos(shift);
        lemma_pow2_adds(23, shift);
        lemma_pow2_adds(23 + shift, 21);
        if shift < 208 {
            lemma_pow2_strictly_increases(44 + shift, 252);
        }
        lemma_pow2_strictly_increases(252, 256);
        lemma_pow2_strictly_increases(23 + shift, 44 + shift);
        let scaled = coefficient * zeros;
        assert(scaled < pow2(23 + shift)) by (nonlinear_arith)
            requires
                scaled == coefficient * zeros,
                0 <= coefficient < 0x80_0000,
                zeros > 0,
                pow2(23 + shift) == 0x80_0000 * zeros,
        ;
        assert(scaled >= 0) by (nonlinear_arith)
            requires
                scaled == coefficient * zeros,
                0 <= coefficient,
                zeros > 0,
        ;
        lemma_small_mod(scaled as nat, pow2(256));
        assert(old_target == scaled);
        assert(old_target * seconds < pow2(44 + shift)) by (nonlinear_arith)
            requires
                old_target < pow2(23 + shift),
                seconds == 1_209_600,
                pow2(44 + shift) == pow2(23 + shift) * 0x20_0000,
        ;
        assert(old_target * seconds / seconds == old_target) by (nonlinear_arith)
            requires
                seconds > 0,
        ;
        assert(scaled / (zeros as int) == coefficient) by (nonlinear_arith)
            requires
                scaled == coefficient * zeros,
                zeros > 0,
        ;
    }
}

/// The target that the compact bits of a header stand for.
pub fn bits_to_target(bits: [u8; 4]) -> (target: Uint256)
    ensures
        target.value() == spec_bits_to_target(u32_from_le(bits@) as u32),
{
    let bits = read_u32_le(&bits);
    let exponent: u32 = bits / 0x100_0000;
    let coefficient: u32 = bits % 0x100_0000;
    if exponent <= 3 {
        let mantissa: u32 = if exponent == 3 {
            coefficient
        } else if exponent == 2 {
            coefficient / 0x100
        } else if exponent == 1 {
            coefficient / 0x1_0000
        } else {
            coefficient / 0x100_0000
        };
        if mantissa > 0x7f_ffff {
            Uint256::from_u32(0)
        } else {
            Uint256::from_u32(mantissa)
        }
    } else if coefficient > 0x7f_ffff {
        Uint256::from_u32(0)
    } else {
        let shift: usize = (8 * (exponent - 3)) as usize;
        Uint256::from_u32(coefficient).shl(shift)
    }
}

/// Whether the bits of `new_epoch_begin_block` follow from the epoch that
/// `last_epoch_begin_block` opened and `last_epoch_end_block` closed.
pub fn new_target_bits_match(
    last_epoch_begin_block: &CircuitBlock,
    last_epoch_end_block: &CircuitBlock,
    new_epoch_begin_block: &CircuitBlock,
) -> (matches: bool)
    ensures
        matches == spec_new_target_bits_match(
            *last_epoch_begin_block,
            *last_epoch_end_block,
            *new_epoch_begin_block,
        ),
{
    let old_target = bits_to_target(last_epoch_begin_block.bits);
    let end_time = read_u32_le(&last_epoch_end_block.time);
    let begin_time = read_u32_le(&last_epoch_begin_block.time);
    if end_time < begin_time {
        return false;
    }
    let elapsed = Uint256::from_u32(end_time - begin_time);
    let scaled = match old_target.checked_mul(&elapsed) {
        Some(product) => product,
        None => {
            return false;
        },
    };
    proof {
        scaled.lemma_value_bound();
    }
    let expected_seconds = Uint256::from_u32(EXPECTED_EPOCH_SECONDS);
    let new_target = match scaled.checked_div(&expected_seconds) {
        Some(quotient) => quotient,
        None => {
            return false;
        },
    };
    assert(new_target.value() == spec_retarget(
        old_target.value(),
        (end_time - begin_time) as nat,
    ));
    let new_bits = read_u32_le(&new_epoch_begin_block.bits);
    let exponent: u32 = new_bits / 0x100_0000;
    let coefficient: u32 = new_bits % 0x100_0000;
    let mantissa: u32 = if coefficient > 0x7f_ffff {
        coefficient / 0x100
    } else {
        coefficient
    };
    if exponent <= 3 {
        let shift: usize = (8 * (3 - exponent)) as usize;
        let expected = Uint256::from_u32(mantissa).shr(shift);
        new_target.same_value(&expected)
    } else {
        let shift: usize = (8 * (exponent - 3)) as usize;
        new_target.shr(shift).same_value(&Uint256::from_u32(mantissa))
    }
}

/// The rule that a window of headers breaks.
#[derive(Clone, Copy, Debug, PartialEq, Eq)]
pub enum BlockValidationError {
    /// The window holds fewer than twelve headers.
    ChainTooShort { length: usize },
    /// The proposed height is below twelve.
    HeightTooLow { height: u64 },
    /// The proposed height is below the height of the retarget header.
    HeightBelowRetarget { height: u64, retarget_height: u64 },
    /// The proposed height is not the height of the last header.
    HeightMismatch { expected: u64, actual: u64 },
    /// The proposed height is not one above the header before the last.
    PreviousHeightMismatch { expected: u64, previous_height: u64 },
    /// The proposed height is not three above the deep-confirmation header.
    DeepHeightMismatch { expected: u64, deep_height: u64 },
    /// The proposed hash is not the hash of the last header.
    ProposedHashMismatch { expected: [u8; 32], actual: [u8; 32] },
    /// The previous hash is not the hash of the header before the last.
    PreviousHashMismatch { expected: [u8; 32], actual: [u8; 32] },
    /// The last header does not name the previous hash as its parent;
    /// `actual` is the parent it names.
    BrokenLink { expected: [u8; 32], actual: [u8; 32] },
    /// The retarget hash is not the hash of the retarget header.
    RetargetHashMismatch { expected: [u8; 32], actual: [u8; 32] },
    /// The retarget header and the proposed header are the same block.
    RetargetIsProposed,
    /// The difficulty bits of the last header are not the ones the chain
    /// prescribes.
    TargetBitsMismatch,
    /// The proposed hash is above the target.
    InsufficientWork,
    /// The median hash is not the hash of the median header.
    MedianHashMismatch { expected: [u8; 32], actual: [u8; 32] },
    /// The last header is older than the median header.
    TimestampBeforeMedian,
    /// The committed Merkle root is not the one of the deep-confirmation
    /// header.
    MerkleRootMismatch { expected: [u8; 32], actual: [u8; 32] },
}

/// The position of the median in an ordered window of `window` headers:
/// the middle one, and for an even window the upper of the two in the
/// middle.
pub open spec fn spec_median_position(window: int) -> int {
    if window % 2 == 0 {
        window / 2
    } else {
        (window - 1) / 2
    }
}

/// The timestamps of the eleven headers before the proposed one.
pub open spec fn spec_window_times(chain: Seq<CircuitBlock>) -> Seq<u32> {
    Seq::new(11, |j: int| chain[chain.len() - 12 + j].spec_time())
}

/// The median header: of the eleven headers before the proposed one,
/// ordered by time, the one in the middle.
pub open spec fn spec_median_block(chain: Seq<CircuitBlock>) -> CircuitBlock {
    chain[chain.len() - 12 + index_at_position(spec_window_times(chain), spec_median_position(11))]
}

/// Whether the difficulty bits of `last` are the ones the chain prescribes
/// at `height`: at the start of an epoch the retargeted ones, elsewhere the
/// ones of the retarget header.
pub open spec fn spec_target_bits_ok(
    height: u64,
    retarget: CircuitBlock,
    prev: CircuitBlock,
    last: CircuitBlock,
) -> bool {
    if height % 2016 == 0 {
        spec_new_target_bits_match(retarget, prev, last)
    } else {
        retarget.bits@ == last.bits@
    }
}

/// The outcome of validating a window: the first rule broken, in the order
/// of the rules, or success.
pub open spec fn spec_validate_block(
    chain: Seq<CircuitBlock>,
    retarget: CircuitBlock,
    public: ConsensusBlockPublicInput,
) -> Result<(), BlockValidationError> {
    let height = public.proposed_block_height;
    let last = chain[chain.len() - 1];
    let prev = chain[chain.len() - 2];
    let deep = chain[chain.len() - 4];
    let median = spec_median_block(chain);
    if chain.len() < 12 {
        Err(BlockValidationError::ChainTooShort { length: chain.len() as usize })
    } else if height < 12 {
        Err(BlockValidationError::HeightTooLow { height })
    } else if height < retarget.height {
        Err(BlockValidationError::HeightBelowRetarget { height, retarget_height: retarget.height })
    } else if height != last.height {
        Err(BlockValidationError::HeightMismatch { expected: height, actual: last.height })
    } else if height != prev.height + 1 {
        Err(
            BlockValidationError::PreviousHeightMismatch {
                expected: height,
                previous_height: prev.height,
            },
        )
    } else if height != deep.height + 3 {
        Err(BlockValidationError::DeepHeightMismatch { expected: height, deep_height: deep.height })
    } else if public.proposed_block_hash@ != last.spec_block_hash() {
        Err(
            BlockValidationError::ProposedHashMismatch {
                expected: public.proposed_block_hash,
                actual: last.spec_block_hash_digest(),
            },
        )
    } else if public.prev_block_hash@ != prev.spec_block_hash() {
        Err(
            BlockValidationError::PreviousHashMismatch {
                expected: public.prev_block_hash,
                actual: prev.spec_block_hash_digest(),
            },
        )
    } else if public.prev_block_hash@ != last.prev_blockhash@.reverse() {
        Err(
            BlockValidationError::BrokenLink {
                expected: public.prev_block_hash,
                actual: spec_reversed(last.prev_blockhash),
            },
        )
    } else if public.retarget_block_hash@ != retarget.spec_block_hash() {
        Err(
            BlockValidationError::RetargetHashMismatch {
                expected: public.retarget_block_hash,
                actual: retarget.spec_block_hash_digest(),
            },
        )
    } else if public.retarget_block_hash@ == public.proposed_block_hash@ {
        Err(BlockValidationError::RetargetIsProposed)
    } else if !spec_target_bits_ok(height, retarget, prev, last) {
        Err(BlockValidationError::TargetBitsMismatch)
    } else if be_value(public.proposed_block_hash@) > spec_bits_to_target(last.spec_bits()) {
        Err(BlockValidationError::InsufficientWork)
    } else if public.median_block_hash@ != median.spec_block_hash() {
        Err(
            BlockValidationError::MedianHashMismatch {
                expected: public.median_block_hash,
                actual: median.spec_block_hash_digest(),
            },
        )
    } else if last.spec_time() < median.spec_time() {
        Err(BlockValidationError::TimestampBeforeMedian)
    } else if public.m_deep_tx_merkle_root@ != deep.merkle_root@ {
        Err(
            BlockValidationError::MerkleRootMismatch {
                expected: public.m_deep_tx_merkle_root,
                actual: deep.merkle_root,
            },
        )
    } else {
        Ok(())
    }
}

/// The position of the median in an ordered window of `window` headers.
pub fn median_position(window: usize) -> (position: usize)
    ensures
        position == spec_median_position(window as int),
{
    if window % 2 == 0 {
        window / 2
    } else {
        (window - 1) / 2
    }
}

/// The index in `proposed_chain` of the median header.
pub fn median_block_index(proposed_chain: &Vec<CircuitBlock>) -> (index: usize)
    requires
        proposed_chain@.len() >= 12,
    ensures
        proposed_chain@.len() - 12 <= index < proposed_chain@.len() - 1,
        proposed_chain@[index as int] == spec_median_block(proposed_chain@),
{
    let length = proposed_chain.len();
    let start = length - 12;
    let mut times: Vec<u32> = Vec::with_capacity(11);
    let mut j: usize = 0;
    while j < 11
        invariant
            j <= 11,
            length == proposed_chain@.len(),
            start + 12 == length,
            times@.len() == j,
            forall|l: int| 0 <= l < j ==> times@[l] == spec_window_times(proposed_chain@)[l],
        decreases 11 - j,
    {
        times.push(read_u32_le(&proposed_chain[start + j].time));
        j += 1;
    }
    assert(times@ =~= spec_window_times(proposed_chain@));
    let offset = select_by_time(&times, median_position(11));
    start + offset
}

/// Validates the last header of `proposed_chain` against the chain's rules
/// and against what `block_public_input` commits to.
///
/// The window holds at least eleven trusted headers and then the proposed
/// one; `retarget_block` opened the difficulty epoch (at the start of an
/// epoch, the one before). The rules are tried in order and the first one
/// broken is reported.
pub fn validate_block(
    proposed_chain: Vec<CircuitBlock>,
    retarget_block: CircuitBlock,
    block_public_input: ConsensusBlockPublicInput,
) -> (outcome: Result<(), BlockValidationError>)
    ensures
        outcome == spec_validate_block(proposed_chain@, retarget_block, block_public_input),
{
    let height = block_public_input.proposed_block_height;
    let length = proposed_chain.len();
    if length < 12 {
        return Err(BlockValidationError::ChainTooShort { length });
    }
    let proposed_block = proposed_chain[length - 1];
    let previous_block = proposed_chain[length - 2];
    let m_deep_block = proposed_chain[length - 4];

    if height < 12 {
        return Err(BlockValidationError::HeightTooLow { height });
    }
    if height < retarget_block.height {
        return Err(
            BlockValidationError::HeightBelowRetarget {
                height,
                retarget_height: retarget_block.height,
            },
        );
    }
    if height != proposed_block.height {
        return Err(
            BlockValidationError::HeightMismatch { expected: height, actual: proposed_block.height },
        );
    }
    if previous_block.height == u64::MAX || height != previous_block.height + 1 {
        return Err(
            BlockValidationError::PreviousHeightMismatch {
                expected: height,
                previous_height: previous_block.height,
            },
        );
    }
    if m_deep_block.height > u64::MAX - 3 || height != m_deep_block.height + 3 {
        return Err(
            BlockValidationError::DeepHeightMismatch {
                expected: height,
                deep_height: m_deep_block.height,
            },
        );
    }
    let proposed_hash = proposed_block.compute_block_hash();
    if !bytes32_eq(&block_public_input.proposed_block_hash, &proposed_hash) {
        return Err(
            BlockValidationError::ProposedHashMismatch {
                expected: block_public_input.proposed_block_hash,
                actual: proposed_hash,
            },
        );
    }
    let previous_hash = previous_block.compute_block_hash();
    if !bytes32_eq(&block_public_input.prev_block_hash, &previous_hash) {
        return Err(
            BlockValidationError::PreviousHashMismatch {
                expected: block_public_input.prev_block_hash,
                actual: previous_hash,
            },
        );
    }
    let parent = to_little_endian_bytes(proposed_block.prev_blockhash);
    if !bytes32_eq(&block_public_input.prev_block_hash, &parent) {
        return Err(
            BlockValidationError::BrokenLink {
                expected: block_public_input.prev_block_hash,
                actual: parent,
            },
        );
    }
    let retarget_hash = retarget_block.compute_block_hash();
    if !bytes32_eq(&block_public_input.retarget_block_hash, &retarget_hash) {
        return Err(
            BlockValidationError::RetargetHashMismatch {
                expected: block_public_input.retarget_block_hash,
                actual: retarget_hash,
            },
        );
    }
    if bytes32_eq(
        &block_public_input.retarget_block_hash,
        &block_public_input.proposed_block_hash,
    ) {
        return Err(BlockValidationError::RetargetIsProposed);
    }
    let bits_ok = if height % 2016 == 0 {
        new_target_bits_match(&retarget_block, &previous_block, &proposed_block)
    } else {
        bytes4_eq(&retarget_block.bits, &proposed_block.bits)
    };
    if !bits_ok {
        return Err(BlockValidationError::TargetBitsMismatch);
    }
    let work = Uint256::from_be_bytes(block_public_input.proposed_block_hash);
    let target = bits_to_target(proposed_block.bits);
    if !work.at_most(&target) {
        return Err(BlockValidationError::InsufficientWork);
    }
    let median_block = proposed_chain[median_block_index(&proposed_chain)];
    let median_hash = median_block.compute_block_hash();
    if !bytes32_eq(&block_public_input.median_block_hash, &median_hash) {
        return Err(
            BlockValidationError::MedianHashMismatch {
                expected: block_public_input.median_block_hash,
                actual: median_hash,
            },
        );
    }
    if read_u32_le(&proposed_block.time) < read_u32_le(&median_block.time) {
        return Err(BlockValidationError::TimestampBeforeMedian);
    }
    if !bytes32_eq(&block_public_input.m_deep_tx_merkle_root, &m_deep_block.merkle_root) {
        return Err(
            BlockValidationError::MerkleRootMismatch {
                expected: block_public_input.m_deep_tx_merkle_root,
                actual: m_deep_block.merkle_root,
            },
        );
    }
    Ok(())
}

/// Whether a window meets every rule of the chain.
pub open spec fn spec_block_is_valid(
    chain: Seq<CircuitBlock>,
    retarget: CircuitBlock,
    public: ConsensusBlockPublicInput,
) -> bool {
    let height = public.proposed_block_height;
    let last = chain[chain.len() - 1];
    let prev = chain[chain.len() - 2];
    let deep = chain[chain.len() - 4];
    let median = spec_median_block(chain);
    &&& chain.len() >= 12
    &&& height >= 12
    &&& height >= retarget.height
    &&& height == last.height
    &&& height == prev.height + 1
    &&& height == deep.height + 3
    &&& public.proposed_block_hash@ == last.spec_block_hash()
    &&& public.prev_block_hash@ == prev.spec_block_hash()
    &&& public.prev_block_hash@ == last.prev_blockhash@.reverse()
    &&& public.retarget_block_hash@ == retarget.spec_block_hash()
    &&& public.retarget_block_hash@ != public.proposed_block_hash@
    &&& spec_target_bits_ok(height, retarget, prev, last)
    &&& be_value(public.proposed_block_hash@) <= spec_bits_to_target(last.spec_bits())
    &&& public.median_block_hash@ == median.spec_block_hash()
    &&& last.spec_time() >= median.spec_time()
    &&& public.m_deep_tx_merkle_root@ == deep.merkle_root@
}

/// Validation succeeds on exactly the windows that meet every rule.
pub proof fn lemma_valid_iff_every_rule_holds(
    chain: Seq<CircuitBlock>,
    retarget: CircuitBlock,
    public: ConsensusBlockPublicInput,
)
    ensures
        spec_validate_block(chain, retarget, public) is Ok <==> spec_block_is_valid(
            chain,
            retarget,
            public,
        ),
{
}

/// The headers fix what is committed: against one window and one retarget
/// header, at most one public record validates.
pub proof fn lemma_public_record_unique(
    chain: Seq<CircuitBlock>,
    retarget: CircuitBlock,
    first: ConsensusBlockPublicInput,
    second: ConsensusBlockPublicInput,
)
    requires
        spec_validate_block(chain, retarget, first) is Ok,
        spec_validate_block(chain, retarget, second) is Ok,
    ensures
        first == second,
{
    assert(first.prev_block_hash =~= second.prev_block_hash);
    assert(first.proposed_block_hash =~= second.proposed_block_hash);
    assert(first.retarget_block_hash =~= second.retarget_block_hash);
    assert(first.median_block_hash =~= second.median_block_hash);
    assert(first.m_deep_tx_merkle_root =~= second.m_deep_tx_merkle_root);
}

/// Changing one field of a public record that validates makes validation
/// fail, and at the rule that reads that field: a changed height at one of
/// the height rules, a changed digest at the rule that compares it.
pub proof fn lemma_changed_record_field_fails(
    chain: Seq<CircuitBlock>,
    retarget: CircuitBlock,
    public: ConsensusBlockPublicInput,
    height: u64,
    digest: [u8; 32],
)
    requires
        spec_validate_block(chain, retarget, public) is Ok,
    ensures
        height != public.proposed_block_height ==> ({
            let outcome = spec_validate_block(
                chain,
                retarget,
                ConsensusBlockPublicInput { proposed_block_height: height, ..public },
            );
            ||| outcome == Err::<(), _>(BlockValidationError::HeightTooLow { height })
            ||| outcome == Err::<(), _>(
                BlockValidationError::HeightBelowRetarget {
                    height,
                    retarget_height: retarget.height,
                },
            )
            ||| outcome == Err::<(), _>(
                BlockValidationError::HeightMismatch {
                    expected: height,
                    actual: chain[chain.len() - 1].height,
                },
            )
        }),
        digest != public.proposed_block_hash ==> spec_validate_block(
            chain,
            retarget,
            ConsensusBlockPublicInput { proposed_block_hash: digest, ..public },
        ) == Err::<(), _>(
            BlockValidationError::ProposedHashMismatch {
                expected: digest,
                actual: public.proposed_block_hash,
            },
        ),
        digest != public.prev_block_hash ==> spec_validate_block(
            chain,
            retarget,
            ConsensusBlockPublicInput { prev_block_hash: digest, ..public },
        ) == Err::<(), _>(
            BlockValidationError::PreviousHashMismatch {
                expected: digest,
                actual: public.prev_block_hash,
            },
        ),
        digest != public.retarget_block_hash ==> spec_validate_block(
            chain,
            retarget,
            ConsensusBlockPublicInput { retarget_block_hash: digest, ..public },
        ) == Err::<(), _>(
            BlockValidationError::RetargetHashMismatch {
                expected: digest,
                actual: public.retarget_block_hash,
            },
        ),
        digest != public.median_block_hash ==> spec_validate_block(
            chain,
            retarget,
            ConsensusBlockPublicInput { median_block_hash: digest, ..public },
        ) == Err::<(), _>(
            BlockValidationError::MedianHashMismatch {
                expected: digest,
                actual: public.median_block_hash,
            },
        ),
        digest != public.m_deep_tx_merkle_root ==> spec_validate_block(
            chain,
            retarget,
            ConsensusBlockPublicInput { m_deep_tx_merkle_root: digest, ..public },
        ) == Err::<(), _>(
            BlockValidationError::MerkleRootMismatch {
                expected: digest,
                actual: public.m_deep_tx_merkle_root,
            },
        ),
{
    let last = chain[chain.len() - 1];
    let prev = chain[chain.len() - 2];
    lemma_double_sha256_digest(last.spec_serialize());
    lemma_double_sha256_digest(prev.spec_serialize());
    lemma_double_sha256_digest(retarget.spec_serialize());
    lemma_double_sha256_digest(spec_median_block(chain).spec_serialize());
    assert(public.proposed_block_hash =~= last.spec_block_hash_digest());
    assert(public.prev_block_hash =~= prev.spec_block_hash_digest());
    assert(public.retarget_block_hash =~= retarget.spec_block_hash_digest());
    assert(public.median_block_hash =~= spec_median_block(chain).spec_block_hash_digest());
    assert(public.m_deep_tx_merkle_root =~= chain[chain.len() - 4].merkle_root);
    if digest@ == public.proposed_block_hash@ {
        assert(digest =~= public.proposed_block_hash);
    }
    if digest@ == public.prev_block_hash@ {
        assert(digest =~= public.prev_block_hash);
    }
    if digest@ == public.retarget_block_hash@ {
        assert(digest =~= public.retarget_block_hash);
    }
    if digest@ == public.median_block_hash@ {
        assert(digest =~= public.median_block_hash);
    }
    if digest@ == public.m_deep_tx_merkle_root@ {
        assert(digest =~= public.m_deep_tx_merkle_root);
    }
}

/// Changing the height of the last header of a window that validates
/// makes validation fail at the rule that compares the two heights.
pub proof fn lemma_changed_header_height_fails(
    chain: Seq<CircuitBlock>,
    retarget: CircuitBlock,
    public: ConsensusBlockPublicInput,
    height: u64,
)
    requires
        spec_validate_block(chain, retarget, public) is Ok,
        height != chain[chain.len() - 1].height,
    ensures
        spec_validate_block(
            chain.update(
                chain.len() - 1,
                CircuitBlock { height, ..chain[chain.len() - 1] },
            ),
            retarget,
            public,
        ) == Err::<(), _>(
            BlockValidationError::HeightMismatch {
                expected: public.proposed_block_height,
                actual: height,
            },
        ),
{
}

/// The committed hash binds the proposed header: against a public record
/// that validates with one last header, a last header with any other byte on
/// the wire does not validate, unless two byte strings with one SHA-256
/// digest are found on the way.
pub proof fn lemma_changed_header_fails(
    chain: Seq<CircuitBlock>,
    retarget: CircuitBlock,
    public: ConsensusBlockPublicInput,
    changed: CircuitBlock,
)
    requires
        spec_validate_block(chain, retarget, public) is Ok,
        changed.spec_serialize() != chain[chain.len() - 1].spec_serialize(),
    ensures
        spec_validate_block(chain.update(chain.len() - 1, changed), retarget, public) is Err
            || sha256_collision_exists(),
{
    let last = chain[chain.len() - 1];
    if spec_validate_block(chain.update(chain.len() - 1, changed), retarget, public) is Ok {
        assert(changed.spec_block_hash() == last.spec_block_hash());
        lemma_double_sha256_binds(changed.spec_serialize(), last.spec_serialize());
    }
}

} // verus!
