//! Fixed-width byte helpers: comparison, reversal, concatenation and
//! little-endian integers.

use vstd::array::spec_array_update;
use vstd::prelude::*;

verus! {

/// Why a byte string is not the encoding of a record.
#[derive(Clone, Copy, Debug, PartialEq, Eq)]
pub enum DecodeError {
    /// The byte string does not have the length of the record's layout.
    LengthMismatch { expected: usize, actual: usize },
}

/// The integer that four bytes spell in little-endian order.
pub open spec fn u32_from_le(s: Seq<u8>) -> int
    recommends
        s.len() == 4,
{
    s[0] + s[1] * 0x100 + s[2] * 0x1_0000 + s[3] * 0x100_0000
}

/// The four little-endian bytes of a 32-bit integer.
pub open spec fn u32_to_le(x: u32) -> Seq<u8> {
    seq![
        (x % 0x100) as u8,
        (x / 0x100 % 0x100) as u8,
        (x / 0x1_0000 % 0x100) as u8,
        (x / 0x100_0000) as u8,
    ]
}

/// The integer that eight bytes spell in little-endian order.
pub open spec fn u64_from_le(s: Seq<u8>) -> int
    recommends
        s.len() == 8,
{
    s[0] + s[1] * 0x100 + s[2] * 0x1_0000 + s[3] * 0x100_0000 + s[4] * 0x1_0000_0000 + s[5]
        * 0x100_0000_0000 + s[6] * 0x1_0000_0000_0000 + s[7] * 0x100_0000_0000_0000
}

/// The eight little-endian bytes of a 64-bit integer.
pub open spec fn u64_to_le(x: u64) -> Seq<u8> {
    seq![
        (x % 0x100) as u8,
        (x / 0x100 % 0x100) as u8,
        (x / 0x1_0000 % 0x100) as u8,
        (x / 0x100_0000 % 0x100) as u8,
        (x / 0x1_0000_0000 % 0x100) as u8,
        (x / 0x100_0000_0000 % 0x100) as u8,
        (x / 0x1_0000_0000_0000 % 0x100) as u8,
        (x / 0x100_0000_0000_0000) as u8,
    ]
}

/// Reading back the little-endian bytes of an integer gives the integer.
pub proof fn lemma_u32_le_round_trip(x: u32)
    ensures
        u32_to_le(x).len() == 4,
        u32_from_le(u32_to_le(x)) == x,
{
    assert(x == (x % 0x100) + (x / 0x100 % 0x100) * 0x100 + (x / 0x1_0000 % 0x100) * 0x1_0000 + (x
        / 0x100_0000) * 0x100_0000) by (bit_vector);
}

/// Writing the integer that four bytes spell gives the same four bytes.
pub proof fn lemma_u32_le_bytes_round_trip(s: Seq<u8>)
    requires
        s.len() == 4,
    ensures
        0 <= u32_from_le(s) <= u32::MAX,
        u32_to_le(u32_from_le(s) as u32) == s,
{
    let (b0, b1, b2, b3) = (s[0], s[1], s[2], s[3]);
    let x = (b0 + b1 * 0x100 + b2 * 0x1_0000 + b3 * 0x100_0000) as u32;
    assert(x % 0x100 == b0 && x / 0x100 % 0x100 == b1 && x / 0x1_0000 % 0x100 == b2 && x
        / 0x100_0000 == b3) by (bit_vector)
        requires
            x == (b0 + b1 * 0x100 + b2 * 0x1_0000 + b3 * 0x100_0000) as u32,
    ;
    assert(u32_to_le(u32_from_le(s) as u32) =~= s);
}

/// Reading back the little-endian bytes of an integer gives the integer.
pub proof fn lemma_u64_le_round_trip(x: u64)
    ensures
        u64_to_le(x).len() == 8,
        u64_from_le(u64_to_le(x)) == x,
{
    assert(x == (x % 0x100) + (x / 0x100 % 0x100) * 0x100 + (x / 0x1_0000 % 0x100) * 0x1_0000 + (x
        / 0x100_0000 % 0x100) * 0x100_0000 + (x / 0x1_0000_0000 % 0x100) * 0x1_0000_0000 + (x
        / 0x100_0000_0000 % 0x100) * 0x100_0000_0000 + (x / 0x1_0000_0000_0000 % 0x100)
        * 0x1_0000_0000_0000 + (x / 0x100_0000_0000_0000) * 0x100_0000_0000_0000) by (bit_vector);
}

/// Writing the integer that eight bytes spell gives the same eight bytes.
pub proof fn lemma_u64_le_bytes_round_trip(s: Seq<u8>)
    requires
        s.len() == 8,
    ensures
        0 <= u64_from_le(s) <= u64::MAX,
        u64_to_le(u64_from_le(s) as u64) == s,
{
    let (b0, b1, b2, b3) = (s[0], s[1], s[2], s[3]);
    let (b4, b5, b6, b7) = (s[4], s[5], s[6], s[7]);
    let x = (b0 + b1 * 0x100 + b2 * 0x1_0000 + b3 * 0x100_0000 + b4 * 0x1_0000_0000 + b5
        * 0x100_0000_0000 + b6 * 0x1_0000_0000_0000 + b7 * 0x100_0000_0000_0000) as u64;
    assert(x % 0x100 == b0 && x / 0x100 % 0x100 == b1 && x / 0x1_0000 % 0x100 == b2 && x
        / 0x100_0000 % 0x100 == b3 && x / 0x1_0000_0000 % 0x100 == b4 && x / 0x100_0000_0000
        % 0x100 == b5 && x / 0x1_0000_0000_0000 % 0x100 == b6 && x / 0x100_0000_0000_0000 == b7)
        by (bit_vector)
        requires
            x == (b0 + b1 * 0x100 + b2 * 0x1_0000 + b3 * 0x100_0000 + b4 * 0x1_0000_0000 + b5
                * 0x100_0000_0000 + b6 * 0x1_0000_0000_0000 + b7 * 0x100_0000_0000_0000) as u64,
    ;
    assert(u64_to_le(u64_from_le(s) as u64) =~= s);
}

/// `partial` with the bytes from `i` on replaced by those of `source` in the
/// opposite order.
pub open spec fn spec_reversed_from(source: [u8; 32], partial: [u8; 32], i: int) -> [u8; 32]
    decreases 32 - i,
{
    if i < 0 || i >= 32 {
        partial
    } else {
        spec_reversed_from(source, spec_array_update(partial, i, source[31 - i]), i + 1)
    }
}

/// The 32 bytes of `source` in the opposite order.
pub open spec fn spec_reversed(source: [u8; 32]) -> [u8; 32] {
    spec_reversed_from(source, source, 0)
}

/// Filling in the rest of a partly reversed value reverses the whole.
proof fn lemma_reversed_from(source: [u8; 32], partial: [u8; 32], i: int)
    requires
        0 <= i <= 32,
        forall|j: int| 0 <= j < i ==> partial@[j] == source@[31 - j],
    ensures
        spec_reversed_from(source, partial, i)@ == source@.reverse(),
    decreases 32 - i,
{
    if i < 32 {
        let next = spec_array_update(partial, i, source[31 - i]);
        assert(next@ == partial@.update(i, source[31 - i]));
        lemma_reversed_from(source, next, i + 1);
    } else {
        assert(partial@ =~= source@.reverse());
    }
}

/// The reversed bytes are the bytes in the opposite order.
pub proof fn lemma_reversed(source: [u8; 32])
    ensures
        spec_reversed(source)@ == source@.reverse(),
{
    lemma_reversed_from(source, source, 0);
}

/// Reads a 32-bit integer from its little-endian bytes.
pub fn read_u32_le(b: &[u8; 4]) -> (x: u32)
    ensures
        x == u32_from_le(b@),
{
    let b0: u32 = b[0] as u32;
    let b1: u32 = b[1] as u32;
    let b2: u32 = b[2] as u32;
    let b3: u32 = b[3] as u32;
    b0 + b1 * 0x100 + b2 * 0x1_0000 + b3 * 0x100_0000
}

/// Writes a 32-bit integer as its little-endian bytes.
pub fn write_u32_le(x: u32) -> (b: [u8; 4])
    ensures
        b@ == u32_to_le(x),
{
    let b: [u8; 4] = [
        (x % 0x100) as u8,
        (x / 0x100 % 0x100) as u8,
        (x / 0x1_0000 % 0x100) as u8,
        (x / 0x100_0000) as u8,
    ];
    assert(b@ =~= u32_to_le(x));
    b
}

/// Reads a 64-bit integer from eight little-endian bytes of `data`,
/// starting at `at`.
pub fn read_u64_le(data: &[u8], at: usize) -> (x: u64)
    requires
        at + 8 <= data@.len(),
    ensures
        x == u64_from_le(data@.subrange(at as int, at + 8)),
{
    let b0: u64 = data[at] as u64;
    let b1: u64 = data[at + 1] as u64;
    let b2: u64 = data[at + 2] as u64;
    let b3: u64 = data[at + 3] as u64;
    let b4: u64 = data[at + 4] as u64;
    let b5: u64 = data[at + 5] as u64;
    let b6: u64 = data[at + 6] as u64;
    let b7: u64 = data[at + 7] as u64;
    b0 + b1 * 0x100 + b2 * 0x1_0000 + b3 * 0x100_0000 + b4 * 0x1_0000_0000 + b5
        * 0x100_0000_0000 + b6 * 0x1_0000_0000_0000 + b7 * 0x100_0000_0000_0000
}

/// Writes a 64-bit integer as its little-endian bytes.
pub fn write_u64_le(x: u64) -> (b: [u8; 8])
    ensures
        b@ == u64_to_le(x),
{
    let b: [u8; 8] = [
        (x % 0x100) as u8,
        (x / 0x100 % 0x100) as u8,
        (x / 0x1_0000 % 0x100) as u8,
        (x / 0x100_0000 % 0x100) as u8,
        (x / 0x1_0000_0000 % 0x100) as u8,
        (x / 0x100_0000_0000 % 0x100) as u8,
        (x / 0x1_0000_0000_0000 % 0x100) as u8,
        (x / 0x100_0000_0000_0000) as u8,
    ];
    assert(b@ =~= u64_to_le(x));
    b
}

/// Reads 32 bytes of `data`, starting at `at`.
pub fn read_bytes32(data: &[u8], at: usize) -> (out: [u8; 32])
    requires
        at + 32 <= data@.len(),
    ensures
        out@ == data@.subrange(at as int, at + 32),
{
    let n = data.len();
    let mut out: [u8; 32] = [0u8; 32];
    let mut i: usize = 0;
    while i < 32
        invariant
            i <= 32,
            at + 32 <= data@.len(),
            n == data@.len(),
            forall|j: int| 0 <= j < i ==> out@[j] == data@[at + j],
        decreases 32 - i,
    {
        out[i] = data[at + i];
        i += 1;
    }
    assert(out@ =~= data@.subrange(at as int, at + 32));
    out
}

/// Reads 4 bytes of `data`, starting at `at`.
pub fn read_bytes4(data: &[u8], at: usize) -> (out: [u8; 4])
    requires
        at + 4 <= data@.len(),
    ensures
        out@ == data@.subrange(at as int, at + 4),
{
    let out: [u8; 4] = [data[at], data[at + 1], data[at + 2], data[at + 3]];
    assert(out@ =~= data@.subrange(at as int, at + 4));
    out
}

/// Appends `src` to `out`.
pub fn append_bytes(out: &mut Vec<u8>, src: &[u8])
    ensures
        final(out)@ == old(out)@ + src@,
{
    out.extend_from_slice(src);
    assert(out@ =~= old(out)@ + src@);
}

/// Whether two byte strings hold the same bytes.
pub fn bytes_eq(a: &[u8], b: &[u8]) -> (same: bool)
    ensures
        same == (a@ == b@),
{
    if a.len() != b.len() {
        return false;
    }
    let mut i: usize = 0;
    while i < a.len()
        invariant
            i <= a@.len(),
            a@.len() == b@.len(),
            forall|j: int| 0 <= j < i ==> a@[j] == b@[j],
        decreases a@.len() - i,
    {
        if a[i] != b[i] {
            return false;
        }
        i += 1;
    }
    assert(a@ =~= b@);
    true
}

/// Whether two 32-byte values hold the same bytes.
pub fn bytes32_eq(a: &[u8; 32], b: &[u8; 32]) -> (same: bool)
    ensures
        same == (a@ == b@),
        same == (*a == *b),
{
    let same = bytes_eq(a.as_slice(), b.as_slice());
    proof {
        if same {
            assert(*a =~= *b);
        }
    }
    same
}

/// Whether two 4-byte values hold the same bytes.
pub fn bytes4_eq(a: &[u8; 4], b: &[u8; 4]) -> (same: bool)
    ensures
        same == (a@ == b@),
        same == (*a == *b),
{
    let same = bytes_eq(a.as_slice(), b.as_slice());
    proof {
        if same {
            assert(*a =~= *b);
        }
    }
    same
}

} // verus!
