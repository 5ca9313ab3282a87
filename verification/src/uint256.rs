//! 256-bit unsigned integers for proof-of-work targets.
//!
//! A value is held as its 32 big-endian bytes; the arithmetic is done by the
//! `crypto-bigint` crate, and each operation is stated here over the integer
//! that the bytes spell.

use vstd::arithmetic::power2::lemma2_to64;
use vstd::arithmetic::power2::lemma_pow2_adds;
use vstd::arithmetic::power2::pow2;
use vstd::prelude::*;

verus! {

/// The integer that a byte string spells in big-endian order.
pub open spec fn be_value(s: Seq<u8>) -> nat
    decreases s.len(),
{
    if s.len() == 0 {
        0
    } else {
        be_value(s.drop_last()) * 256 + s.last() as nat
    }
}

/// A string of `n` bytes spells an integer below `2^(8n)`.
pub proof fn lemma_be_value_bound(s: Seq<u8>)
    ensures
        be_value(s) < pow2(8 * s.len()),
    decreases s.len(),
{
    if s.len() == 0 {
        lemma2_to64();
    } else {
        lemma_be_value_bound(s.drop_last());
        lemma_pow2_adds((8 * (s.len() - 1)) as nat, 8);
        lemma2_to64();
    }
}

/// A 256-bit unsigned integer.
#[derive(Clone, Copy, Debug)]
pub struct Uint256 {
    /// The integer's 32 bytes, most significant first.
    pub be_bytes: [u8; 32],
}

impl Uint256 {
    /// The integer held.
    pub open spec fn value(&self) -> nat {
        be_value(self.be_bytes@)
    }

    /// Every value is below `2^256`.
    pub proof fn lemma_value_bound(&self)
        ensures
            self.value() < pow2(256),
    {
        lemma_be_value_bound(self.be_bytes@);
    }

    /// The integer that `bytes` spell, most significant byte first.
    pub fn from_be_bytes(bytes: [u8; 32]) -> (out: Uint256)
        ensures
            out.be_bytes == bytes,
            out.value() == be_value(bytes@),
    {
        Uint256 { be_bytes: bytes }
    }

    /// The integer `n`.
    ///
    /// Trusted: `crypto_bigint::U256::from_u32`, which holds `n` in the
    /// lowest limb and zero in the others.
    #[verifier::external_body]
    pub(crate) fn from_u32(n: u32) -> (out: Uint256)
        ensures
            out.value() == n,
    {
        let x = crypto_bigint::U256::from_u32(n);
        Uint256 { be_bytes: crypto_bigint::Encoding::to_be_bytes(&x) }
    }

    /// `self` shifted left by `shift` bits, keeping the low 256 bits.
    ///
    /// Trusted: `crypto_bigint::U256::shl`, which drops the bits shifted
    /// out and returns zero for a shift of 256 or more.
    #[verifier::external_body]
    pub(crate) fn shl(&self, shift: usize) -> (out: Uint256)
        ensures
            out.value() == (self.value() * pow2(shift as nat)) % pow2(256),
    {
        let x = crypto_bigint::U256::from_be_slice(&self.be_bytes);
        Uint256 { be_bytes: crypto_bigint::Encoding::to_be_bytes(&(x << shift)) }
    }

    /// `self` shifted right by `shift` bits.
    ///
    /// Trusted: `crypto_bigint::U256::shr`, which drops the bits shifted
    /// out and returns zero for a shift of 256 or more.
    #[verifier::external_body]
    pub(crate) fn shr(&self, shift: usize) -> (out: Uint256)
        ensures
            out.value() == self.value() / pow2(shift as nat),
    {
        let x = crypto_bigint::U256::from_be_slice(&self.be_bytes);
        Uint256 { be_bytes: crypto_bigint::Encoding::to_be_bytes(&(x >> shift)) }
    }

    /// The product of `self` and `rhs`, or `None` where it needs more than
    /// 256 bits.
    ///
    /// Trusted: `crypto_bigint::CheckedMul::checked_mul` on `U256`, which
    /// is some only if the high half of the wide product is zero.
    #[verifier::external_body]
    pub(crate) fn checked_mul(&self, rhs: &Uint256) -> (out: Option<Uint256>)
        ensures
            match out {
                Some(product) => product.value() == self.value() * rhs.value(),
                None => self.value() * rhs.value() >= pow2(256),
            },
    {
        let x = crypto_bigint::U256::from_be_slice(&self.be_bytes);
        let y = crypto_bigint::U256::from_be_slice(&rhs.be_bytes);
        match Option::<crypto_bigint::U256>::from(crypto_bigint::CheckedMul::checked_mul(&x, &y)) {
            Some(p) => Some(Uint256 { be_bytes: crypto_bigint::Encoding::to_be_bytes(&p) }),
            None => None,
        }
    }

    /// The quotient of `self` by `rhs`, rounded down, or `None` where `rhs`
    /// is zero.
    ///
    /// Trusted: `crypto_bigint::U256::checked_div`, which is some only if
    /// the divisor is not zero.
    #[verifier::external_body]
    pub(crate) fn checked_div(&self, rhs: &Uint256) -> (out: Option<Uint256>)
        ensures
            match out {
                Some(quotient) => rhs.value() != 0 && quotient.value() == self.value()
                    / rhs.value(),
                None => rhs.value() == 0,
            },
    {
        let x = crypto_bigint::U256::from_be_slice(&self.be_bytes);
        let y = crypto_bigint::U256::from_be_slice(&rhs.be_bytes);
        match Option::<crypto_bigint::U256>::from(x.checked_div(&y)) {
            Some(q) => Some(Uint256 { be_bytes: crypto_bigint::Encoding::to_be_bytes(&q) }),
            None => None,
        }
    }

    /// Whether `self` is at most `rhs`.
    ///
    /// Trusted: the `PartialOrd` of `crypto_bigint::U256`, which orders by
    /// the integers held.
    #[verifier::external_body]
    pub(crate) fn at_most(&self, rhs: &Uint256) -> (out: bool)
        ensures
            out == (self.value() <= rhs.value()),
    {
        let x = crypto_bigint::U256::from_be_slice(&self.be_bytes);
        let y = crypto_bigint::U256::from_be_slice(&rhs.be_bytes);
        x.le(&y)
    }

    /// Whether `self` and `rhs` hold the same integer.
    ///
    /// Trusted: the `PartialEq` of `crypto_bigint::U256`, which compares
    /// every limb.
    #[verifier::external_body]
    pub(crate) fn same_value(&self, rhs: &Uint256) -> (out: bool)
        ensures
            out == (self.value() == rhs.value()),
    {
        let x = crypto_bigint::U256::from_be_slice(&self.be_bytes);
        let y = crypto_bigint::U256::from_be_slice(&rhs.be_bytes);
        x == y
    }
}

} // verus!
