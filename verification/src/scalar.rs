//! Real numbers as IEEE 754 binary64 bit patterns.

use vstd::prelude::*;

verus! {

/// The sign bit of a binary64 pattern.
pub const SIGN_BIT: u64 = 0x8000_0000_0000_0000;

/// The pattern of positive zero.
pub const ZERO_BITS: u64 = 0;

/// The pattern of negative infinity.
pub const NEG_INFINITY_BITS: u64 = 0xFFF0_0000_0000_0000;

/// The pattern of positive infinity.
pub const INFINITY_BITS: u64 = 0x7FF0_0000_0000_0000;

/// A real number, held as the bit pattern of its binary64 encoding.
#[derive(Clone, Copy, Debug, PartialEq, Eq, Structural)]
pub struct Scalar {
    pub bits: u64,
}

/// The pattern of the number with the opposite sign: the same magnitude
/// bits under a flipped sign bit.
pub open spec fn negated_bits(bits: u64) -> u64 {
    if bits >= SIGN_BIT {
        (bits - SIGN_BIT) as u64
    } else {
        (bits + SIGN_BIT) as u64
    }
}

/// Whether a pattern encodes zero, of either sign.
pub open spec fn zero_bits(bits: u64) -> bool {
    bits == ZERO_BITS || bits == SIGN_BIT
}

impl Scalar {
    /// The number with the opposite sign.
    pub open spec fn negated(self) -> Scalar {
        Scalar { bits: negated_bits(self.bits) }
    }

    /// Whether the number is zero, of either sign.
    pub open spec fn zero_valued(self) -> bool {
        zero_bits(self.bits)
    }

    /// The scalar with the given bit pattern.
    pub fn from_bits(bits: u64) -> (s: Scalar)
        ensures
            s.bits == bits,
    {
        Scalar { bits }
    }

    /// The bit pattern of the scalar.
    pub fn to_bits(self) -> (bits: u64)
        ensures
            bits == self.bits,
    {
        self.bits
    }

    /// Positive zero.
    pub fn zero() -> (s: Scalar)
        ensures
            s.bits == ZERO_BITS,
    {
        Scalar { bits: ZERO_BITS }
    }

    /// Negative infinity: the lower bound of a row that has none.
    pub fn neg_infinity() -> (s: Scalar)
        ensures
            s.bits == NEG_INFINITY_BITS,
    {
        Scalar { bits: NEG_INFINITY_BITS }
    }

    /// Positive infinity: the upper bound of a column that has none.
    pub fn infinity() -> (s: Scalar)
        ensures
            s.bits == INFINITY_BITS,
    {
        Scalar { bits: INFINITY_BITS }
    }

    /// Flips the sign: negation of a binary64 number changes the sign bit
    /// and nothing else, for zeros, infinities and NaNs too.
    pub fn neg(self) -> (s: Scalar)
        ensures
            s == self.negated(),
            s.bits == self.bits ^ SIGN_BIT,
    {
        let bits: u64 = self.bits;
        assert(bits ^ 0x8000_0000_0000_0000u64 == if bits >= 0x8000_0000_0000_0000u64 {
            (bits - 0x8000_0000_0000_0000u64) as u64
        } else {
            (bits + 0x8000_0000_0000_0000u64) as u64
        }) by (bit_vector);
        Scalar { bits: bits ^ SIGN_BIT }
    }

    /// Whether the number is zero, of either sign.
    pub fn is_zero(self) -> (z: bool)
        ensures
            z == self.zero_valued(),
    {
        self.bits == ZERO_BITS || self.bits == SIGN_BIT
    }
}

/// Negating twice gives the number back, bit for bit.
pub proof fn lemma_negated_twice(s: Scalar)
    ensures
        s.negated().negated() == s,
{
}

/// Negation keeps zero apart from everything else.
pub proof fn lemma_negated_zero(s: Scalar)
    ensures
        s.negated().zero_valued() == s.zero_valued(),
{
}

} // verus!
