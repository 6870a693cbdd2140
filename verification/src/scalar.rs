//! Double-precision numbers carried as their IEEE 754 binary64 bit patterns.
//!
//! The codec only moves numbers around, so a number is kept as the 64 bits
//! that encode it. The few questions that the records and the spatial types
//! ask of a number (is it not-a-number, is it zero, is it exactly one, what is
//! its negation) are answered on the bits.
use vstd::prelude::*;

verus! {

/// Mask of the sign bit.
pub const SIGN_MASK: u64 = 0x8000_0000_0000_0000u64;

/// Mask of the exponent and fraction bits.
pub const MAGNITUDE_MASK: u64 = 0x7fff_ffff_ffff_ffffu64;

/// Bit pattern of positive infinity: every larger magnitude is not-a-number.
pub const INFINITY_BITS: u64 = 0x7ff0_0000_0000_0000u64;

/// Bit pattern of the canonical quiet not-a-number.
pub const NAN_BITS: u64 = 0x7ff8_0000_0000_0000u64;

/// Bit pattern of `1.0`.
pub const ONE_BITS: u64 = 0x3ff0_0000_0000_0000u64;

/// A double-precision number, held as its bit pattern.
///
/// Two values are equal when their bits are equal. This is finer than numeric
/// equality: positive and negative zero differ, and a not-a-number equals
/// itself.
#[derive(Clone, Copy, Debug, PartialEq, Eq, Structural)]
pub struct Double {
    pub bits: u64,
}

impl Double {
    /// Whether the bits encode a not-a-number.
    pub open spec fn spec_is_nan(self) -> bool {
        (self.bits & MAGNITUDE_MASK) > INFINITY_BITS
    }

    /// Whether the bits encode positive or negative zero.
    pub open spec fn spec_is_zero(self) -> bool {
        (self.bits & MAGNITUDE_MASK) == 0
    }

    /// Whether the number equals `1.0` numerically. One has a single encoding.
    pub open spec fn spec_is_one(self) -> bool {
        self.bits == ONE_BITS
    }

    /// The number with its sign flipped.
    pub open spec fn spec_neg(self) -> Double {
        Double { bits: self.bits ^ SIGN_MASK }
    }

    /// Positive zero.
    pub open spec fn spec_zero() -> Double {
        Double { bits: 0 }
    }

    /// The number one.
    pub open spec fn spec_one() -> Double {
        Double { bits: ONE_BITS }
    }

    /// The canonical quiet not-a-number.
    pub open spec fn spec_nan() -> Double {
        Double { bits: NAN_BITS }
    }

    pub fn from_bits(bits: u64) -> (r: Double)
        ensures
            r.bits == bits,
    {
        Double { bits }
    }

    pub fn to_bits(self) -> (r: u64)
        ensures
            r == self.bits,
    {
        self.bits
    }

    /// Positive zero.
    #[verifier::when_used_as_spec(spec_zero)]
    pub fn zero() -> (r: Double)
        ensures
            r == Double::spec_zero(),
            r.spec_is_zero(),
    {
        assert((0u64 & MAGNITUDE_MASK) == 0) by (bit_vector);
        Double { bits: 0 }
    }

    /// The number one.
    #[verifier::when_used_as_spec(spec_one)]
    pub fn one() -> (r: Double)
        ensures
            r == Double::spec_one(),
            r.spec_is_one(),
    {
        Double { bits: ONE_BITS }
    }

    /// The canonical quiet not-a-number, used as the "unknown" sentinel.
    #[verifier::when_used_as_spec(spec_nan)]
    pub fn nan() -> (r: Double)
        ensures
            r == Double::spec_nan(),
            r.spec_is_nan(),
    {
        assert((NAN_BITS & MAGNITUDE_MASK) > INFINITY_BITS) by (bit_vector);
        Double { bits: NAN_BITS }
    }

    #[verifier::when_used_as_spec(spec_is_nan)]
    pub fn is_nan(self) -> (r: bool)
        ensures
            r == self.spec_is_nan(),
    {
        (self.bits & MAGNITUDE_MASK) > INFINITY_BITS
    }

    #[verifier::when_used_as_spec(spec_is_zero)]
    pub fn is_zero(self) -> (r: bool)
        ensures
            r == self.spec_is_zero(),
    {
        (self.bits & MAGNITUDE_MASK) == 0
    }

    #[verifier::when_used_as_spec(spec_is_one)]
    pub fn is_one(self) -> (r: bool)
        ensures
            r == self.spec_is_one(),
    {
        self.bits == ONE_BITS
    }

    /// Negation flips the sign bit and nothing else, also for zeros,
    /// infinities and not-a-numbers.
    #[verifier::when_used_as_spec(spec_neg)]
    pub fn neg(self) -> (r: Double)
        ensures
            r == self.spec_neg(),
    {
        Double { bits: self.bits ^ SIGN_MASK }
    }
}

/// Negating twice gives the number back, bit for bit.
pub proof fn lemma_neg_involution(d: Double)
    ensures
        d.spec_neg().spec_neg() == d,
{
    let b = d.bits;
    assert((b ^ SIGN_MASK) ^ SIGN_MASK == b) by (bit_vector);
}

/// Negation changes neither whether a number is not-a-number nor whether it
/// is zero: both are read off the bits below the sign.
pub proof fn lemma_neg_keeps_class(d: Double)
    ensures
        d.spec_neg().spec_is_nan() == d.spec_is_nan(),
        d.spec_neg().spec_is_zero() == d.spec_is_zero(),
        d.spec_neg() != d,
{
    let b = d.bits;
    assert(((b ^ SIGN_MASK) & MAGNITUDE_MASK) == (b & MAGNITUDE_MASK)) by (bit_vector);
    assert((b ^ SIGN_MASK) != b) by (bit_vector);
}

/// Zero, one and not-a-number are three different classes of number.
pub proof fn lemma_classes_distinct(d: Double)
    ensures
        !(d.spec_is_nan() && d.spec_is_zero()),
        d.spec_is_one() ==> !d.spec_is_nan() && !d.spec_is_zero(),
{
    assert((ONE_BITS & MAGNITUDE_MASK) == ONE_BITS) by (bit_vector);
}

} // verus!
