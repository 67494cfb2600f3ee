//! Single-precision values as bit patterns, and small vectors of them.

use vstd::prelude::*;

verus! {

/// The sign bit of a binary32 pattern.
pub const SIGN_BIT: u32 = 0x8000_0000;

/// A single-precision number, held as its IEEE 754 binary32 bit pattern.
///
/// Only the operations that are exact on the pattern are offered: the test
/// for zero and the change of sign. Everything that rounds is left to the
/// caller, who hands the rounded result back as another `Scalar`.
///
/// Two scalars are equal when their patterns are: the two zeros differ.
#[derive(Clone, Copy, Debug, PartialEq, Eq, Structural)]
pub struct Scalar {
    pub bits: u32,
}

impl Scalar {
    /// Positive zero.
    pub open spec fn spec_zero() -> Scalar {
        Scalar { bits: 0 }
    }

    /// The number one: exponent 127, empty fraction.
    pub open spec fn spec_one() -> Scalar {
        Scalar { bits: 0x3f80_0000 }
    }

    /// Whether the pattern is positive or negative zero, the two patterns
    /// that compare equal to zero.
    pub open spec fn is_zero_spec(self) -> bool {
        self.bits == 0 || self.bits == SIGN_BIT
    }

    /// Whether the sign bit is set.
    pub open spec fn is_sign_negative_spec(self) -> bool {
        self.bits >= SIGN_BIT
    }

    /// The pattern with the sign bit flipped and every other bit kept.
    pub open spec fn negated_spec(self) -> Scalar {
        if self.bits >= SIGN_BIT {
            Scalar { bits: (self.bits - SIGN_BIT) as u32 }
        } else {
            Scalar { bits: (self.bits + SIGN_BIT) as u32 }
        }
    }

    pub fn from_bits(bits: u32) -> (r: Scalar)
        ensures
            r.bits == bits,
    {
        Scalar { bits }
    }

    pub fn to_bits(self) -> (r: u32)
        ensures
            r == self.bits,
    {
        self.bits
    }

    #[verifier::when_used_as_spec(spec_zero)]
    pub fn zero() -> (r: Scalar)
        ensures
            r == Scalar::spec_zero(),
    {
        Scalar { bits: 0 }
    }

    #[verifier::when_used_as_spec(spec_one)]
    pub fn one() -> (r: Scalar)
        ensures
            r == Scalar::spec_one(),
    {
        Scalar { bits: 0x3f80_0000 }
    }

    #[verifier::when_used_as_spec(is_zero_spec)]
    pub fn is_zero(self) -> (r: bool)
        ensures
            r == self.is_zero_spec(),
    {
        self.bits == 0 || self.bits == SIGN_BIT
    }

    #[verifier::when_used_as_spec(is_sign_negative_spec)]
    pub fn is_sign_negative(self) -> (r: bool)
        ensures
            r == self.is_sign_negative_spec(),
    {
        self.bits >= SIGN_BIT
    }

    /// Flips the sign. On every pattern that is a number this is the product
    /// with minus one; zero keeps its magnitude and changes its sign bit.
    #[verifier::when_used_as_spec(negated_spec)]
    pub fn negated(self) -> (r: Scalar)
        ensures
            r == self.negated_spec(),
    {
        if self.bits >= SIGN_BIT {
            Scalar { bits: self.bits - SIGN_BIT }
        } else {
            Scalar { bits: self.bits + SIGN_BIT }
        }
    }
}

/// Flipping the sign twice gives the pattern back, and changes the sign bit
/// once.
pub proof fn lemma_negated_involution(s: Scalar)
    ensures
        s.negated().negated() == s,
        s.negated().is_sign_negative() == !s.is_sign_negative(),
        s.negated().is_zero() == s.is_zero(),
{
}

/// Two scalars: a position on the screen.
#[derive(Clone, Copy, Debug, PartialEq, Eq, Structural)]
pub struct Vec2 {
    pub x: Scalar,
    pub y: Scalar,
}

/// Three scalars.
#[derive(Clone, Copy, Debug, PartialEq, Eq, Structural)]
pub struct Vec3 {
    pub x: Scalar,
    pub y: Scalar,
    pub z: Scalar,
}

/// Four scalars: a colour with its alpha, a clip-space position, or the
/// pointer vector handed to the evaluator.
#[derive(Clone, Copy, Debug, PartialEq, Eq, Structural)]
pub struct Vec4 {
    pub x: Scalar,
    pub y: Scalar,
    pub z: Scalar,
    pub w: Scalar,
}

impl Vec4 {
    /// Whether all four components compare equal to zero, whatever their
    /// sign bits.
    pub open spec fn is_zero_spec(self) -> bool {
        self.x.is_zero() && self.y.is_zero() && self.z.is_zero() && self.w.is_zero()
    }

    /// The vector of four positive zeros.
    pub open spec fn spec_zero() -> Vec4 {
        Vec4 { x: Scalar::zero(), y: Scalar::zero(), z: Scalar::zero(), w: Scalar::zero() }
    }

    #[verifier::when_used_as_spec(spec_zero)]
    pub fn zero() -> (r: Vec4)
        ensures
            r == Vec4::spec_zero(),
    {
        Vec4 { x: Scalar::zero(), y: Scalar::zero(), z: Scalar::zero(), w: Scalar::zero() }
    }

    #[verifier::when_used_as_spec(is_zero_spec)]
    pub fn is_zero(self) -> (r: bool)
        ensures
            r == self.is_zero_spec(),
    {
        self.x.is_zero() && self.y.is_zero() && self.z.is_zero() && self.w.is_zero()
    }
}

} // verus!
