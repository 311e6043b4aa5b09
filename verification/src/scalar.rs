//! Single-precision numbers as bit patterns.

use vstd::prelude::*;
use vstd::std_specs::cmp::PartialEqSpecImpl;

verus! {

/// The sign bit of a binary32 pattern.
pub const SIGN_MASK: u32 = 0x8000_0000;

/// Every bit of a binary32 pattern but the sign.
pub const MAGNITUDE_MASK: u32 = 0x7fff_ffff;

/// The pattern of positive infinity; a larger magnitude is a NaN.
pub const INFINITY_BITS: u32 = 0x7f80_0000;

/// The pattern of `1.0`.
pub const ONE_BITS: u32 = 0x3f80_0000;

/// A single-precision number, held as its IEEE-754 binary32 bit pattern.
#[derive(Clone, Copy, Debug)]
pub struct Scalar {
    pub bits: u32,
}

impl Scalar {
    /// The pattern encodes a NaN: all exponent bits set and a mantissa that is not zero.
    pub open spec fn is_nan(self) -> bool {
        self.bits & MAGNITUDE_MASK > INFINITY_BITS
    }

    /// The pattern encodes `+0.0` or `-0.0`.
    pub open spec fn is_zero(self) -> bool {
        self.bits & MAGNITUDE_MASK == 0
    }

    /// The number with its sign flipped: the same pattern but for the sign bit.
    pub open spec fn negated(self) -> Scalar {
        Scalar { bits: self.bits ^ SIGN_MASK }
    }

    /// Equality of the numbers that two patterns encode: a NaN equals nothing,
    /// the two zeros equal each other, and any other two numbers are equal
    /// exactly when their patterns are.
    pub open spec fn same_number(self, other: Scalar) -> bool {
        &&& !self.is_nan()
        &&& !other.is_nan()
        &&& (self.bits == other.bits || (self.is_zero() && other.is_zero()))
    }

    pub fn from_bits(bits: u32) -> (r: Scalar)
        ensures
            r.bits == bits,
    {
        Scalar { bits }
    }

    pub fn to_bits(self) -> (r: u32)
        ensures
            r == self.bits,
    {
        self.bits
    }

    /// `+0.0`.
    pub fn zero() -> (r: Scalar)
        ensures
            r.bits == 0,
    {
        Scalar { bits: 0 }
    }

    /// `1.0`.
    pub fn one() -> (r: Scalar)
        ensures
            r.bits == ONE_BITS,
    {
        Scalar { bits: ONE_BITS }
    }

    pub fn check_nan(self) -> (r: bool)
        ensures
            r == self.is_nan(),
    {
        self.bits & MAGNITUDE_MASK > INFINITY_BITS
    }

    /// Flips the sign, as negation of a binary32 value does: on zeros,
    /// infinities and NaNs too.
    pub fn neg(self) -> (r: Scalar)
        ensures
            r == self.negated(),
    {
        Scalar { bits: self.bits ^ SIGN_MASK }
    }
}

impl PartialEq for Scalar {
    fn eq(&self, other: &Scalar) -> (r: bool) {
        let a: u32 = self.bits & MAGNITUDE_MASK;
        let b: u32 = other.bits & MAGNITUDE_MASK;
        a <= INFINITY_BITS && b <= INFINITY_BITS && (self.bits == other.bits || (a == 0 && b == 0))
    }
}

impl PartialEqSpecImpl for Scalar {
    open spec fn obeys_eq_spec() -> bool {
        true
    }

    open spec fn eq_spec(&self, other: &Scalar) -> bool {
        self.same_number(*other)
    }
}

/// Flipping the sign twice gives the pattern back.
pub proof fn lemma_neg_involution(a: Scalar)
    ensures
        a.negated().negated() == a,
{
    let b: u32 = a.bits;
    assert((b ^ 0x8000_0000u32) ^ 0x8000_0000u32 == b) by (bit_vector);
}

/// A sign flip changes the sign bit and nothing else, so it keeps a NaN a NaN
/// and a zero a zero, and it never gives the pattern it was given.
pub proof fn lemma_neg_keeps_magnitude(a: Scalar)
    ensures
        a.negated().bits & MAGNITUDE_MASK == a.bits & MAGNITUDE_MASK,
        a.negated().is_nan() == a.is_nan(),
        a.negated().is_zero() == a.is_zero(),
        a.negated().bits != a.bits,
{
    let b: u32 = a.bits;
    assert((b ^ 0x8000_0000u32) & 0x7fff_ffffu32 == b & 0x7fff_ffffu32) by (bit_vector);
    assert((b ^ 0x8000_0000u32) != b) by (bit_vector);
}

/// Negation respects equality of numbers.
pub proof fn lemma_neg_same_number(a: Scalar, b: Scalar)
    ensures
        a.negated().same_number(b.negated()) == a.same_number(b),
{
    let x: u32 = a.bits;
    let y: u32 = b.bits;
    lemma_neg_keeps_magnitude(a);
    lemma_neg_keeps_magnitude(b);
    assert(((x ^ 0x8000_0000u32) == (y ^ 0x8000_0000u32)) == (x == y)) by (bit_vector);
}

/// Equality of numbers is symmetric and transitive, and a number equals
/// itself exactly when it is no NaN.
pub proof fn lemma_same_number_laws(a: Scalar, b: Scalar, c: Scalar)
    ensures
        a.same_number(a) == !a.is_nan(),
        a.same_number(b) == b.same_number(a),
        a.same_number(b) && b.same_number(c) ==> a.same_number(c),
{
}

} // verus!
