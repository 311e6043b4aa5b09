//! Three-component vectors of bit-pattern scalars.

use vstd::prelude::*;
use vstd::std_specs::cmp::PartialEqSpecImpl;
use crate::scalar::{Scalar, ONE_BITS, lemma_neg_involution, lemma_neg_same_number, lemma_same_number_laws};

verus! {

/// A point or a direction in three dimensions.
#[derive(Clone, Copy, Debug)]
pub struct Vector3 {
    pub x: Scalar,
    pub y: Scalar,
    pub z: Scalar,
}

impl Vector3 {
    /// The vector of the three given bit patterns.
    pub open spec fn of_bits(x: u32, y: u32, z: u32) -> Vector3 {
        Vector3 { x: Scalar { bits: x }, y: Scalar { bits: y }, z: Scalar { bits: z } }
    }

    /// The vector with the sign of each component flipped.
    pub open spec fn negated(self) -> Vector3 {
        Vector3 { x: self.x.negated(), y: self.y.negated(), z: self.z.negated() }
    }

    /// Componentwise equality of numbers.
    pub open spec fn same_number(self, other: Vector3) -> bool {
        &&& self.x.same_number(other.x)
        &&& self.y.same_number(other.y)
        &&& self.z.same_number(other.z)
    }

    /// Some component is a NaN.
    pub open spec fn has_nan(self) -> bool {
        self.x.is_nan() || self.y.is_nan() || self.z.is_nan()
    }

    pub fn new(x: Scalar, y: Scalar, z: Scalar) -> (r: Vector3)
        ensures
            r == (Vector3 { x, y, z }),
    {
        Vector3 { x, y, z }
    }

    /// `(0, 0, 0)`.
    pub fn zero() -> (r: Vector3)
        ensures
            r == Vector3::of_bits(0, 0, 0),
    {
        Vector3 { x: Scalar::zero(), y: Scalar::zero(), z: Scalar::zero() }
    }

    /// `(1, 0, 0)`.
    pub fn unit_x() -> (r: Vector3)
        ensures
            r == Vector3::of_bits(ONE_BITS, 0, 0),
    {
        Vector3 { x: Scalar::one(), y: Scalar::zero(), z: Scalar::zero() }
    }

    /// `(0, 1, 0)`, the up direction that a look-at construction takes when none is given.
    pub fn unit_y() -> (r: Vector3)
        ensures
            r == Vector3::of_bits(0, ONE_BITS, 0),
    {
        Vector3 { x: Scalar::zero(), y: Scalar::one(), z: Scalar::zero() }
    }

    /// `(0, 0, 1)`.
    pub fn unit_z() -> (r: Vector3)
        ensures
            r == Vector3::of_bits(0, 0, ONE_BITS),
    {
        Vector3 { x: Scalar::zero(), y: Scalar::zero(), z: Scalar::one() }
    }

    /// Flips the sign of each component.
    pub fn neg(self) -> (r: Vector3)
        ensures
            r == self.negated(),
    {
        Vector3 { x: self.x.neg(), y: self.y.neg(), z: self.z.neg() }
    }
}

impl PartialEq for Vector3 {
    fn eq(&self, other: &Vector3) -> (r: bool) {
        self.x == other.x && self.y == other.y && self.z == other.z
    }
}

impl PartialEqSpecImpl for Vector3 {
    open spec fn obeys_eq_spec() -> bool {
        true
    }

    open spec fn eq_spec(&self, other: &Vector3) -> bool {
        self.same_number(*other)
    }
}

/// Flipping every sign twice gives the vector back.
pub proof fn lemma_vector_neg_involution(v: Vector3)
    ensures
        v.negated().negated() == v,
{
    lemma_neg_involution(v.x);
    lemma_neg_involution(v.y);
    lemma_neg_involution(v.z);
}

/// Negation respects equality of vectors.
pub proof fn lemma_vector_neg_same_number(a: Vector3, b: Vector3)
    ensures
        a.negated().same_number(b.negated()) == a.same_number(b),
{
    lemma_neg_same_number(a.x, b.x);
    lemma_neg_same_number(a.y, b.y);
    lemma_neg_same_number(a.z, b.z);
}

/// Equality of vectors is symmetric and transitive, and a vector equals
/// itself exactly when none of its components is a NaN.
pub proof fn lemma_vector_same_number_laws(a: Vector3, b: Vector3, c: Vector3)
    ensures
        a.same_number(a) == !a.has_nan(),
        a.same_number(b) == b.same_number(a),
        a.same_number(b) && b.same_number(c) ==> a.same_number(c),
{
    lemma_same_number_laws(a.x, b.x, c.x);
    lemma_same_number_laws(a.y, b.y, c.y);
    lemma_same_number_laws(a.z, b.z, c.z);
}

} // verus!
