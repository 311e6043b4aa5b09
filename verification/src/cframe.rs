//! The coordinate frame: three basis axes and a position.

use vstd::prelude::*;
use vstd::std_specs::cmp::PartialEqSpecImpl;
use crate::scalar::{Scalar, ONE_BITS, lemma_neg_involution};
use crate::vector3::{Vector3, lemma_vector_same_number_laws};

verus! {

/// A coordinate frame: the upper three rows of a homogeneous 4x4 matrix.
///
/// The columns `x_axis`, `y_axis` and `z_axis` are the frame's right, up and
/// back directions (the frame looks along the negated back direction), and
/// `w_axis` is its position. The matrix's last row is not stored: it is
/// `(0, 0, 0, 1)` for every frame, see [`CFrame::matrix`].
///
/// The three axes are meant to be orthonormal, but nothing enforces it: a
/// frame built from arbitrary axes keeps them as given.
#[derive(Clone, Copy, Debug)]
pub struct CFrame {
    pub x_axis: Vector3,
    pub y_axis: Vector3,
    pub z_axis: Vector3,
    pub w_axis: Vector3,
}

/// The four entries of a homogeneous column: the vector and its fourth coordinate.
pub open spec fn column(v: Vector3, w: u32) -> Seq<Scalar> {
    seq![v.x, v.y, v.z, Scalar { bits: w }]
}

impl CFrame {
    /// The frame at the origin whose axes are the coordinate axes.
    pub open spec fn identity_frame() -> CFrame {
        CFrame {
            x_axis: Vector3::of_bits(ONE_BITS, 0, 0),
            y_axis: Vector3::of_bits(0, ONE_BITS, 0),
            z_axis: Vector3::of_bits(0, 0, ONE_BITS),
            w_axis: Vector3::of_bits(0, 0, 0),
        }
    }

    /// The frame at `pos` whose axes are the coordinate axes.
    pub open spec fn translation_frame(pos: Vector3) -> CFrame {
        CFrame { w_axis: pos, ..CFrame::identity_frame() }
    }

    /// The full 4x4 matrix in column-major order. The fourth coordinate of
    /// each axis is `0` and that of the position is `1`, for every frame.
    pub open spec fn matrix(self) -> Seq<Scalar> {
        column(self.x_axis, 0) + column(self.y_axis, 0) + column(self.z_axis, 0) + column(
            self.w_axis,
            ONE_BITS,
        )
    }

    /// The twelve numbers of the frame: position, then right, up and back axis.
    pub open spec fn raw_components(self) -> Seq<Scalar> {
        seq![
            self.w_axis.x, self.w_axis.y, self.w_axis.z,
            self.x_axis.x, self.x_axis.y, self.x_axis.z,
            self.y_axis.x, self.y_axis.y, self.y_axis.z,
            self.z_axis.x, self.z_axis.y, self.z_axis.z,
        ]
    }

    /// The twelve numbers as [`CFrame::get_components`] hands them out: the
    /// raw ones, but with the sign of the position's `z` flipped.
    pub open spec fn components(self) -> Seq<Scalar> {
        self.raw_components().update(2, self.w_axis.z.negated())
    }

    /// The frame that the twelve numbers `c` describe: a position, then the
    /// right, the up and the back axis.
    pub open spec fn of_components(c: Seq<Scalar>) -> CFrame
        recommends
            c.len() == 12,
    {
        CFrame {
            w_axis: Vector3 { x: c[0], y: c[1], z: c[2] },
            x_axis: Vector3 { x: c[3], y: c[4], z: c[5] },
            y_axis: Vector3 { x: c[6], y: c[7], z: c[8] },
            z_axis: Vector3 { x: c[9], y: c[10], z: c[11] },
        }
    }

    /// The same axes at the origin.
    pub open spec fn rotation_part(self) -> CFrame {
        CFrame { w_axis: Vector3::of_bits(0, 0, 0), ..self }
    }

    /// Equality of frames: all twelve numbers are equal as numbers.
    pub open spec fn same_number(self, other: CFrame) -> bool {
        &&& self.x_axis.same_number(other.x_axis)
        &&& self.y_axis.same_number(other.y_axis)
        &&& self.z_axis.same_number(other.z_axis)
        &&& self.w_axis.same_number(other.w_axis)
    }

    /// Some number of the frame is a NaN.
    pub open spec fn has_nan(self) -> bool {
        self.x_axis.has_nan() || self.y_axis.has_nan() || self.z_axis.has_nan()
            || self.w_axis.has_nan()
    }

    /// The identity frame.
    pub fn identity() -> (r: CFrame)
        ensures
            r == CFrame::identity_frame(),
    {
        CFrame {
            x_axis: Vector3::unit_x(),
            y_axis: Vector3::unit_y(),
            z_axis: Vector3::unit_z(),
            w_axis: Vector3::zero(),
        }
    }

    /// A pure translation: the coordinate axes at `pos`.
    pub fn from_translation(pos: Vector3) -> (r: CFrame)
        ensures
            r == CFrame::translation_frame(pos),
    {
        CFrame {
            x_axis: Vector3::unit_x(),
            y_axis: Vector3::unit_y(),
            z_axis: Vector3::unit_z(),
            w_axis: pos,
        }
    }

    /// The frame at `pos` with the three given axes, kept exactly as given:
    /// nothing is normalised or made orthogonal.
    pub fn from_matrix(pos: Vector3, right: Vector3, up: Vector3, back: Vector3) -> (r: CFrame)
        ensures
            r == (CFrame { x_axis: right, y_axis: up, z_axis: back, w_axis: pos }),
    {
        CFrame { x_axis: right, y_axis: up, z_axis: back, w_axis: pos }
    }

    /// The frame of twelve numbers: the position `x, y, z`, then the nine
    /// numbers of the linear part, three for each axis, right axis first.
    pub fn from_components(c: &[Scalar; 12]) -> (r: CFrame)
        ensures
            r == CFrame::of_components(c@),
    {
        CFrame {
            w_axis: Vector3 { x: c[0], y: c[1], z: c[2] },
            x_axis: Vector3 { x: c[3], y: c[4], z: c[5] },
            y_axis: Vector3 { x: c[6], y: c[7], z: c[8] },
            z_axis: Vector3 { x: c[9], y: c[10], z: c[11] },
        }
    }

    /// The position.
    pub fn position(&self) -> (r: Vector3)
        ensures
            r == self.w_axis,
    {
        self.w_axis
    }

    /// The right, up and back axes.
    pub fn orientation(&self) -> (r: (Vector3, Vector3, Vector3))
        ensures
            r == (self.x_axis, self.y_axis, self.z_axis),
    {
        (self.x_axis, self.y_axis, self.z_axis)
    }

    /// The position's first coordinate.
    pub fn x(&self) -> (r: Scalar)
        ensures
            r == self.w_axis.x,
    {
        self.w_axis.x
    }

    /// The position's second coordinate.
    pub fn y(&self) -> (r: Scalar)
        ensures
            r == self.w_axis.y,
    {
        self.w_axis.y
    }

    /// The position's third coordinate, as stored.
    pub fn z(&self) -> (r: Scalar)
        ensures
            r == self.w_axis.z,
    {
        self.w_axis.z
    }

    /// The right direction: the first axis.
    pub fn right_vector(&self) -> (r: Vector3)
        ensures
            r == self.x_axis,
    {
        self.x_axis
    }

    /// The up direction: the second axis.
    pub fn up_vector(&self) -> (r: Vector3)
        ensures
            r == self.y_axis,
    {
        self.y_axis
    }

    /// The back direction: the third axis.
    pub fn z_vector(&self) -> (r: Vector3)
        ensures
            r == self.z_axis,
    {
        self.z_axis
    }

    /// The direction the frame looks along: the back axis with every sign flipped.
    pub fn look_vector(&self) -> (r: Vector3)
        ensures
            r == self.z_axis.negated(),
    {
        self.z_axis.neg()
    }

    /// The same axes at the origin.
    pub fn rotation(&self) -> (r: CFrame)
        ensures
            r == self.rotation_part(),
    {
        CFrame { x_axis: self.x_axis, y_axis: self.y_axis, z_axis: self.z_axis, w_axis: Vector3::zero() }
    }

    /// The same axes at `pos`. Moving a frame by a vector is this, with the
    /// sum or the difference of the position and the vector.
    pub fn with_position(&self, pos: Vector3) -> (r: CFrame)
        ensures
            r == (CFrame { w_axis: pos, ..*self }),
            r.rotation_part() == self.rotation_part(),
    {
        CFrame { x_axis: self.x_axis, y_axis: self.y_axis, z_axis: self.z_axis, w_axis: pos }
    }

    /// The twelve components: the position with the sign of its `z`
    /// flipped, then the right, up and back axis, each as stored.
    pub fn get_components(&self) -> (r: [Scalar; 12])
        ensures
            r@ == self.components(),
    {
        let r: [Scalar; 12] = [
            self.w_axis.x, self.w_axis.y, self.w_axis.z.neg(),
            self.x_axis.x, self.x_axis.y, self.x_axis.z,
            self.y_axis.x, self.y_axis.y, self.y_axis.z,
            self.z_axis.x, self.z_axis.y, self.z_axis.z,
        ];
        assert(r@ =~= self.components());
        r
    }

    /// The twelve numbers in the order of the frame's written form: the
    /// position as stored, with no sign flipped, then the right, up and
    /// back axis.
    pub fn written_components(&self) -> (r: [Scalar; 12])
        ensures
            r@ == self.raw_components(),
    {
        let r: [Scalar; 12] = [
            self.w_axis.x, self.w_axis.y, self.w_axis.z,
            self.x_axis.x, self.x_axis.y, self.x_axis.z,
            self.y_axis.x, self.y_axis.y, self.y_axis.z,
            self.z_axis.x, self.z_axis.y, self.z_axis.z,
        ];
        assert(r@ =~= self.raw_components());
        r
    }

    /// The full 4x4 matrix in column-major order, last row included.
    pub fn to_cols_array(&self) -> (r: [Scalar; 16])
        ensures
            r@ == self.matrix(),
    {
        let o: Scalar = Scalar::zero();
        let r: [Scalar; 16] = [
            self.x_axis.x, self.x_axis.y, self.x_axis.z, o,
            self.y_axis.x, self.y_axis.y, self.y_axis.z, o,
            self.z_axis.x, self.z_axis.y, self.z_axis.z, o,
            self.w_axis.x, self.w_axis.y, self.w_axis.z, Scalar::one(),
        ];
        assert(r@ =~= self.matrix());
        r
    }
}

impl PartialEq for CFrame {
    fn eq(&self, other: &CFrame) -> (r: bool) {
        self.x_axis == other.x_axis && self.y_axis == other.y_axis && self.z_axis == other.z_axis
            && self.w_axis == other.w_axis
    }
}

impl PartialEqSpecImpl for CFrame {
    open spec fn obeys_eq_spec() -> bool {
        true
    }

    open spec fn eq_spec(&self, other: &CFrame) -> bool {
        self.same_number(*other)
    }
}

/// The last row of every frame's matrix is `(0, 0, 0, 1)`, and the other
/// twelve entries are the frame's axes and position.
pub proof fn lemma_matrix_last_row(f: CFrame)
    ensures
        f.matrix().len() == 16,
        f.matrix()[3].bits == 0,
        f.matrix()[7].bits == 0,
        f.matrix()[11].bits == 0,
        f.matrix()[15].bits == ONE_BITS,
        f.matrix().subrange(0, 3) == seq![f.x_axis.x, f.x_axis.y, f.x_axis.z],
        f.matrix().subrange(4, 7) == seq![f.y_axis.x, f.y_axis.y, f.y_axis.z],
        f.matrix().subrange(8, 11) == seq![f.z_axis.x, f.z_axis.y, f.z_axis.z],
        f.matrix().subrange(12, 15) == seq![f.w_axis.x, f.w_axis.y, f.w_axis.z],
{
    let m = f.matrix();
    assert(m.subrange(0, 3) =~= seq![f.x_axis.x, f.x_axis.y, f.x_axis.z]);
    assert(m.subrange(4, 7) =~= seq![f.y_axis.x, f.y_axis.y, f.y_axis.z]);
    assert(m.subrange(8, 11) =~= seq![f.z_axis.x, f.z_axis.y, f.z_axis.z]);
    assert(m.subrange(12, 15) =~= seq![f.w_axis.x, f.w_axis.y, f.w_axis.z]);
}

/// Twelve numbers made into a frame come out of it again: in the written
/// order unchanged, and as components with the sign of the third flipped
/// and nothing else changed.
pub proof fn lemma_components_round_trip(c: Seq<Scalar>)
    requires
        c.len() == 12,
    ensures
        CFrame::of_components(c).raw_components() == c,
        CFrame::of_components(c).components() == c.update(2, c[2].negated()),
{
    assert(CFrame::of_components(c).raw_components() =~= c);
}

/// A frame is the frame of its own twelve numbers, and of its components
/// once the sign of the third is flipped back.
pub proof fn lemma_frame_of_its_components(f: CFrame)
    ensures
        CFrame::of_components(f.raw_components()) == f,
        CFrame::of_components(f.components().update(2, f.components()[2].negated())) == f,
{
    lemma_neg_involution(f.w_axis.z);
}

/// Equality of frames is symmetric and transitive, and a frame equals
/// itself exactly when none of its numbers is a NaN.
pub proof fn lemma_frame_same_number_laws(a: CFrame, b: CFrame, c: CFrame)
    ensures
        a.same_number(a) == !a.has_nan(),
        a.same_number(b) == b.same_number(a),
        a.same_number(b) && b.same_number(c) ==> a.same_number(c),
{
    lemma_vector_same_number_laws(a.x_axis, b.x_axis, c.x_axis);
    lemma_vector_same_number_laws(a.y_axis, b.y_axis, c.y_axis);
    lemma_vector_same_number_laws(a.z_axis, b.z_axis, c.z_axis);
    lemma_vector_same_number_laws(a.w_axis, b.w_axis, c.w_axis);
}

/// A frame's rotation has the frame's axes and sits at the origin; taking
/// it twice changes nothing more, and the identity is its own rotation.
pub proof fn lemma_rotation_part(f: CFrame)
    ensures
        f.rotation_part().x_axis == f.x_axis,
        f.rotation_part().y_axis == f.y_axis,
        f.rotation_part().z_axis == f.z_axis,
        f.rotation_part().w_axis == Vector3::of_bits(0, 0, 0),
        f.rotation_part().rotation_part() == f.rotation_part(),
        CFrame::identity_frame().rotation_part() == CFrame::identity_frame(),
        CFrame::translation_frame(f.w_axis).rotation_part() == CFrame::identity_frame(),
{
}

} // verus!
