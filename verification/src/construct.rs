//! Resolving constructor arguments to a frame, or to the arithmetic that is
//! still to be done for one.

use vstd::prelude::*;
use crate::cframe::CFrame;
use crate::scalar::{Scalar, ONE_BITS};
use crate::vector3::Vector3;

verus! {

/// One argument handed to the dynamic constructor, by its type.
#[derive(Clone, Copy, Debug)]
pub enum Arg {
    /// A number.
    Number(Scalar),
    /// A three-component vector.
    Vector(Vector3),
    /// An explicit absent value.
    Nil,
    /// A value of any other type.
    Other,
}

/// What a constructor call comes to: a finished frame, or the inputs of the
/// arithmetic that gives one.
#[derive(Clone, Copy, Debug)]
pub enum Construction {
    /// The frame itself; nothing is left to compute.
    Frame(CFrame),
    /// A frame at `from` whose back axis points from `from` towards `to`:
    /// with `dir = normalize(to - from)`, its right axis is
    /// `normalize(cross(up, dir))`, its up axis `normalize(cross(dir, right))`
    /// and its back axis `dir`.
    LookAt { from: Vector3, to: Vector3, up: Vector3 },
    /// A frame at `position` whose linear part is the rotation of the
    /// quaternion `(qx, qy, qz, qw)`.
    Quaternion { position: Vector3, qx: Scalar, qy: Scalar, qz: Scalar, qw: Scalar },
    /// A frame at `position` with the given right and up axes, whose back
    /// axis is `normalize(cross(right, up))`.
    CompleteBasis { position: Vector3, right: Vector3, up: Vector3 },
}

/// The error of a constructor call whose arguments have none of the accepted shapes.
#[derive(Clone, Copy, Debug, PartialEq, Eq)]
pub struct InvalidArguments;

/// The order in which three Euler angles are applied.
#[derive(Clone, Copy, Debug, PartialEq, Eq)]
pub enum EulerOrder {
    /// About X, then Y, then Z.
    Xyz,
    /// About Y, then X, then Z.
    Yxz,
}

/// Every argument is a number.
pub open spec fn all_numbers(args: Seq<Arg>) -> bool {
    forall|i: int| 0 <= i < args.len() ==> (#[trigger] args[i]) is Number
}

/// The number at place `i`, for an argument that is one.
pub open spec fn number_at(args: Seq<Arg>, i: int) -> Scalar {
    args[i]->Number_0
}

/// No argument at all.
pub open spec fn shape_empty(args: Seq<Arg>) -> bool {
    args.len() == 0
}

/// One vector.
pub open spec fn shape_position(args: Seq<Arg>) -> bool {
    args.len() == 1 && args[0] is Vector
}

/// Two vectors, and after them nothing, an absent value or a third vector.
pub open spec fn shape_look_at(args: Seq<Arg>) -> bool {
    &&& args.len() == 2 || args.len() == 3
    &&& args[0] is Vector
    &&& args[1] is Vector
    &&& args.len() == 3 ==> args[2] is Vector || args[2] is Nil
}

/// Three numbers.
pub open spec fn shape_xyz(args: Seq<Arg>) -> bool {
    args.len() == 3 && all_numbers(args)
}

/// Seven numbers.
pub open spec fn shape_quaternion(args: Seq<Arg>) -> bool {
    args.len() == 7 && all_numbers(args)
}

/// Twelve numbers.
pub open spec fn shape_matrix(args: Seq<Arg>) -> bool {
    args.len() == 12 && all_numbers(args)
}

/// The up direction of a look-at construction: the one given, else `(0, 1, 0)`.
pub open spec fn up_or_default(up: Option<Vector3>) -> Vector3 {
    match up {
        Some(v) => v,
        None => Vector3::of_bits(0, ONE_BITS, 0),
    }
}

/// The vector of the three numbers from place `i` on.
pub open spec fn vector_at(args: Seq<Arg>, i: int) -> Vector3 {
    Vector3 { x: number_at(args, i), y: number_at(args, i + 1), z: number_at(args, i + 2) }
}

/// What the dynamic constructor makes of its arguments: the shapes are tried
/// in this order and the first that fits decides; `None` where none fits.
pub open spec fn resolution(args: Seq<Arg>) -> Option<Construction> {
    if shape_empty(args) {
        Some(Construction::Frame(CFrame::identity_frame()))
    } else if shape_position(args) {
        Some(Construction::Frame(CFrame::translation_frame(args[0]->Vector_0)))
    } else if shape_look_at(args) {
        Some(
            Construction::LookAt {
                from: args[0]->Vector_0,
                to: args[1]->Vector_0,
                up: up_or_default(
                    if args.len() == 3 && args[2] is Vector {
                        Some(args[2]->Vector_0)
                    } else {
                        None
                    },
                ),
            },
        )
    } else if shape_xyz(args) {
        Some(Construction::Frame(CFrame::translation_frame(vector_at(args, 0))))
    } else if shape_quaternion(args) {
        Some(
            Construction::Quaternion {
                position: vector_at(args, 0),
                qx: number_at(args, 3),
                qy: number_at(args, 4),
                qz: number_at(args, 5),
                qw: number_at(args, 6),
            },
        )
    } else if shape_matrix(args) {
        Some(
            Construction::Frame(
                CFrame {
                    w_axis: vector_at(args, 0),
                    x_axis: vector_at(args, 3),
                    y_axis: vector_at(args, 6),
                    z_axis: vector_at(args, 9),
                },
            ),
        )
    } else {
        None
    }
}

impl Arg {
    /// The vector of a vector argument.
    pub fn as_vector(&self) -> (r: Option<Vector3>)
        ensures
            r == (if *self is Vector { Some(self->Vector_0) } else { None::<Vector3> }),
    {
        match self {
            Arg::Vector(v) => Some(*v),
            _ => None,
        }
    }

    /// The number of a number argument.
    pub fn as_number(&self) -> (r: Option<Scalar>)
        ensures
            r == (if *self is Number { Some(self->Number_0) } else { None::<Scalar> }),
    {
        match self {
            Arg::Number(n) => Some(*n),
            _ => None,
        }
    }
}

/// The numbers of a list of arguments, if every one of them is a number.
pub fn numbers(args: &[Arg]) -> (r: Option<Vec<Scalar>>)
    ensures
        r is Some == all_numbers(args@),
        r is Some ==> r->Some_0@.len() == args@.len(),
        r is Some ==> forall|i: int| 0 <= i < args@.len() ==> r->Some_0@[i] == number_at(args@, i),
{
    let mut out: Vec<Scalar> = Vec::new();
    let mut i: usize = 0;
    while i < args.len()
        invariant
            i <= args@.len(),
            out@.len() == i,
            forall|j: int| 0 <= j < i ==> (#[trigger] args@[j]) is Number,
            forall|j: int| 0 <= j < i ==> out@[j] == number_at(args@, j),
        decreases args@.len() - i,
    {
        match args[i].as_number() {
            Some(n) => {
                out.push(n);
            },
            None => {
                assert(!(args@[i as int] is Number));
                return None;
            },
        }
        i += 1;
    }
    Some(out)
}

/// The up direction of a look-at construction: the one given, else `(0, 1, 0)`.
pub fn look_at_up(up: Option<Vector3>) -> (r: Vector3)
    ensures
        r == up_or_default(up),
{
    match up {
        Some(v) => v,
        None => Vector3::unit_y(),
    }
}

impl Construction {
    /// The construction of a frame that looks from `from` towards `to`,
    /// with `(0, 1, 0)` for the up direction where none is given.
    pub fn look_at(from: Vector3, to: Vector3, up: Option<Vector3>) -> (r: Construction)
        ensures
            r == (Construction::LookAt { from, to, up: up_or_default(up) }),
    {
        Construction::LookAt { from, to, up: look_at_up(up) }
    }

    /// The construction of a frame from a position and its axes. With a
    /// back axis the frame is finished and holds the three axes as given;
    /// without one, the back axis is still to be computed from the other two.
    pub fn from_matrix(position: Vector3, right: Vector3, up: Vector3, back: Option<Vector3>) -> (r:
        Construction)
        ensures
            r == (match back {
                Some(b) => Construction::Frame(
                    CFrame { x_axis: right, y_axis: up, z_axis: b, w_axis: position },
                ),
                None => Construction::CompleteBasis { position, right, up },
            }),
    {
        match back {
            Some(b) => Construction::Frame(CFrame::from_matrix(position, right, up, b)),
            None => Construction::CompleteBasis { position, right, up },
        }
    }

    /// The frame, where the construction is finished.
    pub fn frame(&self) -> (r: Option<CFrame>)
        ensures
            r == (if *self is Frame { Some(self->Frame_0) } else { None::<CFrame> }),
    {
        match self {
            Construction::Frame(f) => Some(*f),
            _ => None,
        }
    }
}

impl InvalidArguments {
    /// The error's text.
    pub fn message(&self) -> (r: &'static str)
        ensures
            r@ == "Invalid arguments to constructor"@,
    {
        "Invalid arguments to constructor"
    }
}

/// Resolves the arguments of the dynamic constructor by their count and
/// types alone: `Ok` with the construction of the first shape that fits, and
/// the error exactly where none does.
pub fn resolve(args: &[Arg]) -> (r: Result<Construction, InvalidArguments>)
    ensures
        match resolution(args@) {
            Some(c) => r == Ok::<Construction, InvalidArguments>(c),
            None => r is Err,
        },
{
    let n: usize = args.len();
    if n == 0 {
        return Ok(Construction::Frame(CFrame::identity()));
    }
    if let Some(first) = args[0].as_vector() {
        if n == 1 {
            return Ok(Construction::Frame(CFrame::from_translation(first)));
        }
        if let Some(second) = args[1].as_vector() {
            if n == 2 {
                return Ok(Construction::look_at(first, second, None));
            }
            if n == 3 {
                match args[2] {
                    Arg::Vector(up) => {
                        return Ok(Construction::look_at(first, second, Some(up)));
                    },
                    Arg::Nil => {
                        return Ok(Construction::look_at(first, second, None));
                    },
                    _ => {},
                }
            }
        }
        assert(!(args@[0] is Number));
        return Err(InvalidArguments);
    }
    if n != 3 && n != 7 && n != 12 {
        return Err(InvalidArguments);
    }
    match numbers(args) {
        None => Err(InvalidArguments),
        Some(v) => {
            let position = Vector3::new(v[0], v[1], v[2]);
            if n == 3 {
                Ok(Construction::Frame(CFrame::from_translation(position)))
            } else if n == 7 {
                Ok(Construction::Quaternion { position, qx: v[3], qy: v[4], qz: v[5], qw: v[6] })
            } else {
                Ok(
                    Construction::Frame(
                        CFrame::from_matrix(
                            position,
                            Vector3::new(v[3], v[4], v[5]),
                            Vector3::new(v[6], v[7], v[8]),
                            Vector3::new(v[9], v[10], v[11]),
                        ),
                    ),
                )
            }
        },
    }
}

/// The three angles `rx, ry, rz` in the order in which `order` applies them.
pub fn euler_in_order(order: EulerOrder, rx: Scalar, ry: Scalar, rz: Scalar) -> (r: (
    Scalar,
    Scalar,
    Scalar,
))
    ensures
        r == (match order {
            EulerOrder::Xyz => (rx, ry, rz),
            EulerOrder::Yxz => (ry, rx, rz),
        }),
{
    match order {
        EulerOrder::Xyz => (rx, ry, rz),
        EulerOrder::Yxz => (ry, rx, rz),
    }
}

/// The angles `(rx, ry, rz)` of three angles `a, b, c` that stand in the
/// order in which `order` applies them.
pub fn euler_from_order(order: EulerOrder, a: Scalar, b: Scalar, c: Scalar) -> (r: (
    Scalar,
    Scalar,
    Scalar,
))
    ensures
        r == (match order {
            EulerOrder::Xyz => (a, b, c),
            EulerOrder::Yxz => (b, a, c),
        }),
{
    match order {
        EulerOrder::Xyz => (a, b, c),
        EulerOrder::Yxz => (b, a, c),
    }
}

/// The accepted shapes exclude each other, so the order in which they are
/// tried never decides between two that fit.
pub proof fn lemma_shapes_exclusive(args: Seq<Arg>)
    ensures
        shape_empty(args) ==> !shape_position(args) && !shape_look_at(args) && !shape_xyz(args)
            && !shape_quaternion(args) && !shape_matrix(args),
        shape_position(args) ==> !shape_look_at(args) && !shape_xyz(args) && !shape_quaternion(
            args,
        ) && !shape_matrix(args),
        shape_look_at(args) ==> !shape_xyz(args) && !shape_quaternion(args) && !shape_matrix(args),
        shape_xyz(args) ==> !shape_quaternion(args) && !shape_matrix(args),
        shape_quaternion(args) ==> !shape_matrix(args),
{
    if shape_look_at(args) && all_numbers(args) {
        assert(args[0] is Number);
    }
}

/// The arguments are refused exactly where they have none of the six shapes.
pub proof fn lemma_resolution_fails(args: Seq<Arg>)
    ensures
        resolution(args) is None <==> !(shape_empty(args) || shape_position(args) || shape_look_at(
            args,
        ) || shape_xyz(args) || shape_quaternion(args) || shape_matrix(args)),
{
}

/// Twelve numbers resolve to the frame of these twelve numbers.
pub proof fn lemma_resolution_matrix(args: Seq<Arg>)
    requires
        shape_matrix(args),
    ensures
        resolution(args) == Some(
            Construction::Frame(CFrame::of_components(Seq::new(12, |i: int| number_at(args, i)))),
        ),
{
    lemma_shapes_exclusive(args);
}

} // verus!
