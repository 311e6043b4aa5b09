//! Rigid and affine 3D coordinate frames over IEEE-754 binary32 bit patterns.
//!
//! A [`CFrame`] is a 3x3 linear part (three basis axes) and a translation,
//! that is the upper three rows of a homogeneous 4x4 matrix whose last row is
//! fixed at `(0, 0, 0, 1)`. Every number is carried as the bit pattern of a
//! single-precision value, so that the layout of a frame, the sign flips its
//! conventions ask for, its equality and the resolution of constructor
//! arguments are exact and proved. Arithmetic on the numbers themselves is
//! left to the caller.

pub mod scalar;
pub mod vector3;
pub mod cframe;
pub mod construct;
pub mod dom;
pub mod text;

pub use crate::cframe::CFrame;
pub use crate::construct::{resolve, Arg, Construction, EulerOrder, InvalidArguments};
pub use crate::dom::{DomCFrame, DomMatrix3};
pub use crate::scalar::Scalar;
pub use crate::text::join_components;
pub use crate::vector3::Vector3;
