//! The stored form of a frame: a position and an orientation matrix.

use vstd::prelude::*;
use vstd::std_specs::convert::FromSpecImpl;
use crate::cframe::CFrame;
use crate::vector3::Vector3;

verus! {

/// A stored orientation: three vectors, one for each axis of a frame.
#[derive(Clone, Copy, Debug)]
pub struct DomMatrix3 {
    pub x: Vector3,
    pub y: Vector3,
    pub z: Vector3,
}

/// A stored frame: its position and its orientation.
#[derive(Clone, Copy, Debug)]
pub struct DomCFrame {
    pub position: Vector3,
    pub orientation: DomMatrix3,
}

impl DomCFrame {
    /// The stored form of a frame: each field as it is.
    pub open spec fn of_frame(f: CFrame) -> DomCFrame {
        DomCFrame {
            position: f.w_axis,
            orientation: DomMatrix3 { x: f.x_axis, y: f.y_axis, z: f.z_axis },
        }
    }

    /// The frame of a stored frame: each field as stored.
    pub open spec fn frame(self) -> CFrame {
        CFrame {
            x_axis: self.orientation.x,
            y_axis: self.orientation.y,
            z_axis: self.orientation.z,
            w_axis: self.position,
        }
    }
}

impl From<DomCFrame> for CFrame {
    /// The frame of a stored frame: each field as stored, nothing normalised.
    fn from(v: DomCFrame) -> (r: CFrame) {
        CFrame {
            x_axis: v.orientation.x,
            y_axis: v.orientation.y,
            z_axis: v.orientation.z,
            w_axis: v.position,
        }
    }
}

impl FromSpecImpl<DomCFrame> for CFrame {
    open spec fn obeys_from_spec() -> bool {
        true
    }

    open spec fn from_spec(v: DomCFrame) -> CFrame {
        v.frame()
    }
}

impl From<CFrame> for DomCFrame {
    /// The stored form of a frame: each field as it is, nothing normalised.
    fn from(v: CFrame) -> (r: DomCFrame) {
        DomCFrame {
            position: v.w_axis,
            orientation: DomMatrix3 { x: v.x_axis, y: v.y_axis, z: v.z_axis },
        }
    }
}

impl FromSpecImpl<CFrame> for DomCFrame {
    open spec fn obeys_from_spec() -> bool {
        true
    }

    open spec fn from_spec(v: CFrame) -> DomCFrame {
        DomCFrame::of_frame(v)
    }
}

/// Storing a frame and reading it back, or reading a stored frame and
/// storing it again, changes no bit.
pub proof fn lemma_stored_round_trip(f: CFrame, d: DomCFrame)
    ensures
        DomCFrame::of_frame(f).frame() == f,
        DomCFrame::of_frame(d.frame()) == d,
{
}

} // verus!
