//! Points and directions in the plane of a slice and in space.

use vstd::prelude::*;
use crate::scalar::Scalar;

verus! {

/// A pair of numbers: the distance between sample centres along the two
/// in-plane axes.
#[derive(Clone, Copy, Debug, PartialEq, Eq, Structural)]
pub struct Vec2 {
    pub x: Scalar,
    pub y: Scalar,
}

/// A point or a direction in space.
#[derive(Clone, Copy, Debug, PartialEq, Eq, Structural)]
pub struct Vec3 {
    pub x: Scalar,
    pub y: Scalar,
    pub z: Scalar,
}

impl Vec3 {
    /// The two are the same point: equal as numbers in every component.
    pub open spec fn same_point(self, other: Vec3) -> bool {
        &&& self.x.same_number(other.x)
        &&& self.y.same_number(other.y)
        &&& self.z.same_number(other.z)
    }

    /// Every component is a number other than an infinity.
    pub open spec fn is_finite(self) -> bool {
        self.x.is_finite() && self.y.is_finite() && self.z.is_finite()
    }

    pub fn equals_point(self, other: Vec3) -> (b: bool)
        ensures
            b == self.same_point(other),
    {
        self.x.equals_number(other.x) && self.y.equals_number(other.y) && self.z.equals_number(
            other.z,
        )
    }

    pub fn finite(self) -> (b: bool)
        ensures
            b == self.is_finite(),
    {
        self.x.finite() && self.y.finite() && self.z.finite()
    }
}

} // verus!
