//! Points, each coordinate a binary32 bit pattern.

use vstd::prelude::*;

verus! {

/// A point by its distances along three orthogonal axes.
#[derive(Clone, Copy, Debug, PartialEq, Eq, Structural)]
pub struct Cartesian {
    pub x: u32,
    pub y: u32,
    pub z: u32,
}

/// A point by its distance from the origin and two angles in radians.
#[derive(Clone, Copy, Debug, PartialEq, Eq, Structural)]
pub struct Spherical {
    /// The radius.
    pub r: u32,
    /// The azimuth: the angle in the x-y plane, from the x axis.
    pub theta: u32,
    /// The polar angle: the angle from the z axis.
    pub phi: u32,
}

} // verus!
