//! Vectors of single-precision scalars, each carried by its bit pattern.

use vstd::prelude::*;

verus! {

/// Bit pattern of the scalar 1.
pub const ONE: u32 = 0x3F80_0000;

/// A vector of three scalars.
#[derive(Clone, Copy, Debug, PartialEq, Eq, Structural)]
pub struct FVec3 {
    pub x: u32,
    pub y: u32,
    pub z: u32,
}

/// A vector of four scalars.
#[derive(Clone, Copy, Debug, PartialEq, Eq, Structural)]
pub struct FVec4 {
    pub x: u32,
    pub y: u32,
    pub z: u32,
    pub w: u32,
}

impl FVec3 {
    /// The vector with the given components.
    pub fn new(x: u32, y: u32, z: u32) -> (v: Self)
        ensures
            v == (FVec3 { x, y, z }),
    {
        FVec3 { x, y, z }
    }

    /// The point that this vector names in homogeneous coordinates: the same
    /// three components, and 1 as the fourth.
    pub open spec fn homogeneous(self) -> FVec4 {
        FVec4 { x: self.x, y: self.y, z: self.z, w: ONE }
    }
}

impl FVec4 {
    /// The vector with the given components.
    pub fn new(x: u32, y: u32, z: u32, w: u32) -> (v: Self)
        ensures
            v == (FVec4 { x, y, z, w }),
    {
        FVec4 { x, y, z, w }
    }
}

} // verus!
