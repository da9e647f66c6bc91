//! Pose primitives. Every single-precision value is carried as its IEEE-754
//! bit pattern, so that copying a value is exact and comparable.
use vstd::prelude::*;

verus! {

/// Bit pattern of the single-precision value `1.0`.
pub const ONE_BITS: u32 = 0x3f80_0000;

/// Number of tracked bones in a hand skeleton.
pub const BONE_COUNT: usize = 19;

/// A rotation quaternion, each component as single-precision bits.
#[derive(Clone, Copy, Debug, PartialEq, Eq, Structural)]
pub struct Quat {
    pub x: u32,
    pub y: u32,
    pub z: u32,
    pub w: u32,
}

/// A 3D vector (meters, or meters per second), each component as bits.
#[derive(Clone, Copy, Debug, PartialEq, Eq, Structural)]
pub struct Vec3 {
    pub x: u32,
    pub y: u32,
    pub z: u32,
}

/// A 2D vector, each component as bits.
#[derive(Clone, Copy, Debug, PartialEq, Eq, Structural)]
pub struct Vec2 {
    pub x: u32,
    pub y: u32,
}

/// A field of view as four signed angles, each as bits.
#[derive(Clone, Copy, Debug, PartialEq, Eq, Structural)]
pub struct Fov {
    pub left: u32,
    pub right: u32,
    pub top: u32,
    pub bottom: u32,
}

impl Quat {
    /// The identity rotation `(0, 0, 0, 1)`.
    pub fn identity() -> (r: Quat)
        ensures
            r == (Quat { x: 0, y: 0, z: 0, w: ONE_BITS }),
    {
        Quat { x: 0, y: 0, z: 0, w: ONE_BITS }
    }
}

impl Vec3 {
    /// The zero vector.
    pub fn zero() -> (r: Vec3)
        ensures
            r == (Vec3 { x: 0, y: 0, z: 0 }),
    {
        Vec3 { x: 0, y: 0, z: 0 }
    }
}

} // verus!
