//! Plain carriers for 32-bit float values.
//!
//! Every scalar of the rendering pipeline is held as the IEEE 754 bit
//! pattern of a 32-bit float, so the surrounding bookkeeping can be stated
//! and verified over plain integers. The named constants below are the bit
//! patterns of the handful of literal float values the pipeline needs.

use vstd::prelude::*;

verus! {

/// Bit pattern of the float value 0.0.
pub const ZERO_BITS: u32 = 0x0000_0000;

/// Bit pattern of the float value 1.0.
pub const ONE_BITS: u32 = 0x3F80_0000;

/// Bit pattern of the float value -1.0.
pub const NEG_ONE_BITS: u32 = 0xBF80_0000;

/// The all-zero three-component vector, as bit patterns.
pub open spec fn zero3() -> V3 {
    V3 { x: ZERO_BITS, y: ZERO_BITS, z: ZERO_BITS }
}

/// The all-zero two-component vector, as bit patterns.
pub open spec fn zero2() -> V2 {
    V2 { x: ZERO_BITS, y: ZERO_BITS }
}

/// A three-component float vector, each component held as its bit pattern.
#[derive(Clone, Copy, Debug, PartialEq, Eq, Structural)]
pub struct V3 {
    pub x: u32,
    pub y: u32,
    pub z: u32,
}

/// A two-component float vector, each component held as its bit pattern.
#[derive(Clone, Copy, Debug, PartialEq, Eq, Structural)]
pub struct V2 {
    pub x: u32,
    pub y: u32,
}

/// A four-component float vector, each component held as its bit pattern.
#[derive(Clone, Copy, Debug, PartialEq, Eq, Structural)]
pub struct V4 {
    pub x: u32,
    pub y: u32,
    pub z: u32,
    pub w: u32,
}

impl V3 {
    /// The zero vector (0, 0, 0).
    pub fn zero() -> (r: V3)
        ensures
            r == (V3 { x: ZERO_BITS, y: ZERO_BITS, z: ZERO_BITS }),
    {
        V3 { x: ZERO_BITS, y: ZERO_BITS, z: ZERO_BITS }
    }

    /// The unit vector along +X: (1, 0, 0).
    pub fn unit_x() -> (r: V3)
        ensures
            r == (V3 { x: ONE_BITS, y: ZERO_BITS, z: ZERO_BITS }),
    {
        V3 { x: ONE_BITS, y: ZERO_BITS, z: ZERO_BITS }
    }

    /// The unit vector along +Y: (0, 1, 0).
    pub fn unit_y() -> (r: V3)
        ensures
            r == (V3 { x: ZERO_BITS, y: ONE_BITS, z: ZERO_BITS }),
    {
        V3 { x: ZERO_BITS, y: ONE_BITS, z: ZERO_BITS }
    }

    /// The unit vector along +Z: (0, 0, 1).
    pub fn unit_z() -> (r: V3)
        ensures
            r == (V3 { x: ZERO_BITS, y: ZERO_BITS, z: ONE_BITS }),
    {
        V3 { x: ZERO_BITS, y: ZERO_BITS, z: ONE_BITS }
    }

    /// The all-ones vector (1, 1, 1), the default opaque-white vertex color.
    pub fn ones() -> (r: V3)
        ensures
            r == (V3 { x: ONE_BITS, y: ONE_BITS, z: ONE_BITS }),
    {
        V3 { x: ONE_BITS, y: ONE_BITS, z: ONE_BITS }
    }
}

impl V2 {
    /// The zero vector (0, 0).
    pub fn zero() -> (r: V2)
        ensures
            r == (V2 { x: ZERO_BITS, y: ZERO_BITS }),
    {
        V2 { x: ZERO_BITS, y: ZERO_BITS }
    }
}

} // verus!
