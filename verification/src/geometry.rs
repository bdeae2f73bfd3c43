//! Coordinates and angles.
//!
//! The registry never computes with a coordinate: it stores it and hands it
//! back. A component is therefore kept as the bit pattern of its 32-bit
//! IEEE 754 value, and two components are equal when their bits are.

use vstd::prelude::*;

verus! {

/// One coordinate or one angle, as the bit pattern of a 32-bit IEEE 754 value.
#[derive(Clone, Copy, Debug, PartialEq, Eq, Structural)]
pub struct Scalar {
    pub bits: u32,
}

impl Scalar {
    /// The scalar with the given bit pattern.
    pub fn from_bits(bits: u32) -> (out: Scalar)
        ensures
            out.bits == bits,
    {
        Scalar { bits }
    }

    /// The bit pattern of this scalar.
    pub fn to_bits(self) -> (bits: u32)
        ensures
            bits == self.bits,
    {
        self.bits
    }
}

/// A position, or a rotation in degrees about each axis.
#[derive(Clone, Copy, Debug, PartialEq, Eq, Structural)]
pub struct Vector3 {
    pub x: Scalar,
    pub y: Scalar,
    pub z: Scalar,
}

impl Vector3 {
    /// The vector with the given components, for use in contracts.
    pub open spec fn spec_new(x: Scalar, y: Scalar, z: Scalar) -> Vector3 {
        Vector3 { x, y, z }
    }

    /// The vector with the given components.
    #[verifier::when_used_as_spec(spec_new)]
    pub fn new(x: Scalar, y: Scalar, z: Scalar) -> (out: Vector3)
        ensures
            out == Vector3::spec_new(x, y, z),
    {
        Vector3 { x, y, z }
    }
}

} // verus!
