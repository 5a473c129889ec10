//! Triples of scalars: positions, directions and colours.

use vstd::prelude::*;
use crate::scalar::Scalar;
use crate::scalar::ZERO_BITS;

verus! {

/// Three scalars. As a colour the components are red, green and blue.
#[derive(Clone, Copy, Debug, PartialEq, Eq, Structural)]
pub struct Vector {
    pub x: Scalar,
    pub y: Scalar,
    pub z: Scalar,
}

impl Vector {
    /// Whether the vector compares equal to the zero vector: each component
    /// is one of the two zeros.
    pub open spec fn zero(self) -> bool {
        self.x.zero() && self.y.zero() && self.z.zero()
    }

    /// The vector of three positive zeros.
    pub open spec fn origin() -> Vector {
        Vector {
            x: Scalar { bits: ZERO_BITS },
            y: Scalar { bits: ZERO_BITS },
            z: Scalar { bits: ZERO_BITS },
        }
    }

    pub fn new(x: Scalar, y: Scalar, z: Scalar) -> (v: Vector)
        ensures
            v == (Vector { x, y, z }),
    {
        Vector { x, y, z }
    }

    /// Builds a vector from the three bit patterns of its components.
    pub fn from_bits(x: u32, y: u32, z: u32) -> (v: Vector)
        ensures
            v.x.bits == x,
            v.y.bits == y,
            v.z.bits == z,
    {
        Vector { x: Scalar { bits: x }, y: Scalar { bits: y }, z: Scalar { bits: z } }
    }

    /// The zero vector.
    pub fn zero_value() -> (v: Vector)
        ensures
            v == Vector::origin(),
            v.zero(),
    {
        Vector {
            x: Scalar { bits: ZERO_BITS },
            y: Scalar { bits: ZERO_BITS },
            z: Scalar { bits: ZERO_BITS },
        }
    }

    pub fn is_zero(self) -> (r: bool)
        ensures
            r == self.zero(),
    {
        self.x.is_zero() && self.y.is_zero() && self.z.is_zero()
    }
}

} // verus!
