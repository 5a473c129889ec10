//! Spheres and the record of a ray meeting one.

use vstd::prelude::*;
use crate::scalar::Scalar;
use crate::scalar::ZERO_BITS;
use crate::vector::Vector;

verus! {

/// Pattern of the smallest discriminant that still counts as a crossing,
/// one ten-thousandth. Anything at or below it is a miss: a tangent ray, no
/// crossing at all, or the numerical echo of the bounce the ray started from.
pub const DISCRIMINANT_EPSILON_BITS: u32 = 0x38D1_B717;

/// Where and how a ray meets a surface.
#[derive(Clone, Copy, Debug, PartialEq, Eq, Structural)]
pub struct Hit {
    pub point: Vector,
    pub normal: Vector,
    pub distance: Scalar,
    pub material: usize,
}

/// A sphere, with the index of its material in the scene that owns it.
#[derive(Clone, Copy, Debug, PartialEq, Eq, Structural)]
pub struct Sphere {
    pub center: Vector,
    pub radius: Scalar,
    pub material: usize,
}

/// What the arithmetic of one ray against one sphere gave: the discriminant
/// of the quadratic in the ray parameter, its smaller root, the point of the
/// ray at that root and the unit normal of the sphere there.
#[derive(Clone, Copy, Debug, PartialEq, Eq, Structural)]
pub struct Intersection {
    pub discriminant: Scalar,
    pub distance: Scalar,
    pub point: Vector,
    pub normal: Vector,
}

impl Intersection {
    /// Whether the numbers describe a crossing in front of the ray's origin:
    /// the discriminant exceeds the epsilon and the root exceeds zero.
    pub open spec fn crosses(self) -> bool {
        &&& self.discriminant.greater(Scalar { bits: DISCRIMINANT_EPSILON_BITS })
        &&& self.distance.greater(Scalar { bits: ZERO_BITS })
    }
}

impl Hit {
    /// The distance is a number strictly greater than zero.
    pub open spec fn wf(self) -> bool {
        self.distance.positive()
    }
}

impl Sphere {
    /// The radius is a number strictly greater than zero.
    pub open spec fn wf(self) -> bool {
        self.radius.positive()
    }

    /// The hit that `probe` amounts to on this sphere, if it is one.
    pub open spec fn hit_of(self, probe: Intersection) -> Option<Hit> {
        if probe.crosses() {
            Some(
                Hit {
                    point: probe.point,
                    normal: probe.normal,
                    distance: probe.distance,
                    material: self.material,
                },
            )
        } else {
            None
        }
    }

    pub fn new(center: Vector, radius: Scalar, material: usize) -> (s: Sphere)
        ensures
            s == (Sphere { center, radius, material }),
    {
        Sphere { center, radius, material }
    }

    /// Whether the radius is a number strictly greater than zero.
    pub fn is_well_formed(&self) -> (r: bool)
        ensures
            r == self.wf(),
    {
        self.radius.is_positive()
    }

    /// Decides whether the ray that `probe` was computed for hits the sphere,
    /// and records the hit. A hit always lies strictly in front of the ray's
    /// origin and carries the sphere's material.
    pub fn hit(&self, probe: Intersection) -> (r: Option<Hit>)
        ensures
            r == self.hit_of(probe),
            r is Some <==> probe.crosses(),
            r matches Some(h) ==> h.wf() && h.material == self.material,
    {
        if probe.discriminant.gt(Scalar::from_bits(DISCRIMINANT_EPSILON_BITS)) {
            if probe.distance.gt(Scalar::from_bits(ZERO_BITS)) {
                Some(
                    Hit {
                        point: probe.point,
                        normal: probe.normal,
                        distance: probe.distance,
                        material: self.material,
                    },
                )
            } else {
                None
            }
        } else {
            None
        }
    }
}

} // verus!
