//! Rays: an origin and a direction.

use vstd::prelude::*;
use crate::vector::Vector;

verus! {

/// A half-line through the scene. The caller normalises the direction before
/// it builds a ray; nothing here changes either field afterwards.
#[derive(Clone, Copy, Debug, PartialEq, Eq, Structural)]
pub struct Ray {
    pub origin: Vector,
    pub direction: Vector,
}

impl Ray {
    /// The ray that stands for "no ray": zero origin, zero direction.
    pub open spec fn resting() -> Ray {
        Ray { origin: Vector::origin(), direction: Vector::origin() }
    }
}

impl Default for Ray {
    fn default() -> (r: Ray)
        ensures
            r == Ray::resting(),
    {
        Ray { origin: Vector::zero_value(), direction: Vector::zero_value() }
    }
}

} // verus!
