//! Materials and what they do to a path.

use vstd::prelude::*;
use crate::object::Hit;
use crate::ray::Ray;
use crate::scalar::Scalar;
use vstd::arithmetic::power2::lemma_pow2_unfold;
use vstd::arithmetic::power2::pow2;
use crate::scalar::FRACTION_SPAN;
use crate::scalar::ONE_BITS;
use crate::vector::Vector;

verus! {

/// Pattern of the survival probability of a path at a diffuse surface, 63/64.
pub const SURVIVAL_BITS: u32 = 0x3F7C_0000;

/// The outcome of a material interaction: a colour multiplier and the ray
/// along which the path goes on. A zero multiplier ends the path.
#[derive(Clone, Copy, Debug, PartialEq, Eq, Structural)]
pub struct Scatter {
    pub attenuation: Vector,
    pub next_ray: Ray,
}

/// A diffuse surface of the given colour.
#[derive(Clone, Copy, Debug, PartialEq, Eq, Structural)]
pub struct Lambert {
    pub albedo: Vector,
}

/// The closed set of materials.
#[derive(Clone, Copy, Debug, PartialEq, Eq, Structural)]
pub enum MaterialKind {
    Lambert(Lambert),
}

/// What chance and arithmetic supply to one scattering event: a uniform
/// sample, the normalised direction of the scattered ray, and the surface
/// colour divided by the survival probability.
#[derive(Clone, Copy, Debug, PartialEq, Eq, Structural)]
pub struct Bounce {
    pub sample: Scalar,
    pub direction: Vector,
    pub attenuation: Vector,
}

impl Scatter {
    /// The scatter of a path that ends: zero multiplier, resting ray.
    pub open spec fn ended() -> Scatter {
        Scatter { attenuation: Vector::origin(), next_ray: Ray::resting() }
    }

    /// Whether the path ends here.
    pub open spec fn absorbed(self) -> bool {
        self.attenuation.zero()
    }

    pub fn is_absorbed(&self) -> (r: bool)
        ensures
            r == self.absorbed(),
    {
        self.attenuation.is_zero()
    }
}

impl Default for Scatter {
    fn default() -> (s: Scatter)
        ensures
            s == Scatter::ended(),
            s.absorbed(),
    {
        Scatter { attenuation: Vector::zero_value(), next_ray: Ray::default() }
    }
}

/// The survival constant encodes 63/64 exactly: sixty-four times its number
/// is sixty-three times the number one.
pub proof fn lemma_survival_is_63_in_64()
    ensures
        64 * (Scalar { bits: SURVIVAL_BITS }).value() == 63 * (Scalar { bits: ONE_BITS }).value(),
{
    let span = FRACTION_SPAN as int;
    assert(SURVIVAL_BITS as int / span == 126 && SURVIVAL_BITS as int % span == 0x7C_0000);
    assert(ONE_BITS as int / span == 127 && ONE_BITS as int % span == 0);
    lemma_pow2_unfold(126);
    let p = pow2(125) as int;
    assert(64 * ((span + 0x7C_0000) * p) == 63 * (span * (2 * p))) by (nonlinear_arith)
        requires
            span == 0x80_0000,
    ;
}

/// Whether a component of a colour lies in the closed interval from zero to
/// one.
pub open spec fn unit_range(s: Scalar) -> bool {
    !s.nan() && 0 <= s.key() <= ONE_BITS
}

fn in_unit_range(s: Scalar) -> (r: bool)
    ensures
        r == unit_range(s),
{
    s.is_zero() || (s.is_positive() && s.to_bits() <= ONE_BITS)
}

/// The capability every material has: to scatter a ray at a hit.
pub trait Material {
    /// The scatter that `scatter` returns.
    spec fn scattered(&self, ray: Ray, hit: Hit, bounce: Bounce) -> Scatter;

    fn scatter(&self, ray: Ray, hit: Hit, bounce: Bounce) -> (s: Scatter)
        ensures
            s == self.scattered(ray, hit, bounce),
    ;
}

impl Lambert {
    /// Every component of the colour lies between zero and one.
    pub open spec fn wf(self) -> bool {
        unit_range(self.albedo.x) && unit_range(self.albedo.y) && unit_range(self.albedo.z)
    }

    /// Russian roulette: the path survives unless the sample exceeds the
    /// survival probability.
    pub open spec fn survives(sample: Scalar) -> bool {
        !sample.greater(Scalar { bits: SURVIVAL_BITS })
    }

    /// Decides the roulette for one sample.
    pub fn is_survivor(sample: Scalar) -> (r: bool)
        ensures
            r == Lambert::survives(sample),
    {
        !sample.gt(Scalar::from_bits(SURVIVAL_BITS))
    }

    pub fn is_well_formed(&self) -> (r: bool)
        ensures
            r == self.wf(),
    {
        in_unit_range(self.albedo.x) && in_unit_range(self.albedo.y) && in_unit_range(
            self.albedo.z,
        )
    }
}

impl Material for Lambert {
    open spec fn scattered(&self, ray: Ray, hit: Hit, bounce: Bounce) -> Scatter {
        if Lambert::survives(bounce.sample) {
            Scatter {
                attenuation: bounce.attenuation,
                next_ray: Ray { origin: hit.point, direction: bounce.direction },
            }
        } else {
            Scatter::ended()
        }
    }

    /// Ends the path when the sample exceeds the survival probability.
    /// Otherwise the path leaves the hit point in the direction of the
    /// bounce, and carries the bounce's multiplier.
    fn scatter(&self, ray: Ray, hit: Hit, bounce: Bounce) -> (s: Scatter) {
        if bounce.sample.gt(Scalar::from_bits(SURVIVAL_BITS)) {
            Scatter::default()
        } else {
            Scatter {
                attenuation: bounce.attenuation,
                next_ray: Ray { origin: hit.point, direction: bounce.direction },
            }
        }
    }
}

impl MaterialKind {
    pub open spec fn wf(self) -> bool {
        match self {
            MaterialKind::Lambert(lambert) => lambert.wf(),
        }
    }

    pub fn is_well_formed(&self) -> (r: bool)
        ensures
            r == self.wf(),
    {
        match self {
            MaterialKind::Lambert(lambert) => lambert.is_well_formed(),
        }
    }
}

impl Material for MaterialKind {
    open spec fn scattered(&self, ray: Ray, hit: Hit, bounce: Bounce) -> Scatter {
        match self {
            MaterialKind::Lambert(lambert) => lambert.scattered(ray, hit, bounce),
        }
    }

    fn scatter(&self, ray: Ray, hit: Hit, bounce: Bounce) -> (s: Scatter) {
        match self {
            MaterialKind::Lambert(lambert) => lambert.scatter(ray, hit, bounce),
        }
    }
}

} // verus!
