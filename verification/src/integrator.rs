//! The light-transport recursion, one decision at a time.
//!
//! The radiance along a ray is the background term where the ray leaves the
//! scene, black where the path ends at a surface, and otherwise the radiance
//! along the scattered ray, multiplied component by component with what the
//! surface lets through. The caller carries the product and follows the
//! rays; what happens at each vertex is decided here.

use vstd::prelude::*;
use crate::material::Bounce;
use crate::material::Material;
use crate::material::MaterialKind;
use crate::material::Scatter;
use crate::object::Hit;
use crate::ray::Ray;
use crate::vector::Vector;
use crate::world::World;

verus! {

/// What one vertex of a path contributes.
#[derive(Clone, Copy, Debug, PartialEq, Eq, Structural)]
pub enum PathStep {
    /// The ray left the scene: the radiance is the background term of the
    /// ray's direction.
    Background,
    /// The path ended at a surface: the radiance is zero, at full opacity.
    Black,
    /// The radiance is that along `next_ray`, multiplied component by
    /// component with `attenuation`.
    Attenuate { attenuation: Vector, next_ray: Ray },
}

/// What the surface at `hit` does to the path.
pub open spec fn scatter_at(world: World, ray: Ray, hit: Hit, bounce: Bounce) -> Scatter {
    world.materials@[hit.material as int].scattered(ray, hit, bounce)
}

/// The contribution of the vertex that `ray` reaches after `depth` earlier
/// bounces, where a path may bounce `limit` times at most.
pub open spec fn step_of(
    world: World,
    ray: Ray,
    seen: Option<(Hit, Bounce)>,
    depth: int,
    limit: int,
) -> PathStep {
    match seen {
        None => PathStep::Background,
        Some((hit, bounce)) => {
            let scatter = scatter_at(world, ray, hit, bounce);
            if scatter.absorbed() || depth >= limit {
                PathStep::Black
            } else {
                PathStep::Attenuate {
                    attenuation: scatter.attenuation,
                    next_ray: scatter.next_ray,
                }
            }
        },
    }
}

/// The material of the surface at `hit`, and the scatter it makes of the
/// ray.
pub fn shade(world: &World, ray: Ray, hit: Hit, bounce: Bounce) -> (r: (MaterialKind, Scatter))
    requires
        hit.material < world.materials@.len(),
    ensures
        r.0 == world.materials@[hit.material as int],
        r.1 == scatter_at(*world, ray, hit, bounce),
{
    let material = world.material(hit.material);
    let scatter = material.scatter(ray, hit, bounce);
    (material, scatter)
}

/// Decides one vertex of a path. `seen` is the nearest hit of `ray` with the
/// bounce drawn for it, or `None` where the ray hits nothing; `depth` counts
/// the bounces the path has made so far.
///
/// The path goes on only from a surface that lets something through, and
/// only while it has bounces left, so no path bounces more than `limit`
/// times.
pub fn ray_color(
    ray: Ray,
    world: &World,
    seen: Option<(Hit, Bounce)>,
    depth: usize,
    limit: usize,
) -> (step: PathStep)
    requires
        seen matches Some((hit, _)) ==> hit.material < world.materials@.len(),
    ensures
        step == step_of(*world, ray, seen, depth as int, limit as int),
        step is Background <==> seen is None,
        step is Attenuate ==> depth < limit,
        step matches PathStep::Attenuate { attenuation, .. } ==> !attenuation.zero(),
{
    match seen {
        None => PathStep::Background,
        Some((hit, bounce)) => {
            let (_, scatter) = shade(world, ray, hit, bounce);
            if scatter.is_absorbed() || depth >= limit {
                PathStep::Black
            } else {
                PathStep::Attenuate {
                    attenuation: scatter.attenuation,
                    next_ray: scatter.next_ray,
                }
            }
        },
    }
}

} // verus!
