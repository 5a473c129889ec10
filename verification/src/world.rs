//! The scene: spheres, the materials they refer to, and the one visibility
//! query, a linear scan for the nearest hit.

use vstd::prelude::*;
use crate::material::Lambert;
use crate::material::MaterialKind;
use crate::object::Hit;
use crate::object::Intersection;
use crate::object::Sphere;
use crate::scalar::Scalar;
use crate::scalar::lemma_order_is_numeric;
use crate::vector::Vector;

verus! {

/// An ordered collection of spheres and an indexed collection of materials.
#[derive(Debug)]
pub struct World {
    pub objects: Vec<Sphere>,
    pub materials: Vec<MaterialKind>,
}

/// Why a scene was refused.
#[derive(Clone, Copy, Debug, PartialEq, Eq, Structural)]
pub enum SceneError {
    /// The sphere at position `object` names material `material`, which the
    /// scene does not have.
    InvalidMaterial { object: usize, material: usize },
}

/// Whether every sphere names one of `count` materials.
pub open spec fn materials_resolve(objects: Seq<Sphere>, count: int) -> bool {
    forall|i: int| 0 <= i < objects.len() ==> (#[trigger] objects[i]).material < count
}

/// The spheres of the demonstration scene: a small one in front of the
/// camera, the ground beneath it, and a small one to either side.
pub open spec fn test_scene_objects() -> Seq<Sphere> {
    seq![
        Sphere {
            center: Vector {
                x: Scalar { bits: 0 },
                y: Scalar { bits: 0 },
                z: Scalar { bits: 0xBF80_0000 },
            },
            radius: Scalar { bits: 0x3F00_0000 },
            material: 0,
        },
        Sphere {
            center: Vector {
                x: Scalar { bits: 0 },
                y: Scalar { bits: 0xC2C9_0000 },
                z: Scalar { bits: 0xBF80_0000 },
            },
            radius: Scalar { bits: 0x42C8_0000 },
            material: 1,
        },
        Sphere {
            center: Vector {
                x: Scalar { bits: 0xBF80_0000 },
                y: Scalar { bits: 0 },
                z: Scalar { bits: 0xBF80_0000 },
            },
            radius: Scalar { bits: 0x3F00_0000 },
            material: 0,
        },
        Sphere {
            center: Vector {
                x: Scalar { bits: 0x3F80_0000 },
                y: Scalar { bits: 0 },
                z: Scalar { bits: 0xBF80_0000 },
            },
            radius: Scalar { bits: 0x3F00_0000 },
            material: 1,
        },
    ]
}

/// The materials of the demonstration scene: a red and a green diffuse
/// surface.
pub open spec fn test_scene_materials() -> Seq<MaterialKind> {
    seq![
        MaterialKind::Lambert(
            Lambert {
                albedo: Vector {
                    x: Scalar { bits: 0x3F4C_CCCD },
                    y: Scalar { bits: 0x3E4C_CCCD },
                    z: Scalar { bits: 0x3E4C_CCCD },
                },
            },
        ),
        MaterialKind::Lambert(
            Lambert {
                albedo: Vector {
                    x: Scalar { bits: 0x3E4C_CCCD },
                    y: Scalar { bits: 0x3F4C_CCCD },
                    z: Scalar { bits: 0x3E4C_CCCD },
                },
            },
        ),
    ]
}

/// The candidate that wins between the best so far and the next one: the
/// next one only if it is strictly nearer.
pub open spec fn nearer(best: Option<Hit>, candidate: Option<Hit>) -> Option<Hit> {
    match (best, candidate) {
        (None, _) => candidate,
        (Some(_), None) => best,
        (Some(b), Some(c)) => if c.distance.less(b.distance) {
            candidate
        } else {
            best
        },
    }
}

/// Position of the nearest hit among the candidates, scanning from the
/// front: a later candidate replaces an earlier one only if it is strictly
/// nearer.
pub open spec fn nearest_index(candidates: Seq<Option<Hit>>) -> Option<int>
    decreases candidates.len(),
{
    if candidates.len() == 0 {
        None
    } else {
        let before = nearest_index(candidates.drop_last());
        let last = candidates.len() - 1;
        match (before, candidates.last()) {
            (_, None) => before,
            (None, Some(_)) => Some(last),
            (Some(b), Some(h)) => if h.distance.less(candidates[b].unwrap().distance) {
                Some(last)
            } else {
                before
            },
        }
    }
}

/// The nearest hit among the candidates, if there is any hit.
pub open spec fn nearest(candidates: Seq<Option<Hit>>) -> Option<Hit> {
    match nearest_index(candidates) {
        Some(i) => candidates[i],
        None => None,
    }
}

/// What each sphere makes of the numbers computed for it.
pub open spec fn hits(objects: Seq<Sphere>, probes: Seq<Intersection>) -> Seq<Option<Hit>> {
    Seq::new(objects.len(), |i: int| objects[i].hit_of(probes[i]))
}

/// The scan finds no hit exactly when there is none. The hit it finds is one
/// of the candidates, and no candidate is nearer.
pub proof fn lemma_nearest_is_minimal(candidates: Seq<Option<Hit>>)
    ensures
        nearest_index(candidates) is None <==> (forall|j: int|
            0 <= j < candidates.len() ==> candidates[j] is None),
        nearest_index(candidates) matches Some(i) ==> {
            &&& 0 <= i < candidates.len()
            &&& candidates[i] is Some
            &&& nearest(candidates) == candidates[i]
            &&& forall|j: int|
                0 <= j < candidates.len() && candidates[j] is Some ==> !(
                #[trigger] candidates[j]).unwrap().distance.less(
                    candidates[i].unwrap().distance,
                )
        },
    decreases candidates.len(),
{
    if candidates.len() > 0 {
        let front = candidates.drop_last();
        lemma_nearest_is_minimal(front);
        assert forall|j: int| 0 <= j < front.len() implies front[j] == candidates[j] by {}
    }
}

/// Where every hit lies strictly in front of its ray, the scan keeps the
/// first of the hits at the least distance: every candidate before the one
/// it finds is strictly farther.
pub proof fn lemma_nearest_is_first_minimum(candidates: Seq<Option<Hit>>)
    requires
        forall|j: int|
            0 <= j < candidates.len() && candidates[j] is Some ==> (
            #[trigger] candidates[j]).unwrap().wf(),
    ensures
        nearest_index(candidates) matches Some(i) ==> forall|j: int|
            0 <= j < i && candidates[j] is Some ==> candidates[i].unwrap().distance.less(
                (#[trigger] candidates[j]).unwrap().distance,
            ),
    decreases candidates.len(),
{
    if candidates.len() > 0 {
        let front = candidates.drop_last();
        assert forall|j: int| 0 <= j < front.len() implies front[j] == candidates[j] by {}
        assert forall|j: int| 0 <= j < front.len() && front[j] is Some implies (
        #[trigger] front[j]).unwrap().wf() by {
            assert(candidates[j] is Some);
        }
        lemma_nearest_is_first_minimum(front);
        lemma_nearest_is_minimal(front);
    }
}

/// Where every hit lies at a finite distance, the hit that the scan finds is
/// at the least distance of all, as a number.
pub proof fn lemma_nearest_is_least_distance(candidates: Seq<Option<Hit>>)
    requires
        forall|j: int|
            0 <= j < candidates.len() && candidates[j] is Some ==> (
            #[trigger] candidates[j]).unwrap().distance.finite(),
    ensures
        nearest(candidates) matches Some(hit) ==> forall|j: int|
            0 <= j < candidates.len() && candidates[j] is Some ==> hit.distance.value() <= (
            #[trigger] candidates[j]).unwrap().distance.value(),
{
    lemma_nearest_is_minimal(candidates);
    if nearest_index(candidates) is Some {
        let i = nearest_index(candidates).unwrap();
        let hit = candidates[i].unwrap();
        assert forall|j: int|
            0 <= j < candidates.len() && candidates[j] is Some implies hit.distance.value() <= (
        #[trigger] candidates[j]).unwrap().distance.value() by {
            lemma_order_is_numeric(candidates[j].unwrap().distance, hit.distance);
        }
    }
}

/// One step of the scan.
pub fn nearer_hit(best: Option<Hit>, candidate: Option<Hit>) -> (r: Option<Hit>)
    ensures
        r == nearer(best, candidate),
{
    match best {
        None => candidate,
        Some(b) => match candidate {
            None => best,
            Some(c) => if c.distance.lt(b.distance) {
                candidate
            } else {
                best
            },
        },
    }
}

/// The nearest of the candidate hits: `None` exactly when no candidate is a
/// hit, else the first candidate than which none is nearer.
pub fn nearest_hit(candidates: &Vec<Option<Hit>>) -> (r: Option<Hit>)
    ensures
        r == nearest(candidates@),
        r is None <==> (forall|j: int| 0 <= j < candidates.len() ==> candidates[j] is None),
{
    let mut best: Option<Hit> = None;
    let mut k: usize = 0;
    while k < candidates.len()
        invariant
            k <= candidates.len(),
            best == nearest(candidates@.take(k as int)),
        decreases candidates.len() - k,
    {
        proof {
            let upto = candidates@.take(k + 1);
            assert(upto.drop_last() =~= candidates@.take(k as int));
            assert(upto.last() == candidates@[k as int]);
            lemma_nearest_is_minimal(candidates@.take(k as int));
        }
        best = nearer_hit(best, candidates[k]);
        k += 1;
    }
    proof {
        assert(candidates@.take(k as int) =~= candidates@);
        lemma_nearest_is_minimal(candidates@);
    }
    best
}

impl World {
    /// Every sphere's material is one of the scene's.
    pub open spec fn wf(&self) -> bool {
        materials_resolve(self.objects@, self.materials@.len() as int)
    }

    /// Builds a scene, and refuses one in which a sphere names a material
    /// that is not there. The error names the first such sphere.
    pub fn new(objects: Vec<Sphere>, materials: Vec<MaterialKind>) -> (r: Result<
        World,
        SceneError,
    >)
        ensures
            r is Ok <==> materials_resolve(objects@, materials@.len() as int),
            match r {
                Ok(world) => {
                    &&& world.objects@ == objects@
                    &&& world.materials@ == materials@
                    &&& world.wf()
                },
                Err(SceneError::InvalidMaterial { object, material }) => {
                    &&& object < objects.len()
                    &&& material == objects[object as int].material
                    &&& material >= materials.len()
                    &&& materials_resolve(objects@.take(object as int), materials@.len() as int)
                },
            },
    {
        let mut k: usize = 0;
        while k < objects.len()
            invariant
                k <= objects.len(),
                materials_resolve(objects@.take(k as int), materials@.len() as int),
            decreases objects.len() - k,
        {
            let material: usize = objects[k].material;
            if material >= materials.len() {
                proof {
                    assert(objects@[k as int].material >= materials@.len());
                }
                return Err(SceneError::InvalidMaterial { object: k, material });
            }
            proof {
                let upto = objects@.take(k + 1);
                assert forall|i: int| 0 <= i < upto.len() implies (#[trigger] upto[i]).material
                    < materials@.len() by {
                    if i < k {
                        assert(objects@.take(k as int)[i] == upto[i]);
                    }
                }
            }
            k += 1;
        }
        proof {
            assert(objects@.take(k as int) =~= objects@);
        }
        Ok(World { objects, materials })
    }

    /// The demonstration scene.
    pub fn test_scene() -> (world: World)
        ensures
            world.objects@ == test_scene_objects(),
            world.materials@ == test_scene_materials(),
            world.wf(),
    {
        let near: u32 = 0xBF80_0000;
        let half: u32 = 0x3F00_0000;
        let strong: u32 = 0x3F4C_CCCD;
        let weak: u32 = 0x3E4C_CCCD;
        let mut objects: Vec<Sphere> = Vec::new();
        objects.push(
            Sphere {
                center: Vector::from_bits(0, 0, near),
                radius: Scalar::from_bits(half),
                material: 0,
            },
        );
        objects.push(
            Sphere {
                center: Vector::from_bits(0, 0xC2C9_0000, near),
                radius: Scalar::from_bits(0x42C8_0000),
                material: 1,
            },
        );
        objects.push(
            Sphere {
                center: Vector::from_bits(near, 0, near),
                radius: Scalar::from_bits(half),
                material: 0,
            },
        );
        objects.push(
            Sphere {
                center: Vector::from_bits(0x3F80_0000, 0, near),
                radius: Scalar::from_bits(half),
                material: 1,
            },
        );
        let mut materials: Vec<MaterialKind> = Vec::new();
        materials.push(
            MaterialKind::Lambert(Lambert { albedo: Vector::from_bits(strong, weak, weak) }),
        );
        materials.push(
            MaterialKind::Lambert(Lambert { albedo: Vector::from_bits(weak, strong, weak) }),
        );
        proof {
            assert(objects@ =~= test_scene_objects());
            assert(materials@ =~= test_scene_materials());
        }
        World { objects, materials }
    }

    /// The material at `index`.
    pub fn material(&self, index: usize) -> (m: MaterialKind)
        requires
            index < self.materials@.len(),
        ensures
            m == self.materials@[index as int],
    {
        self.materials[index]
    }
}

/// The nearest hit of one ray in the scene, from the numbers computed for
/// the ray against each sphere in turn. In a well-formed scene the hit's
/// material is one of the scene's.
pub fn find_nearest_hit(world: &World, probes: &Vec<Intersection>) -> (r: Option<Hit>)
    requires
        probes.len() == world.objects.len(),
    ensures
        r == nearest(hits(world.objects@, probes@)),
        r is None <==> (forall|j: int|
            0 <= j < probes.len() ==> !(#[trigger] probes[j]).crosses()),
        r matches Some(h) ==> h.wf() && (world.wf() ==> h.material < world.materials@.len()),
{
    let ghost all = hits(world.objects@, probes@);
    let mut best: Option<Hit> = None;
    let mut k: usize = 0;
    while k < world.objects.len()
        invariant
            k <= world.objects.len(),
            probes.len() == world.objects.len(),
            all == hits(world.objects@, probes@),
            best == nearest(all.take(k as int)),
        decreases world.objects.len() - k,
    {
        proof {
            let upto = all.take(k + 1);
            assert(upto.drop_last() =~= all.take(k as int));
            assert(upto.last() == all[k as int]);
            lemma_nearest_is_minimal(all.take(k as int));
        }
        let candidate = world.objects[k].hit(probes[k]);
        best = nearer_hit(best, candidate);
        k += 1;
    }
    proof {
        assert(all.take(k as int) =~= all);
        lemma_nearest_is_minimal(all);
        if best is None {
            assert forall|j: int| 0 <= j < probes.len() implies !(#[trigger] probes[j]).crosses() by {
                assert(all[j] is None);
            }
        } else {
            let i = nearest_index(all).unwrap();
            assert(all[i] == world.objects@[i].hit_of(probes@[i]));
            assert(probes[i].crosses());
        }
    }
    best
}

} // verus!
