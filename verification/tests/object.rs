use pathtrace::object::Hit;
use pathtrace::object::Intersection;
use pathtrace::object::Sphere;
use pathtrace::object::DISCRIMINANT_EPSILON_BITS;
use pathtrace::scalar::Scalar;
use pathtrace::vector::Vector;

fn scalar(value: f32) -> Scalar {
    Scalar::from_bits(value.to_bits())
}

fn vector(x: f32, y: f32, z: f32) -> Vector {
    Vector::new(scalar(x), scalar(y), scalar(z))
}

fn sphere() -> Sphere {
    Sphere::new(vector(0.0, 0.0, -1.0), scalar(0.5), 3)
}

fn probe(discriminant: f32, distance: f32) -> Intersection {
    Intersection {
        discriminant: scalar(discriminant),
        distance: scalar(distance),
        point: vector(0.0, 0.0, -0.5),
        normal: vector(0.0, 0.0, 1.0),
    }
}

#[test]
fn epsilon_is_one_ten_thousandth() {
    assert_eq!(DISCRIMINANT_EPSILON_BITS, 0.0001f32.to_bits());
}

#[test]
fn new_keeps_its_arguments() {
    let s = sphere();
    assert_eq!(s.center, vector(0.0, 0.0, -1.0));
    assert_eq!(s.radius, scalar(0.5));
    assert_eq!(s.material, 3);
}

#[test]
fn a_crossing_in_front_is_a_hit() {
    let hit = sphere().hit(probe(1.0, 0.5));
    assert_eq!(
        hit,
        Some(Hit {
            point: vector(0.0, 0.0, -0.5),
            normal: vector(0.0, 0.0, 1.0),
            distance: scalar(0.5),
            material: 3,
        })
    );
}

#[test]
fn a_discriminant_at_the_epsilon_is_a_miss() {
    assert_eq!(sphere().hit(probe(0.0001, 0.5)), None);
    assert_eq!(sphere().hit(probe(0.0, 0.5)), None);
    assert_eq!(sphere().hit(probe(-4.0, 0.5)), None);
    assert!(sphere().hit(probe(f32::from_bits(DISCRIMINANT_EPSILON_BITS + 1), 0.5)).is_some());
}

#[test]
fn a_crossing_behind_the_origin_is_a_miss() {
    assert_eq!(sphere().hit(probe(1.0, 0.0)), None);
    assert_eq!(sphere().hit(probe(1.0, -0.0)), None);
    assert_eq!(sphere().hit(probe(1.0, -2.0)), None);
    assert!(sphere().hit(probe(1.0, f32::MIN_POSITIVE)).is_some());
}

#[test]
fn numbers_that_are_none_are_a_miss() {
    assert_eq!(sphere().hit(probe(f32::NAN, 0.5)), None);
    assert_eq!(sphere().hit(probe(1.0, f32::NAN)), None);
}

#[test]
fn radius_must_be_positive() {
    assert!(sphere().is_well_formed());
    assert!(!Sphere::new(vector(0.0, 0.0, 0.0), scalar(0.0), 0).is_well_formed());
    assert!(!Sphere::new(vector(0.0, 0.0, 0.0), scalar(-1.0), 0).is_well_formed());
    assert!(!Sphere::new(vector(0.0, 0.0, 0.0), scalar(f32::NAN), 0).is_well_formed());
}
