use pathtrace::scalar::Scalar;
use pathtrace::scalar::INFINITY_BITS;
use pathtrace::scalar::ONE_BITS;
use pathtrace::scalar::SIGN_BIT;
use pathtrace::scalar::ZERO_BITS;
use pathtrace::vector::Vector;

fn scalar(value: f32) -> Scalar {
    Scalar::from_bits(value.to_bits())
}

fn samples() -> Vec<f32> {
    vec![
        0.0,
        -0.0,
        1.0,
        -1.0,
        0.5,
        -0.5,
        0.0001,
        63.0 / 64.0,
        0.984_375_06,
        1.000_000_1,
        100.0,
        -100.5,
        3.0e-39,
        -3.0e-39,
        1.0e-45,
        f32::MIN_POSITIVE,
        f32::MAX,
        f32::MIN,
        f32::INFINITY,
        f32::NEG_INFINITY,
        f32::NAN,
        -f32::NAN,
        f32::from_bits(0x7F80_0001),
        f32::from_bits(0xFFFF_FFFF),
    ]
}

#[test]
fn constants_are_the_patterns_of_their_numbers() {
    assert_eq!(ZERO_BITS, 0.0f32.to_bits());
    assert_eq!(ONE_BITS, 1.0f32.to_bits());
    assert_eq!(INFINITY_BITS, f32::INFINITY.to_bits());
    assert_eq!(SIGN_BIT, (-0.0f32).to_bits());
    assert_eq!(Scalar::one().to_bits(), ONE_BITS);
    assert_eq!(Scalar::zero_value().to_bits(), 0);
}

#[test]
fn greater_agrees_with_the_hardware() {
    for a in samples() {
        for b in samples() {
            assert_eq!(scalar(a).gt(scalar(b)), a > b, "{a:?} > {b:?}");
        }
    }
}

#[test]
fn less_agrees_with_the_hardware() {
    for a in samples() {
        for b in samples() {
            assert_eq!(scalar(a).lt(scalar(b)), a < b, "{a:?} < {b:?}");
        }
    }
}

#[test]
fn same_agrees_with_the_hardware() {
    for a in samples() {
        for b in samples() {
            assert_eq!(scalar(a).same(scalar(b)), a == b, "{a:?} == {b:?}");
        }
    }
}

#[test]
fn classification_agrees_with_the_hardware() {
    for a in samples() {
        assert_eq!(scalar(a).is_nan(), a.is_nan(), "{a:?}");
        assert_eq!(scalar(a).is_zero(), a == 0.0, "{a:?}");
        assert_eq!(scalar(a).is_positive(), a > 0.0, "{a:?}");
    }
}

#[test]
fn negative_zero_is_zero_and_not_positive() {
    let s = scalar(-0.0);
    assert!(s.is_zero());
    assert!(!s.is_positive());
    assert!(!s.gt(scalar(0.0)));
    assert!(!s.lt(scalar(0.0)));
    assert!(s.same(scalar(0.0)));
}

#[test]
fn nan_compares_with_nothing() {
    let n = scalar(f32::NAN);
    assert!(n.is_nan());
    assert!(!n.gt(n));
    assert!(!n.lt(n));
    assert!(!n.same(n));
    assert!(!n.gt(scalar(0.0)));
    assert!(!scalar(f32::INFINITY).gt(n));
}

#[test]
fn positive_scalars_order_as_their_patterns() {
    let values: Vec<f32> = samples().into_iter().filter(|v| *v > 0.0).collect();
    for a in &values {
        for b in &values {
            assert_eq!(a < b, a.to_bits() < b.to_bits());
        }
    }
}

#[test]
fn vector_zero_test_is_componentwise() {
    assert!(Vector::zero_value().is_zero());
    assert!(Vector::from_bits(0, SIGN_BIT, 0).is_zero());
    assert!(!Vector::from_bits(0, 0, 1).is_zero());
    assert!(!Vector::from_bits(ONE_BITS, 0, 0).is_zero());
    assert!(!Vector::from_bits(0, f32::NAN.to_bits(), 0).is_zero());
    let v = Vector::new(scalar(1.0), scalar(2.0), scalar(3.0));
    assert_eq!(v.x.to_bits(), 1.0f32.to_bits());
    assert_eq!(v.y.to_bits(), 2.0f32.to_bits());
    assert_eq!(v.z.to_bits(), 3.0f32.to_bits());
}

#[test]
fn vector_zero_test_agrees_with_vector_equality() {
    let parts = [0.0f32, -0.0, 1.0, -1.0, 1.0e-45, f32::NAN, f32::INFINITY];
    for x in parts {
        for y in parts {
            for z in parts {
                let expected = glam::Vec3::new(x, y, z) == glam::Vec3::ZERO;
                let v = Vector::new(scalar(x), scalar(y), scalar(z));
                assert_eq!(v.is_zero(), expected, "{x:?} {y:?} {z:?}");
            }
        }
    }
}
