use vector3::scalar::{ONE_BITS, SIGN_MASK, TOLERANCE_BITS};
use vector3::vector::Vector3;

fn v3(x: f64, y: f64, z: f64) -> Vector3 {
    Vector3::from_components(x.to_bits(), y.to_bits(), z.to_bits())
}

fn comps(v: &Vector3) -> (f64, f64, f64) {
    (f64::from_bits(v.x), f64::from_bits(v.y), f64::from_bits(v.z))
}

fn mag(v: &Vector3) -> f64 {
    f64::from_bits(v.magnitude())
}

#[test]
fn constants_match_encodings() {
    assert_eq!(TOLERANCE_BITS, (1.0e-4f64).to_bits());
    assert_eq!(ONE_BITS, (1.0f64).to_bits());
    assert_eq!(SIGN_MASK, (-0.0f64).to_bits());
}

#[test]
fn arithmetic_matches_native_rounding() {
    let s = v3(0.1, 1.0, 2.5e300).add(&v3(0.2, 3.0e-7, 2.5e300));
    assert_eq!(comps(&s), (0.1 + 0.2, 1.0 + 3.0e-7, 2.5e300 + 2.5e300));
    let p = v3(0.1, -7.25, 1.0e200).scale((0.3f64).to_bits());
    assert_eq!(comps(&p), (0.1 * 0.3, -7.25 * 0.3, 1.0e200 * 0.3));
    let q = v3(1.0, 2.0, -0.7).divide_by_scalar((3.0f64).to_bits());
    assert_eq!(comps(&q), (1.0 / 3.0, 2.0 / 3.0, -0.7 / 3.0));
    let m = mag(&v3(0.3, 0.0, 0.0));
    assert_eq!(m.to_bits(), (0.3f64 * 0.3f64).sqrt().to_bits());
}

#[test]
fn additive_identity() {
    let v = v3(1.5, -2.25, 3.75);
    assert_eq!(v.add(&Vector3::zero()), v);
    let w = v3(-0.0, 7.0, -1.0e-308).add(&Vector3::zero());
    let (x, y, z) = comps(&w);
    assert_eq!(x, 0.0);
    assert_eq!(y, 7.0);
    assert_eq!(z, -1.0e-308);
}

#[test]
fn additive_inverse() {
    for v in [v3(1.5, -2.25, 3.75), v3(0.0, -0.0, 1.0e-310), v3(6.0, 5.0, 3.0)] {
        assert_eq!(v.add(&v.negate()), Vector3::zero());
    }
}

#[test]
fn addition_commutes() {
    let a = v3(0.1, -2.75, 1.0e10);
    let b = v3(0.2, 3.5, -4.25e-3);
    assert_eq!(a.add(&b), b.add(&a));
}

#[test]
fn dot_commutes() {
    let a = v3(0.1, -2.75, 1.0e10);
    let b = v3(0.2, 3.5, -4.25e-3);
    assert_eq!(a.dot(&b), b.dot(&a));
}

#[test]
fn cross_anticommutes() {
    let a = v3(1.25, -2.0, 0.5);
    let b = v3(-3.0, 0.75, 4.5);
    assert_eq!(a.cross(&b), b.cross(&a).negate());
}

#[test]
fn cross_of_parallel_vectors_vanishes() {
    let v = v3(1.3, -2.7, 0.9);
    let w = v.scale((3.7f64).to_bits());
    let c = v.cross(&w);
    let (x, y, z) = comps(&c);
    assert!(x.abs() < 1.0e-9 && y.abs() < 1.0e-9 && z.abs() < 1.0e-9);
}

#[test]
fn magnitude_is_nonnegative() {
    for v in [v3(0.0, 0.0, 0.0), v3(-1.0, -2.0, -3.0), v3(1.0e-200, 0.0, -5.5)] {
        assert!(mag(&v) >= 0.0);
    }
    assert_eq!(mag(&Vector3::zero()).to_bits(), 0u64);
}

#[test]
fn normalization_fixpoint() {
    let mut v = v3(6.0, 5.0, 3.0);
    v.normalize_in_place();
    assert!((mag(&v) - 1.0).abs() < 1.0e-12);
    let m = 70.0f64.sqrt();
    assert_eq!(comps(&v), (6.0 / m, 5.0 / m, 3.0 / m));
}

#[test]
fn normalization_guards_zero() {
    let mut v = Vector3::zero();
    v.normalize_in_place();
    let (x, y, z) = comps(&v);
    assert_eq!(x.to_bits(), 0u64);
    assert_eq!(y.to_bits(), 0u64);
    assert_eq!(z.to_bits(), 0u64);
}

#[test]
fn normalization_snaps_near_zero_components() {
    let mut v = v3(1.0, 1.0e-9, 0.0);
    v.normalize_in_place();
    let (x, y, z) = comps(&v);
    assert_eq!((x, y, z), (1.0, 0.0, 0.0));
    let mut w = v3(5.0e-5, 0.0, 0.0);
    w.normalize_in_place();
    assert_eq!(w, Vector3::zero());
}

#[test]
fn scenario_three_four_zero_has_magnitude_five() {
    assert_eq!(mag(&v3(3.0, 4.0, 0.0)), 5.0);
}

#[test]
fn scenario_add_then_subtract_restores() {
    let a = v3(1.0, 1.0, 2.0);
    let b = v3(2.0, 2.0, 1.0);
    let s = a.add(&b);
    assert_eq!(comps(&s), (3.0, 3.0, 3.0));
    assert_eq!(s.subtract(&b), a);
}

#[test]
fn scenario_scale_by_two() {
    let r = v3(1.0, 2.0, 3.0).scale((2.0f64).to_bits());
    assert_eq!(comps(&r), (2.0, 4.0, 6.0));
}

#[test]
fn scenario_unit_cross() {
    let r = v3(1.0, 0.0, 0.0).cross(&v3(0.0, 1.0, 0.0));
    assert_eq!(comps(&r), (0.0, 0.0, 1.0));
}

#[test]
fn scenario_dot_is_thirty_two() {
    let r = v3(1.0, 2.0, 3.0).dot(&v3(4.0, 5.0, 6.0));
    assert_eq!(f64::from_bits(r), 32.0);
}

#[test]
fn in_place_variants_match_pure_ones() {
    let a = v3(1.0, -2.5, 0.125);
    let b = v3(0.75, 3.0, -8.0);
    let s = (1.5f64).to_bits();

    let mut m = a;
    m.add_in_place(&b);
    assert_eq!(m, a.add(&b));

    let mut m = a;
    m.subtract_in_place(&b);
    assert_eq!(m, a.subtract(&b));

    let mut m = a;
    m.scale_in_place(s);
    assert_eq!(m, a.scale(s));

    let mut m = a;
    m.divide_by_scalar_in_place(s);
    assert_eq!(m, a.divide_by_scalar(s));

    let mut m = a;
    m.reverse_in_place();
    assert_eq!(m, a.negate());

    let mut m = a;
    m.normalize_in_place();
    let mut n = a.copy();
    n.normalize_in_place();
    assert_eq!(m, n);
}

#[test]
fn free_add_matches_method() {
    let a = v3(1.0, 1.0, 2.0);
    let b = v3(2.0, 2.0, 1.0);
    assert_eq!(vector3::vector::add(a, b), a.add(&b));
}

#[test]
fn negate_is_pure_and_exact() {
    let v = v3(1.0, -0.0, f64::INFINITY);
    let n = v.negate();
    let (x, y, z) = comps(&n);
    assert_eq!(x, -1.0);
    assert_eq!(y.to_bits(), (0.0f64).to_bits());
    assert_eq!(z, f64::NEG_INFINITY);
    assert_eq!(comps(&v), (1.0, -0.0, f64::INFINITY));
}

#[test]
fn copy_is_independent() {
    let mut v = v3(1.0, 2.0, 3.0);
    let c = v.copy();
    v.reverse_in_place();
    assert_eq!(comps(&c), (1.0, 2.0, 3.0));
    assert_eq!(comps(&v), (-1.0, -2.0, -3.0));
}

#[test]
fn division_by_zero_follows_ieee() {
    let r = v3(1.0, -1.0, 0.0).divide_by_scalar((0.0f64).to_bits());
    let (x, y, z) = comps(&r);
    assert_eq!(x, f64::INFINITY);
    assert_eq!(y, f64::NEG_INFINITY);
    assert!(z.is_nan());
}

#[test]
fn nan_and_infinity_propagate() {
    let m = mag(&v3(f64::NAN, 1.0, 2.0));
    assert!(m.is_nan());
    let s = v3(f64::INFINITY, 1.0, 0.0).add(&v3(f64::NEG_INFINITY, 1.0, 0.0));
    let (x, y, _) = comps(&s);
    assert!(x.is_nan());
    assert_eq!(y, 2.0);
}
