//! The complex capability: the two composite representations and the binary
//! arithmetic combining operands of differing concrete types.

use complex_numbers::Cartesian;
use complex_numbers::Complex;
use complex_numbers::Number;
use complex_numbers::Polar;
use complex_numbers::Scalar;

#[test]
fn cartesian_round_trip() {
    let c = Cartesian { real: 3i64, imag: 4i64 };
    assert_eq!(c.real_part(), Scalar::from_int(3));
    assert_eq!(c.imag(), Scalar::from_int(4));
    // The magnitude of 3 + 4i is 5: exactly, its square is 3*3 + 4*4 == 25.
    let re = c.real_part();
    let im = c.imag();
    let norm2 = re.times(&re).plus(&im.times(&im));
    assert!(norm2.eqv(&Scalar::from_int(25)));
}

#[test]
fn polar_round_trip() {
    let p = Polar { magnitude: 2i64, phase: 0i64 };
    assert_eq!(p.magnitude(), Scalar::from_int(2));
    assert_eq!(p.phase(), Scalar::zero());
}

#[test]
fn add_is_component_wise() {
    let a = Cartesian { real: 1i64, imag: 2i64 };
    let b = Cartesian { real: 3i64, imag: -4i64 };
    let r = a.add(b);
    assert_eq!(r.real, Scalar::from_int(4));
    assert_eq!(r.imag, Scalar::from_int(-2));
}

#[test]
fn sub_is_component_wise() {
    let a = Cartesian { real: 1i64, imag: 2i64 };
    let b = Cartesian { real: 3i64, imag: -4i64 };
    let r = a.sub(b);
    assert_eq!(r.real, Scalar::from_int(-2));
    assert_eq!(r.imag, Scalar::from_int(6));
}

#[test]
fn operands_may_differ_in_type() {
    // A purely real integer mixes freely with a composite.
    let a = Cartesian { real: 1i64, imag: 2i64 };
    let r = a.add(5u8);
    assert_eq!(r.real, Scalar::from_int(6));
    assert_eq!(r.imag, Scalar::from_int(2));
    let s = Number::add(&3i64, a);
    assert_eq!(s.real, Scalar::from_int(4));
    assert_eq!(s.imag, Scalar::from_int(2));
}

#[test]
fn cartesian_mul_expands_the_product() {
    // (1 + 2i)(3 + 4i) == -5 + 10i, the cartesian path of the product.
    let a = Cartesian { real: 1i64, imag: 2i64 };
    let b = Cartesian { real: 3i64, imag: 4i64 };
    let r = a.cartesian_mul(b);
    assert_eq!(r.real, Scalar::from_int(-5));
    assert_eq!(r.imag, Scalar::from_int(10));
    // The squared magnitude agrees with the polar path: |a|^2 * |b|^2.
    let norm2 = |re: Scalar, im: Scalar| re.times(&re).plus(&im.times(&im));
    let lhs = norm2(r.real, r.imag);
    let rhs = norm2(a.real_part(), a.imag()).times(&norm2(b.real_part(), b.imag()));
    assert!(lhs.eqv(&rhs));
    assert_eq!(lhs.num, 125);
}

#[test]
fn polar_mul_multiplies_magnitudes_and_adds_phases() {
    let x = Polar { magnitude: 2i64, phase: 1i64 };
    let y = Polar { magnitude: 3i64, phase: 5i64 };
    let r = x.polar_mul(y);
    assert_eq!(r.magnitude, Scalar::from_int(6));
    assert_eq!(r.phase, Scalar::from_int(6));
}

#[test]
fn mul_is_the_polar_product() {
    let x = Polar { magnitude: 2i64, phase: 1i64 };
    let y = Polar { magnitude: 3i64, phase: 5i64 };
    let m = x.mul(y);
    let p = x.polar_mul(y);
    assert_eq!(m, p);
}

#[test]
fn div_divides_magnitudes_and_subtracts_phases() {
    let x = Polar { magnitude: 6i64, phase: 5i64 };
    let y = Polar { magnitude: 3i64, phase: 1i64 };
    let r = x.div(y);
    assert!(r.magnitude.eqv(&Scalar::from_int(2)));
    assert_eq!(r.phase, Scalar::from_int(4));
}

#[test]
fn div_inverts_mul() {
    let a = Polar { magnitude: 2i64, phase: 1i64 };
    let b = Polar { magnitude: 3i64, phase: -5i64 };
    let r = a.mul(b).div(b);
    assert!(r.magnitude.eqv(&a.magnitude()));
    assert!(r.phase.eqv(&a.phase()));
}

#[test]
fn composite_components_read_only_their_real_part() {
    // The imaginary component of the `imag` holder is discarded: the holder
    // acts purely as a scale factor on the imaginary unit.
    let inner = Cartesian { real: 7i64, imag: 100i64 };
    let outer = Cartesian { real: 1i64, imag: inner };
    assert_eq!(outer.real_part(), Scalar::from_int(1));
    assert_eq!(outer.imag(), Scalar::from_int(7));
}

#[test]
fn borrowed_complex_produces_identical_outputs() {
    let c = Cartesian { real: -2i64, imag: 9i64 };
    let b = &c;
    assert_eq!(b.real_part(), c.real_part());
    assert_eq!(b.imag(), c.imag());
    let lhs = b.add(3i64);
    let rhs = c.add(3i64);
    assert_eq!(lhs, rhs);
}

#[test]
fn structural_equality_and_order_are_field_wise() {
    let a = Cartesian { real: 1i64, imag: 2i64 };
    let b = Cartesian { real: 1i64, imag: 2i64 };
    assert_eq!(a, b);
    let c = Cartesian { real: 1i64, imag: 3i64 };
    assert!(a < c);
    let d: Cartesian<i64, i64> = Cartesian::default();
    assert_eq!(d, Cartesian { real: 0i64, imag: 0i64 });
}
