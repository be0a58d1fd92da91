//! The purely real capability on the primitive scalar bindings: the derived
//! accessors and the real binary arithmetic.

use complex_numbers::Cartesian;
use complex_numbers::Numeric;
use complex_numbers::Real;
use complex_numbers::Scalar;

#[test]
fn real_part_of_an_integer_is_itself() {
    assert_eq!(5i64.real_part(), Scalar::from_int(5));
    assert_eq!(7u8.real_part(), Scalar::from_int(7));
    assert_eq!((-9i32).real_part(), Scalar::from_int(-9));
    assert_eq!(11usize.real_part(), Scalar::from_int(11));
}

#[test]
fn imag_of_a_real_is_zero() {
    assert_eq!(5i64.imag(), Scalar::zero());
    assert_eq!((-3i16).imag(), Scalar::zero());
    assert_eq!(0u32.imag(), Scalar::zero());
}

#[test]
fn magnitude_of_a_real_is_its_absolute_value() {
    assert_eq!(5i64.magnitude(), Scalar::from_int(5));
    assert_eq!((-5i64).magnitude(), Scalar::from_int(5));
    assert_eq!(0i64.magnitude(), Scalar::zero());
}

#[test]
fn phase_of_a_real_is_zero_or_a_half_turn() {
    // Phases are measured in half-turns: 1 stands for pi radians.
    assert_eq!(3i64.phase(), Scalar::zero());
    assert_eq!(0i64.phase(), Scalar::zero());
    assert_eq!((-3i64).phase(), Scalar::one());
}

#[test]
fn real_binary_arithmetic_is_exact() {
    assert_eq!(5i64.add_real(3u8), Scalar::from_int(8));
    assert_eq!(5i64.sub_real(8u16), Scalar::from_int(-3));
    assert_eq!(6i64.mul_real(-7i64), Scalar::from_int(-42));
    let q = 1i64.div_real(3i64);
    assert_eq!(q.num, 1);
    assert_eq!(q.den, 3);
    let t = 5i64.div_real(-2i64);
    assert!(t.eqv(&Scalar::new(-5, 2)));
}

#[test]
fn real_scales_both_cartesian_components() {
    let c = Cartesian { real: 3i64, imag: -4i64 };
    let r = 2i64.cartesian_mul(c);
    assert_eq!(r.real, Scalar::from_int(6));
    assert_eq!(r.imag, Scalar::from_int(-8));
}

#[test]
fn scalar_is_its_own_real_part() {
    let s = Scalar::new(5, 4);
    assert_eq!(s.real_part(), s);
    assert_eq!(s.magnitude(), s);
    assert_eq!(Scalar::new(-5, 4).magnitude(), Scalar::new(5, 4));
}

#[test]
fn borrowed_real_produces_identical_outputs() {
    let v = -13i64;
    let b = &v;
    assert_eq!(b.real_part(), v.real_part());
    assert_eq!(b.imag(), v.imag());
    assert_eq!(b.magnitude(), v.magnitude());
    assert_eq!(b.phase(), v.phase());
}

#[test]
fn wide_integers_bind_where_they_fit() {
    let big: u128 = i128::MAX as u128;
    assert_eq!(big.real_part().num, i128::MAX);
    let low: i128 = i128::MIN + 1;
    assert_eq!(low.real_part().num, i128::MIN + 1);
}
