//! Exact arithmetic on the rational scalar.

use complex_numbers::Scalar;

#[test]
fn zero_and_one() {
    let z = Scalar::zero();
    assert_eq!(z.num, 0);
    assert_eq!(z.den, 1);
    let o = Scalar::one();
    assert_eq!(o.num, 1);
    assert_eq!(o.den, 1);
}

#[test]
fn from_int_keeps_the_value() {
    let s = Scalar::from_int(-42);
    assert_eq!(s.num, -42);
    assert_eq!(s.den, 1);
}

#[test]
fn plus_is_the_exact_sum() {
    let h = Scalar::new(1, 2);
    let t = Scalar::new(1, 3);
    let r = h.plus(&t);
    assert_eq!(r.num, 5);
    assert_eq!(r.den, 6);
}

#[test]
fn minus_is_the_exact_difference() {
    let h = Scalar::new(1, 2);
    let t = Scalar::new(1, 3);
    let r = h.minus(&t);
    assert_eq!(r.num, 1);
    assert_eq!(r.den, 6);
}

#[test]
fn times_multiplies_components() {
    let a = Scalar::new(-2, 3);
    let b = Scalar::new(5, 7);
    let r = a.times(&b);
    assert_eq!(r.num, -10);
    assert_eq!(r.den, 21);
}

#[test]
fn recip_swaps_and_keeps_the_sign_in_the_numerator() {
    let a = Scalar::new(-2, 3);
    let r = a.recip();
    assert_eq!(r.num, -3);
    assert_eq!(r.den, 2);
    let b = Scalar::new(2, 3);
    let p = b.recip();
    assert_eq!(p.num, 3);
    assert_eq!(p.den, 2);
}

#[test]
fn over_is_the_exact_quotient() {
    let a = Scalar::new(1, 2);
    let b = Scalar::new(-2, 3);
    let r = a.over(&b);
    assert_eq!(r.num, -3);
    assert_eq!(r.den, 4);
    assert!(r.eqv(&Scalar::new(-3, 4)));
}

#[test]
fn neg_flips_the_numerator() {
    let a = Scalar::new(4, 9);
    let r = a.neg();
    assert_eq!(r.num, -4);
    assert_eq!(r.den, 9);
}

#[test]
fn abs_drops_the_sign() {
    assert_eq!(Scalar::new(-4, 9).abs(), Scalar::new(4, 9));
    assert_eq!(Scalar::new(4, 9).abs(), Scalar::new(4, 9));
}

#[test]
fn eqv_sees_through_representations() {
    let half = Scalar::new(1, 2);
    let other_half = Scalar::new(3, 6);
    assert!(half.eqv(&other_half));
    assert!(!half.eqv(&Scalar::new(2, 3)));
    // Structural equality stays field-wise.
    assert_ne!(half, other_half);
}

#[test]
fn sign_tests() {
    assert!(Scalar::new(-1, 5).is_neg());
    assert!(!Scalar::new(0, 5).is_neg());
    assert!(Scalar::new(0, 5).is_zero());
    assert!(!Scalar::new(1, 5).is_zero());
}
