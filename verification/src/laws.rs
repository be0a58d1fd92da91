//! The algebraic laws of the library, stated over the exact rational model
//! and proved once for every implementation of the capabilities.

use vstd::prelude::*;

use crate::number::Complex;
use crate::numeric::Numeric;
use crate::polar::Polar;
use crate::rat::Rat;
use crate::rat::rat_add;
use crate::rat::rat_div;
use crate::rat::rat_eq;
use crate::rat::rat_is_zero;
use crate::rat::rat_mul;
use crate::rat::rat_norm2;
use crate::rat::rat_sub;
use crate::rat::rat_wf;

verus! {

/// Brahmagupta's identity: a product of two sums of two squares is itself a
/// sum of two squares, in exactly the way complex multiplication combines
/// components.
proof fn lemma_two_squares(a: int, b: int, c: int, e: int)
    ensures
        (a * c - b * e) * (a * c - b * e) + (a * e + b * c) * (a * e + b * c) == (a * a + b * b) * (
        c * c + e * e),
{
    let u: int = a * c;
    let v: int = b * e;
    let w: int = a * e;
    let z: int = b * c;
    let aa: int = a * a;
    let bb: int = b * b;
    let cc: int = c * c;
    let ee: int = e * e;
    assert((u - v) * (u - v) == u * u - 2 * (u * v) + v * v) by (nonlinear_arith);
    assert((w + z) * (w + z) == w * w + 2 * (w * z) + z * z) by (nonlinear_arith);
    assert(u * u == aa * cc) by (nonlinear_arith)
        requires
            u == a * c,
            aa == a * a,
            cc == c * c,
    ;
    assert(v * v == bb * ee) by (nonlinear_arith)
        requires
            v == b * e,
            bb == b * b,
            ee == e * e,
    ;
    assert(w * w == aa * ee) by (nonlinear_arith)
        requires
            w == a * e,
            aa == a * a,
            ee == e * e,
    ;
    assert(z * z == bb * cc) by (nonlinear_arith)
        requires
            z == b * c,
            bb == b * b,
            cc == c * c,
    ;
    assert(u * v == w * z) by (nonlinear_arith)
        requires
            u == a * c,
            v == b * e,
            w == a * e,
            z == b * c,
    ;
    assert((aa + bb) * (cc + ee) == aa * cc + aa * ee + bb * cc + bb * ee) by (nonlinear_arith);
}

/// The cartesian product formula preserves squared magnitudes: the squared
/// magnitude of `(ar + ai*i) * (br + bi*i)`, computed in cartesian
/// coordinates, is the product of the operands' squared magnitudes. This is
/// the exactly stateable half of the agreement between the cartesian and the
/// polar multiplication path (the other half, agreement of phases, has no
/// exact rational form).
pub proof fn lemma_cartesian_mul_magnitude(ar: Rat, ai: Rat, br: Rat, bi: Rat)
    ensures
        rat_eq(
            rat_norm2(
                rat_sub(rat_mul(ar, br), rat_mul(ai, bi)),
                rat_add(rat_mul(ar, bi), rat_mul(ai, br)),
            ),
            rat_mul(rat_norm2(ar, ai), rat_norm2(br, bi)),
        ),
{
    let a: int = ar.n * ai.d;
    let b: int = ai.n * ar.d;
    let c: int = br.n * bi.d;
    let e: int = bi.n * br.d;
    let d: int = (ar.d * ai.d) * (br.d * bi.d);
    let x: Rat = rat_sub(rat_mul(ar, br), rat_mul(ai, bi));
    let y: Rat = rat_add(rat_mul(ar, bi), rat_mul(ai, br));
    let lhs: Rat = rat_norm2(x, y);
    let rhs: Rat = rat_mul(rat_norm2(ar, ai), rat_norm2(br, bi));
    assert(x.n == a * c - b * e) by (nonlinear_arith)
        requires
            x.n == ar.n * br.n * (ai.d * bi.d) - ai.n * bi.n * (ar.d * br.d),
            a == ar.n * ai.d,
            b == ai.n * ar.d,
            c == br.n * bi.d,
            e == bi.n * br.d,
    ;
    assert(y.n == a * e + b * c) by (nonlinear_arith)
        requires
            y.n == ar.n * bi.n * (ai.d * br.d) + ai.n * br.n * (ar.d * bi.d),
            a == ar.n * ai.d,
            b == ai.n * ar.d,
            c == br.n * bi.d,
            e == bi.n * br.d,
    ;
    assert(x.d == d && y.d == d) by (nonlinear_arith)
        requires
            x.d == ar.d * br.d * (ai.d * bi.d),
            y.d == ar.d * bi.d * (ai.d * br.d),
            d == (ar.d * ai.d) * (br.d * bi.d),
    ;
    lemma_two_squares(a, b, c, e);
    let n_a: int = a * a + b * b;
    let n_b: int = c * c + e * e;
    assert(lhs.n == (n_a * n_b) * (d * d)) by (nonlinear_arith)
        requires
            lhs.n == x.n * x.n * (y.d * y.d) + y.n * y.n * (x.d * x.d),
            x.n == a * c - b * e,
            y.n == a * e + b * c,
            x.d == d,
            y.d == d,
            (a * c - b * e) * (a * c - b * e) + (a * e + b * c) * (a * e + b * c) == n_a * n_b,
    ;
    assert(lhs.d == (d * d) * (d * d)) by (nonlinear_arith)
        requires
            lhs.d == x.d * x.d * (y.d * y.d),
            x.d == d,
            y.d == d,
    ;
    assert(rhs.n == n_a * n_b) by (nonlinear_arith)
        requires
            rhs.n == (ar.n * ar.n * (ai.d * ai.d) + ai.n * ai.n * (ar.d * ar.d)) * (br.n * br.n * (
            bi.d * bi.d) + bi.n * bi.n * (br.d * br.d)),
            n_a == a * a + b * b,
            n_b == c * c + e * e,
            a == ar.n * ai.d,
            b == ai.n * ar.d,
            c == br.n * bi.d,
            e == bi.n * br.d,
    ;
    assert(rhs.d == d * d) by (nonlinear_arith)
        requires
            rhs.d == (ar.d * ar.d * (ai.d * ai.d)) * (br.d * br.d * (bi.d * bi.d)),
            d == (ar.d * ai.d) * (br.d * bi.d),
    ;
    assert(lhs.n * rhs.d == rhs.n * lhs.d) by (nonlinear_arith)
        requires
            lhs.n == (n_a * n_b) * (d * d),
            lhs.d == (d * d) * (d * d),
            rhs.n == n_a * n_b,
            rhs.d == d * d,
    ;
}

/// The cartesian and the polar multiplication path agree on any two
/// complex-capable operands: the squared magnitude of the cartesian
/// product's model equals the product of the operands' squared magnitudes,
/// which is the square of the magnitude the polar product computes.
pub proof fn lemma_products_agree<A: Complex, B: Complex>(a: A, b: B)
    ensures
        rat_eq(
            rat_norm2(
                rat_sub(rat_mul(a.re(), b.re()), rat_mul(a.im(), b.im())),
                rat_add(rat_mul(a.re(), b.im()), rat_mul(a.im(), b.re())),
            ),
            rat_mul(rat_norm2(a.re(), a.im()), rat_norm2(b.re(), b.im())),
        ),
{
    lemma_cartesian_mul_magnitude(a.re(), a.im(), b.re(), b.im());
}

/// Multiplying and then dividing by the same value cancels, at the level of
/// the magnitude component.
proof fn lemma_rat_mul_div_cancel(a: Rat, b: Rat)
    requires
        rat_wf(a),
        rat_wf(b),
        !rat_is_zero(b),
    ensures
        rat_eq(rat_div(rat_mul(a, b), b), a),
{
    if b.n < 0 {
        assert((a.n * b.n) * (-b.d) * a.d == a.n * ((a.d * b.d) * (-b.n))) by (nonlinear_arith);
    } else {
        assert((a.n * b.n) * b.d * a.d == a.n * ((a.d * b.d) * b.n)) by (nonlinear_arith);
    }
}

/// Adding and then subtracting the same value cancels, at the level of the
/// phase component.
proof fn lemma_rat_add_sub_cancel(a: Rat, b: Rat)
    ensures
        rat_eq(rat_sub(rat_add(a, b), b), a),
{
    assert(((a.n * b.d + b.n * a.d) * b.d - b.n * (a.d * b.d)) * a.d == a.n * ((a.d * b.d) * b.d))
        by (nonlinear_arith);
}

/// Division inverts multiplication for a divisor of nonzero magnitude:
/// `a.mul(b).div(b)` denotes the same magnitude and the same phase as `a`.
pub proof fn lemma_div_inverts_mul<M1: Complex, P1: Complex, M2: Complex, P2: Complex>(
    a: Polar<M1, P1>,
    b: Polar<M2, P2>,
)
    requires
        a.inv(),
        b.inv(),
        !rat_is_zero(b.mg()),
    ensures
        rat_eq(rat_div(rat_mul(a.mg(), b.mg()), b.mg()), a.mg()),
        rat_eq(rat_sub(rat_add(a.ph(), b.ph()), b.ph()), a.ph()),
{
    a.model_wf();
    b.model_wf();
    lemma_rat_mul_div_cancel(a.mg(), b.mg());
    lemma_rat_add_sub_cancel(a.ph(), b.ph());
}

/// A borrowed handle to a complex-capable value denotes exactly what the
/// referenced value denotes, so every derived operation produces identical
/// results through the handle.
pub proof fn lemma_ref_forwards_complex<T: Complex>(x: &T)
    ensures
        x.inv() == (*x).inv(),
        x.re() == (*x).re(),
        x.im() == (*x).im(),
{
}

/// A borrowed handle to a real value denotes exactly what the referenced
/// value denotes, so every derived operation produces identical results
/// through the handle.
pub proof fn lemma_ref_forwards_real<T: Numeric>(x: &T)
    ensures
        x.inv() == (*x).inv(),
        x.re() == (*x).re(),
{
}

} // verus!
