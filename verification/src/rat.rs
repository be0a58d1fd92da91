//! The mathematical model used throughout the crate: exact rational numbers,
//! written as an integer numerator over an integer denominator.
//!
//! The model is deliberately unreduced: each operation is a fixed formula on
//! the two representations, and two representations denote the same rational
//! exactly when [`rat_eq`] holds (cross multiplication). Contracts of
//! executable code state the exact representation an operation produces;
//! the algebraic laws of the crate are stated up to [`rat_eq`].

use vstd::prelude::*;

verus! {

/// An exact rational value `n / d`. Well-formed values have `d > 0`.
pub ghost struct Rat {
    /// Numerator.
    pub n: int,
    /// Denominator.
    pub d: int,
}

/// A representation is well formed when its denominator is positive, so the
/// sign of the value is the sign of the numerator.
pub open spec fn rat_wf(r: Rat) -> bool {
    r.d > 0
}

/// The rational denoted by the integer `n`.
pub open spec fn rat_int(n: int) -> Rat {
    Rat { n: n, d: 1 }
}

/// Zero.
pub open spec fn rat_zero() -> Rat {
    rat_int(0)
}

/// One.
pub open spec fn rat_one() -> Rat {
    rat_int(1)
}

/// Two representations denote the same rational value (cross multiplication).
pub open spec fn rat_eq(a: Rat, b: Rat) -> bool {
    a.n * b.d == b.n * a.d
}

/// The value is zero (for well-formed representations).
pub open spec fn rat_is_zero(a: Rat) -> bool {
    a.n == 0
}

/// The value is strictly negative (for well-formed representations).
pub open spec fn rat_is_neg(a: Rat) -> bool {
    a.n < 0
}

/// Sum: `a/b + c/e == (a e + c b) / (b e)`.
pub open spec fn rat_add(a: Rat, b: Rat) -> Rat {
    Rat { n: a.n * b.d + b.n * a.d, d: a.d * b.d }
}

/// Difference: `a/b - c/e == (a e - c b) / (b e)`.
pub open spec fn rat_sub(a: Rat, b: Rat) -> Rat {
    Rat { n: a.n * b.d - b.n * a.d, d: a.d * b.d }
}

/// Product: numerators and denominators multiply.
pub open spec fn rat_mul(a: Rat, b: Rat) -> Rat {
    Rat { n: a.n * b.n, d: a.d * b.d }
}

/// Negation.
pub open spec fn rat_neg(a: Rat) -> Rat {
    Rat { n: -a.n, d: a.d }
}

/// Absolute value.
pub open spec fn rat_abs(a: Rat) -> Rat {
    Rat { n: if a.n < 0 { -a.n } else { a.n }, d: a.d }
}

/// Reciprocal, with the sign moved into the numerator so that the result of
/// inverting a well-formed, non-zero value is again well formed.
pub open spec fn rat_recip(a: Rat) -> Rat {
    if a.n < 0 {
        Rat { n: -a.d, d: -a.n }
    } else {
        Rat { n: a.d, d: a.n }
    }
}

/// Quotient: multiplication by the reciprocal.
pub open spec fn rat_div(a: Rat, b: Rat) -> Rat {
    rat_mul(a, rat_recip(b))
}

/// The squared magnitude of a complex value with real part `x` and imaginary
/// part `y`.
pub open spec fn rat_norm2(x: Rat, y: Rat) -> Rat {
    rat_add(rat_mul(x, x), rat_mul(y, y))
}

/// The phase, in half-turns, of the purely real value `r`: one half-turn
/// (i.e. pi radians) for a negative value, zero otherwise.
pub open spec fn rat_phase_of_real(r: Rat) -> Rat {
    if rat_is_neg(r) {
        rat_one()
    } else {
        rat_zero()
    }
}

/// `x` fits symmetrically in a 128-bit signed machine word, so that both `x`
/// and `-x` are representable.
pub open spec fn bounded(x: int) -> bool {
    -(i128::MAX as int) <= x <= i128::MAX as int
}

/// The machine-limit side condition under which [`crate::Scalar`] can compute
/// a sum: every intermediate product and the result fit.
pub open spec fn add_fits(a: Rat, b: Rat) -> bool {
    &&& bounded(a.n * b.d)
    &&& bounded(b.n * a.d)
    &&& bounded(a.n * b.d + b.n * a.d)
    &&& bounded(a.d * b.d)
}

/// The machine-limit side condition for a difference.
pub open spec fn sub_fits(a: Rat, b: Rat) -> bool {
    &&& bounded(a.n * b.d)
    &&& bounded(b.n * a.d)
    &&& bounded(a.n * b.d - b.n * a.d)
    &&& bounded(a.d * b.d)
}

/// The machine-limit side condition for a product.
pub open spec fn mul_fits(a: Rat, b: Rat) -> bool {
    &&& bounded(a.n * b.n)
    &&& bounded(a.d * b.d)
}

/// The machine-limit side condition for a quotient.
pub open spec fn div_fits(a: Rat, b: Rat) -> bool {
    mul_fits(a, rat_recip(b))
}

/// The machine-limit side condition for deciding [`rat_eq`].
pub open spec fn eq_fits(a: Rat, b: Rat) -> bool {
    &&& bounded(a.n * b.d)
    &&& bounded(b.n * a.d)
}

} // verus!
