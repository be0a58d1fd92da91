//! The executable scalar of the library: an exact rational held as a
//! 128-bit numerator over a positive 128-bit denominator.
//!
//! `Scalar` plays the role a double-precision float plays in an inexact
//! numeric tower: it is what every accessor of the numeric capabilities
//! returns. Each arithmetic operation states the exact representation it
//! produces in the [`Rat`] model; the `*_fits` preconditions are pure
//! machine-word limits, not mathematical ones.

use vstd::prelude::*;

use crate::rat::Rat;
use crate::rat::add_fits;
use crate::rat::div_fits;
use crate::rat::eq_fits;
use crate::rat::mul_fits;
use crate::rat::rat_abs;
use crate::rat::rat_add;
use crate::rat::rat_div;
use crate::rat::rat_eq;
use crate::rat::rat_int;
use crate::rat::rat_is_neg;
use crate::rat::rat_is_zero;
use crate::rat::rat_mul;
use crate::rat::rat_neg;
use crate::rat::rat_one;
use crate::rat::rat_recip;
use crate::rat::rat_sub;
use crate::rat::rat_zero;
use crate::rat::sub_fits;

verus! {

/// An exact rational scalar: `num / den`.
///
/// Equality and hashing of the *representation* are structural (field-wise);
/// mathematical equality of the denoted values is [`rat_eq`], decided
/// executably by [`Scalar::eqv`].
#[derive(Clone, Copy, Debug, PartialEq, Eq, Hash)]
pub struct Scalar {
    /// Numerator.
    pub num: i128,
    /// Denominator; positive for well-formed scalars.
    pub den: i128,
}

/// The default scalar is zero.
impl Default for Scalar {
    fn default() -> (r: Scalar)
        ensures
            r.wf(),
            r@ == rat_zero(),
    {
        Scalar { num: 0, den: 1 }
    }
}

impl View for Scalar {
    type V = Rat;

    open spec fn view(&self) -> Rat {
        Rat { n: self.num as int, d: self.den as int }
    }
}

impl Scalar {
    /// A scalar is well formed when its denominator is positive and its
    /// numerator is symmetric-range (so negation never overflows).
    pub open spec fn wf(&self) -> bool {
        self.den > 0 && self.num > i128::MIN
    }

    /// The scalar denoting zero.
    pub fn zero() -> (r: Scalar)
        ensures
            r.wf(),
            r@ == rat_zero(),
    {
        Scalar { num: 0, den: 1 }
    }

    /// The scalar denoting one.
    pub fn one() -> (r: Scalar)
        ensures
            r.wf(),
            r@ == rat_one(),
    {
        Scalar { num: 1, den: 1 }
    }

    /// The scalar denoting the integer `n`.
    pub fn from_int(n: i64) -> (r: Scalar)
        ensures
            r.wf(),
            r@ == rat_int(n as int),
    {
        Scalar { num: n as i128, den: 1 }
    }

    /// The scalar `num / den`.
    pub fn new(num: i128, den: i128) -> (r: Scalar)
        requires
            den > 0,
            num > i128::MIN,
        ensures
            r.wf(),
            r@ == (Rat { n: num as int, d: den as int }),
    {
        Scalar { num, den }
    }

    /// Exact sum.
    pub fn plus(&self, o: &Scalar) -> (r: Scalar)
        requires
            self.wf(),
            o.wf(),
            add_fits(self@, o@),
        ensures
            r.wf(),
            r@ == rat_add(self@, o@),
    {
        let r = Scalar { num: self.num * o.den + o.num * self.den, den: self.den * o.den };
        proof {
            assert(self.den * o.den > 0) by (nonlinear_arith)
                requires
                    self.den > 0,
                    o.den > 0,
            ;
        }
        r
    }

    /// Exact difference.
    pub fn minus(&self, o: &Scalar) -> (r: Scalar)
        requires
            self.wf(),
            o.wf(),
            sub_fits(self@, o@),
        ensures
            r.wf(),
            r@ == rat_sub(self@, o@),
    {
        let r = Scalar { num: self.num * o.den - o.num * self.den, den: self.den * o.den };
        proof {
            assert(self.den * o.den > 0) by (nonlinear_arith)
                requires
                    self.den > 0,
                    o.den > 0,
            ;
        }
        r
    }

    /// Exact product.
    pub fn times(&self, o: &Scalar) -> (r: Scalar)
        requires
            self.wf(),
            o.wf(),
            mul_fits(self@, o@),
        ensures
            r.wf(),
            r@ == rat_mul(self@, o@),
    {
        let r = Scalar { num: self.num * o.num, den: self.den * o.den };
        proof {
            assert(self.den * o.den > 0) by (nonlinear_arith)
                requires
                    self.den > 0,
                    o.den > 0,
            ;
        }
        r
    }

    /// Exact reciprocal of a non-zero scalar.
    pub fn recip(&self) -> (r: Scalar)
        requires
            self.wf(),
            !rat_is_zero(self@),
        ensures
            r.wf(),
            r@ == rat_recip(self@),
    {
        if self.num < 0 {
            Scalar { num: -self.den, den: -self.num }
        } else {
            Scalar { num: self.den, den: self.num }
        }
    }

    /// Exact quotient by a non-zero scalar.
    pub fn over(&self, o: &Scalar) -> (r: Scalar)
        requires
            self.wf(),
            o.wf(),
            !rat_is_zero(o@),
            div_fits(self@, o@),
        ensures
            r.wf(),
            r@ == rat_div(self@, o@),
    {
        self.times(&o.recip())
    }

    /// Exact negation.
    pub fn neg(&self) -> (r: Scalar)
        requires
            self.wf(),
        ensures
            r.wf(),
            r@ == rat_neg(self@),
    {
        Scalar { num: -self.num, den: self.den }
    }

    /// Exact absolute value.
    pub fn abs(&self) -> (r: Scalar)
        requires
            self.wf(),
        ensures
            r.wf(),
            r@ == rat_abs(self@),
    {
        if self.num < 0 {
            Scalar { num: -self.num, den: self.den }
        } else {
            *self
        }
    }

    /// Whether the denoted value is strictly negative.
    pub fn is_neg(&self) -> (r: bool)
        requires
            self.wf(),
        ensures
            r == rat_is_neg(self@),
    {
        self.num < 0
    }

    /// Whether the denoted value is zero.
    pub fn is_zero(&self) -> (r: bool)
        requires
            self.wf(),
        ensures
            r == rat_is_zero(self@),
    {
        self.num == 0
    }

    /// Whether two scalars denote the same rational value, even when their
    /// representations differ.
    pub fn eqv(&self, o: &Scalar) -> (r: bool)
        requires
            self.wf(),
            o.wf(),
            eq_fits(self@, o@),
        ensures
            r == rat_eq(self@, o@),
    {
        self.num * o.den == o.num * self.den
    }
}

} // verus!
