//! The purely real capability: any value that is a single real quantity.
//!
//! [`Numeric`] is the minimal required contract — one accessor returning the
//! real component — and [`Real`] derives every other accessor and the real
//! binary arithmetic from it through one blanket implementation: the
//! imaginary part of a purely real value is zero, its magnitude is the
//! absolute value of its real part, and its phase is half a turn (pi
//! radians) when the value is negative and zero otherwise.

use vstd::prelude::*;

use crate::cartesian::Cartesian;
use crate::number::Complex;
use crate::number::Number;
use crate::rat::Rat;
use crate::rat::add_fits;
use crate::rat::div_fits;
use crate::rat::mul_fits;
use crate::rat::rat_abs;
use crate::rat::rat_add;
use crate::rat::rat_div;
use crate::rat::rat_is_zero;
use crate::rat::rat_mul;
use crate::rat::rat_phase_of_real;
use crate::rat::rat_sub;
use crate::rat::rat_wf;
use crate::rat::rat_zero;
use crate::rat::sub_fits;
use crate::scalar::Scalar;

verus! {

/// A purely real quantity: the required part of the capability.
///
/// Implementers supply the exact rational model (`re`), its validity
/// (`inv`, `model_wf`) and the one native accessor; everything else is
/// derived by [`Real`].
pub trait Numeric: Sized {
    /// The inputs on which this value's accessors are defined; purely a
    /// machine-range condition for the types of this crate.
    spec fn inv(&self) -> bool;

    /// The value, in the exact rational model.
    spec fn re(&self) -> Rat;

    /// The model of a valid value is well formed.
    proof fn model_wf(&self)
        requires
            self.inv(),
        ensures
            rat_wf(self.re()),
    ;

    /// Returns the real part of this number.
    fn real_part(&self) -> (r: Scalar)
        requires
            self.inv(),
        ensures
            r.wf(),
            r@ == self.re(),
    ;
}

/// The derived part of the purely real capability: the remaining accessors
/// and binary arithmetic over real operands.
///
/// Every [`Numeric`] type is `Real` through the one blanket implementation
/// below, which fixes each operation's formula.
pub trait Real: Numeric {
    /// Returns the imaginary part of this number: zero, since the value is
    /// purely real.
    fn imag(&self) -> (r: Scalar)
        requires
            self.inv(),
        ensures
            r.wf(),
            r@ == rat_zero(),
    ;

    /// Computes the magnitude (absolute value) of this number.
    fn magnitude(&self) -> (r: Scalar)
        requires
            self.inv(),
        ensures
            r.wf(),
            r@ == rat_abs(self.re()),
    ;

    /// Computes the phase of the number, in half-turns (units of pi): one
    /// half-turn for a negative value, zero otherwise.
    fn phase(&self) -> (r: Scalar)
        requires
            self.inv(),
        ensures
            r.wf(),
            r@ == rat_phase_of_real(self.re()),
    ;

    /// Computes the sum of two real numbers.
    fn add_real<R: Numeric>(&self, rhs: R) -> (r: Scalar)
        requires
            self.inv(),
            rhs.inv(),
            add_fits(self.re(), rhs.re()),
        ensures
            r.wf(),
            r@ == rat_add(self.re(), rhs.re()),
    ;

    /// Computes the difference of two real numbers.
    fn sub_real<R: Numeric>(&self, rhs: R) -> (r: Scalar)
        requires
            self.inv(),
            rhs.inv(),
            sub_fits(self.re(), rhs.re()),
        ensures
            r.wf(),
            r@ == rat_sub(self.re(), rhs.re()),
    ;

    /// Computes the product of a real number and a complex number in
    /// cartesian form: the real value scales both components.
    fn cartesian_mul<N: Complex>(&self, rhs: N) -> (r: Cartesian<Scalar, Scalar>)
        requires
            self.inv(),
            rhs.inv(),
            mul_fits(self.re(), rhs.re()),
            mul_fits(self.re(), rhs.im()),
        ensures
            r.real.wf(),
            r.imag.wf(),
            r.real@ == rat_mul(self.re(), rhs.re()),
            r.imag@ == rat_mul(self.re(), rhs.im()),
    ;

    /// Computes the product of two real numbers.
    fn mul_real<R: Numeric>(&self, rhs: R) -> (r: Scalar)
        requires
            self.inv(),
            rhs.inv(),
            mul_fits(self.re(), rhs.re()),
        ensures
            r.wf(),
            r@ == rat_mul(self.re(), rhs.re()),
    ;

    /// Computes the quotient of two real numbers; the divisor must not be
    /// zero, since the exact model has no infinity to return.
    fn div_real<R: Numeric>(&self, rhs: R) -> (r: Scalar)
        requires
            self.inv(),
            rhs.inv(),
            !rat_is_zero(rhs.re()),
            div_fits(self.re(), rhs.re()),
        ensures
            r.wf(),
            r@ == rat_div(self.re(), rhs.re()),
    ;
}

impl<T: Numeric> Real for T {
    fn imag(&self) -> (r: Scalar) {
        Scalar::zero()
    }

    fn magnitude(&self) -> (r: Scalar) {
        self.real_part().abs()
    }

    fn phase(&self) -> (r: Scalar) {
        if self.real_part().is_neg() {
            Scalar::one()
        } else {
            Scalar::zero()
        }
    }

    fn add_real<R: Numeric>(&self, rhs: R) -> (r: Scalar) {
        self.real_part().plus(&rhs.real_part())
    }

    fn sub_real<R: Numeric>(&self, rhs: R) -> (r: Scalar) {
        self.real_part().minus(&rhs.real_part())
    }

    fn cartesian_mul<N: Complex>(&self, rhs: N) -> (r: Cartesian<Scalar, Scalar>) {
        let s = self.real_part();
        Cartesian { real: s.times(&rhs.real_part()), imag: s.times(&rhs.imag()) }
    }

    fn mul_real<R: Numeric>(&self, rhs: R) -> (r: Scalar) {
        self.real_part().times(&rhs.real_part())
    }

    fn div_real<R: Numeric>(&self, rhs: R) -> (r: Scalar) {
        self.real_part().over(&rhs.real_part())
    }
}

/// A scalar is its own real part.
impl Numeric for Scalar {
    open spec fn inv(&self) -> bool {
        self.wf()
    }

    open spec fn re(&self) -> Rat {
        self@
    }

    proof fn model_wf(&self) {
    }

    fn real_part(&self) -> (r: Scalar) {
        *self
    }
}

/// A borrowed handle to a real value is itself real, by forwarding to the
/// referenced value unchanged.
impl<T: Numeric> Numeric for &T {
    open spec fn inv(&self) -> bool {
        (**self).inv()
    }

    open spec fn re(&self) -> Rat {
        (**self).re()
    }

    proof fn model_wf(&self) {
        (**self).model_wf();
    }

    /// Returns the real part of this number.
    fn real_part(&self) -> (r: Scalar) {
        (**self).real_part()
    }
}

/// A 64-bit signed integer is the real number it denotes.
impl Numeric for i64 {
    open spec fn inv(&self) -> bool {
        true
    }

    open spec fn re(&self) -> Rat {
        Rat { n: *self as int, d: 1 }
    }

    proof fn model_wf(&self) {
    }

    fn real_part(&self) -> (r: Scalar) {
        Scalar { num: *self as i128, den: 1 }
    }
}

/// An 8-bit unsigned integer is the real number it denotes.
impl Numeric for u8 {
    open spec fn inv(&self) -> bool {
        true
    }

    open spec fn re(&self) -> Rat {
        Rat { n: *self as int, d: 1 }
    }

    proof fn model_wf(&self) {
    }

    fn real_part(&self) -> (r: Scalar) {
        Scalar { num: *self as i128, den: 1 }
    }
}

/// A 16-bit unsigned integer is the real number it denotes.
impl Numeric for u16 {
    open spec fn inv(&self) -> bool {
        true
    }

    open spec fn re(&self) -> Rat {
        Rat { n: *self as int, d: 1 }
    }

    proof fn model_wf(&self) {
    }

    fn real_part(&self) -> (r: Scalar) {
        Scalar { num: *self as i128, den: 1 }
    }
}

/// A 32-bit unsigned integer is the real number it denotes.
impl Numeric for u32 {
    open spec fn inv(&self) -> bool {
        true
    }

    open spec fn re(&self) -> Rat {
        Rat { n: *self as int, d: 1 }
    }

    proof fn model_wf(&self) {
    }

    fn real_part(&self) -> (r: Scalar) {
        Scalar { num: *self as i128, den: 1 }
    }
}

/// A 64-bit unsigned integer is the real number it denotes.
impl Numeric for u64 {
    open spec fn inv(&self) -> bool {
        true
    }

    open spec fn re(&self) -> Rat {
        Rat { n: *self as int, d: 1 }
    }

    proof fn model_wf(&self) {
    }

    fn real_part(&self) -> (r: Scalar) {
        Scalar { num: *self as i128, den: 1 }
    }
}

/// A 128-bit unsigned integer is the real number it denotes, where it fits the scalar's numerator.
impl Numeric for u128 {
    open spec fn inv(&self) -> bool {
        *self <= i128::MAX as u128
    }

    open spec fn re(&self) -> Rat {
        Rat { n: *self as int, d: 1 }
    }

    proof fn model_wf(&self) {
    }

    fn real_part(&self) -> (r: Scalar) {
        Scalar { num: *self as i128, den: 1 }
    }
}

/// An 8-bit signed integer is the real number it denotes.
impl Numeric for i8 {
    open spec fn inv(&self) -> bool {
        true
    }

    open spec fn re(&self) -> Rat {
        Rat { n: *self as int, d: 1 }
    }

    proof fn model_wf(&self) {
    }

    fn real_part(&self) -> (r: Scalar) {
        Scalar { num: *self as i128, den: 1 }
    }
}

/// A 16-bit signed integer is the real number it denotes.
impl Numeric for i16 {
    open spec fn inv(&self) -> bool {
        true
    }

    open spec fn re(&self) -> Rat {
        Rat { n: *self as int, d: 1 }
    }

    proof fn model_wf(&self) {
    }

    fn real_part(&self) -> (r: Scalar) {
        Scalar { num: *self as i128, den: 1 }
    }
}

/// A 32-bit signed integer is the real number it denotes.
impl Numeric for i32 {
    open spec fn inv(&self) -> bool {
        true
    }

    open spec fn re(&self) -> Rat {
        Rat { n: *self as int, d: 1 }
    }

    proof fn model_wf(&self) {
    }

    fn real_part(&self) -> (r: Scalar) {
        Scalar { num: *self as i128, den: 1 }
    }
}

/// A 128-bit signed integer is the real number it denotes, where its negation also fits the scalar's numerator.
impl Numeric for i128 {
    open spec fn inv(&self) -> bool {
        *self > i128::MIN
    }

    open spec fn re(&self) -> Rat {
        Rat { n: *self as int, d: 1 }
    }

    proof fn model_wf(&self) {
    }

    fn real_part(&self) -> (r: Scalar) {
        Scalar { num: *self, den: 1 }
    }
}

/// A pointer-sized unsigned integer is the real number it denotes.
impl Numeric for usize {
    open spec fn inv(&self) -> bool {
        true
    }

    open spec fn re(&self) -> Rat {
        Rat { n: *self as int, d: 1 }
    }

    proof fn model_wf(&self) {
    }

    fn real_part(&self) -> (r: Scalar) {
        Scalar { num: *self as i128, den: 1 }
    }
}

/// A pointer-sized signed integer is the real number it denotes.
impl Numeric for isize {
    open spec fn inv(&self) -> bool {
        true
    }

    open spec fn re(&self) -> Rat {
        Rat { n: *self as int, d: 1 }
    }

    proof fn model_wf(&self) {
    }

    fn real_part(&self) -> (r: Scalar) {
        Scalar { num: *self as i128, den: 1 }
    }
}

} // verus!
