//! The complex-capable capability: any value with a real and an imaginary
//! component, combined by binary arithmetic whose operands may have freely
//! differing concrete types.
//!
//! The capability is split in two. [`Complex`] is the minimal contract an
//! implementer supplies: the native real/imaginary pair and its model.
//! [`Number`] holds every derived binary operation, and a single blanket
//! implementation wires each of them to its fixed formula over the required
//! accessors, so a type implements `Complex` and receives `Number` for free.
//!
//! Addition, subtraction and cartesian multiplication are exact on the
//! real/imaginary pair and always return a [`Cartesian`] result. The
//! polar-form operations (multiply by multiplying magnitudes and adding
//! phases, divide by dividing and subtracting) are exact only on natively
//! polar data and live on [`crate::Polar`]; deriving a magnitude or a phase
//! from cartesian data takes a square root or an arctangent, which have no
//! exact rational form and belong to the floating-point layer outside the
//! verified library.

use vstd::prelude::*;

use crate::cartesian::Cartesian;
use crate::rat::Rat;
use crate::rat::add_fits;
use crate::rat::mul_fits;
use crate::rat::rat_add;
use crate::rat::rat_mul;
use crate::rat::rat_sub;
use crate::rat::rat_wf;
use crate::rat::rat_zero;
use crate::rat::sub_fits;
use crate::scalar::Scalar;

verus! {

/// The machine-limit side condition for a cartesian product of `a` and `b`:
/// each component product and the final combinations fit.
pub open spec fn cartesian_mul_fits(a_re: Rat, a_im: Rat, b_re: Rat, b_im: Rat) -> bool {
    &&& mul_fits(a_re, b_re)
    &&& mul_fits(a_im, b_im)
    &&& mul_fits(a_re, b_im)
    &&& mul_fits(a_im, b_re)
    &&& sub_fits(rat_mul(a_re, b_re), rat_mul(a_im, b_im))
    &&& add_fits(rat_mul(a_re, b_im), rat_mul(a_im, b_re))
}

/// A two-component (complex-capable) quantity: the required part of the
/// capability.
///
/// Implementers supply the exact rational model (`re`, `im`), its validity
/// (`inv`, `model_wf`) and the two native accessors; everything else is
/// derived by [`Number`].
pub trait Complex: Sized {
    /// The inputs on which this value's accessors are defined; purely a
    /// machine-range condition for the types of this crate.
    spec fn inv(&self) -> bool;

    /// The real component, in the exact rational model.
    spec fn re(&self) -> Rat;

    /// The imaginary component, in the exact rational model.
    spec fn im(&self) -> Rat;

    /// The model of a valid value is well formed.
    proof fn model_wf(&self)
        requires
            self.inv(),
        ensures
            rat_wf(self.re()),
            rat_wf(self.im()),
    ;

    /// Returns the real part of this number.
    fn real_part(&self) -> (r: Scalar)
        requires
            self.inv(),
        ensures
            r.wf(),
            r@ == self.re(),
    ;

    /// Returns the imaginary part of this number.
    fn imag(&self) -> (r: Scalar)
        requires
            self.inv(),
        ensures
            r.wf(),
            r@ == self.im(),
    ;
}

/// The derived part of the complex capability: binary arithmetic combining
/// the receiver with any other [`Complex`] operand.
///
/// Every [`Complex`] type is a `Number` through the one blanket
/// implementation below, which fixes each operation's formula.
pub trait Number: Complex {
    /// Computes the sum of two numbers: component-wise, always cartesian.
    fn add<N: Complex>(&self, rhs: N) -> (r: Cartesian<Scalar, Scalar>)
        requires
            self.inv(),
            rhs.inv(),
            add_fits(self.re(), rhs.re()),
            add_fits(self.im(), rhs.im()),
        ensures
            r.real.wf(),
            r.imag.wf(),
            r.real@ == rat_add(self.re(), rhs.re()),
            r.imag@ == rat_add(self.im(), rhs.im()),
    ;

    /// Computes the difference of two numbers: component-wise, always
    /// cartesian.
    fn sub<N: Complex>(&self, rhs: N) -> (r: Cartesian<Scalar, Scalar>)
        requires
            self.inv(),
            rhs.inv(),
            sub_fits(self.re(), rhs.re()),
            sub_fits(self.im(), rhs.im()),
        ensures
            r.real.wf(),
            r.imag.wf(),
            r.real@ == rat_sub(self.re(), rhs.re()),
            r.imag@ == rat_sub(self.im(), rhs.im()),
    ;

    /// Computes the product of two numbers in cartesian form:
    /// `(a + bi)(c + di) == (ac - bd) + (ad + bc)i`.
    fn cartesian_mul<N: Complex>(&self, rhs: N) -> (r: Cartesian<Scalar, Scalar>)
        requires
            self.inv(),
            rhs.inv(),
            cartesian_mul_fits(self.re(), self.im(), rhs.re(), rhs.im()),
        ensures
            r.real.wf(),
            r.imag.wf(),
            r.real@ == rat_sub(rat_mul(self.re(), rhs.re()), rat_mul(self.im(), rhs.im())),
            r.imag@ == rat_add(rat_mul(self.re(), rhs.im()), rat_mul(self.im(), rhs.re())),
    ;
}

impl<T: Complex> Number for T {
    fn add<N: Complex>(&self, rhs: N) -> (r: Cartesian<Scalar, Scalar>) {
        Cartesian { real: self.real_part().plus(&rhs.real_part()), imag: self.imag().plus(&rhs.imag()) }
    }

    fn sub<N: Complex>(&self, rhs: N) -> (r: Cartesian<Scalar, Scalar>) {
        Cartesian { real: self.real_part().minus(&rhs.real_part()), imag: self.imag().minus(&rhs.imag()) }
    }

    fn cartesian_mul<N: Complex>(&self, rhs: N) -> (r: Cartesian<Scalar, Scalar>) {
        let a = self.real_part();
        let b = self.imag();
        let c = rhs.real_part();
        let d = rhs.imag();
        Cartesian { real: a.times(&c).minus(&b.times(&d)), imag: a.times(&d).plus(&b.times(&c)) }
    }
}

/// A scalar is a purely real number: its imaginary part is zero.
impl Complex for Scalar {
    open spec fn inv(&self) -> bool {
        self.wf()
    }

    open spec fn re(&self) -> Rat {
        self@
    }

    open spec fn im(&self) -> Rat {
        rat_zero()
    }

    proof fn model_wf(&self) {
    }

    fn real_part(&self) -> (r: Scalar) {
        *self
    }

    fn imag(&self) -> (r: Scalar) {
        Scalar::zero()
    }
}

/// A borrowed handle to a complex-capable value is itself complex-capable,
/// by forwarding to the referenced value unchanged.
impl<T: Complex> Complex for &T {
    open spec fn inv(&self) -> bool {
        (**self).inv()
    }

    open spec fn re(&self) -> Rat {
        (**self).re()
    }

    open spec fn im(&self) -> Rat {
        (**self).im()
    }

    proof fn model_wf(&self) {
        (**self).model_wf();
    }

    /// Returns the real part of this number.
    fn real_part(&self) -> (r: Scalar) {
        (**self).real_part()
    }

    /// Returns the imaginary part of this number.
    fn imag(&self) -> (r: Scalar) {
        (**self).imag()
    }
}

/// A 64-bit signed integer is the purely real number it denotes.
impl Complex for i64 {
    open spec fn inv(&self) -> bool {
        true
    }

    open spec fn re(&self) -> Rat {
        Rat { n: *self as int, d: 1 }
    }

    open spec fn im(&self) -> Rat {
        rat_zero()
    }

    proof fn model_wf(&self) {
    }

    fn real_part(&self) -> (r: Scalar) {
        Scalar { num: *self as i128, den: 1 }
    }

    fn imag(&self) -> (r: Scalar) {
        Scalar::zero()
    }
}

/// An 8-bit unsigned integer is the purely real number it denotes.
impl Complex for u8 {
    open spec fn inv(&self) -> bool {
        true
    }

    open spec fn re(&self) -> Rat {
        Rat { n: *self as int, d: 1 }
    }

    open spec fn im(&self) -> Rat {
        rat_zero()
    }

    proof fn model_wf(&self) {
    }

    fn real_part(&self) -> (r: Scalar) {
        Scalar { num: *self as i128, den: 1 }
    }

    fn imag(&self) -> (r: Scalar) {
        Scalar::zero()
    }
}

/// A 16-bit unsigned integer is the purely real number it denotes.
impl Complex for u16 {
    open spec fn inv(&self) -> bool {
        true
    }

    open spec fn re(&self) -> Rat {
        Rat { n: *self as int, d: 1 }
    }

    open spec fn im(&self) -> Rat {
        rat_zero()
    }

    proof fn model_wf(&self) {
    }

    fn real_part(&self) -> (r: Scalar) {
        Scalar { num: *self as i128, den: 1 }
    }

    fn imag(&self) -> (r: Scalar) {
        Scalar::zero()
    }
}

/// A 32-bit unsigned integer is the purely real number it denotes.
impl Complex for u32 {
    open spec fn inv(&self) -> bool {
        true
    }

    open spec fn re(&self) -> Rat {
        Rat { n: *self as int, d: 1 }
    }

    open spec fn im(&self) -> Rat {
        rat_zero()
    }

    proof fn model_wf(&self) {
    }

    fn real_part(&self) -> (r: Scalar) {
        Scalar { num: *self as i128, den: 1 }
    }

    fn imag(&self) -> (r: Scalar) {
        Scalar::zero()
    }
}

/// A 64-bit unsigned integer is the purely real number it denotes.
impl Complex for u64 {
    open spec fn inv(&self) -> bool {
        true
    }

    open spec fn re(&self) -> Rat {
        Rat { n: *self as int, d: 1 }
    }

    open spec fn im(&self) -> Rat {
        rat_zero()
    }

    proof fn model_wf(&self) {
    }

    fn real_part(&self) -> (r: Scalar) {
        Scalar { num: *self as i128, den: 1 }
    }

    fn imag(&self) -> (r: Scalar) {
        Scalar::zero()
    }
}

/// A 128-bit unsigned integer is the purely real number it denotes, where it fits the scalar's numerator.
impl Complex for u128 {
    open spec fn inv(&self) -> bool {
        *self <= i128::MAX as u128
    }

    open spec fn re(&self) -> Rat {
        Rat { n: *self as int, d: 1 }
    }

    open spec fn im(&self) -> Rat {
        rat_zero()
    }

    proof fn model_wf(&self) {
    }

    fn real_part(&self) -> (r: Scalar) {
        Scalar { num: *self as i128, den: 1 }
    }

    fn imag(&self) -> (r: Scalar) {
        Scalar::zero()
    }
}

/// An 8-bit signed integer is the purely real number it denotes.
impl Complex for i8 {
    open spec fn inv(&self) -> bool {
        true
    }

    open spec fn re(&self) -> Rat {
        Rat { n: *self as int, d: 1 }
    }

    open spec fn im(&self) -> Rat {
        rat_zero()
    }

    proof fn model_wf(&self) {
    }

    fn real_part(&self) -> (r: Scalar) {
        Scalar { num: *self as i128, den: 1 }
    }

    fn imag(&self) -> (r: Scalar) {
        Scalar::zero()
    }
}

/// A 16-bit signed integer is the purely real number it denotes.
impl Complex for i16 {
    open spec fn inv(&self) -> bool {
        true
    }

    open spec fn re(&self) -> Rat {
        Rat { n: *self as int, d: 1 }
    }

    open spec fn im(&self) -> Rat {
        rat_zero()
    }

    proof fn model_wf(&self) {
    }

    fn real_part(&self) -> (r: Scalar) {
        Scalar { num: *self as i128, den: 1 }
    }

    fn imag(&self) -> (r: Scalar) {
        Scalar::zero()
    }
}

/// A 32-bit signed integer is the purely real number it denotes.
impl Complex for i32 {
    open spec fn inv(&self) -> bool {
        true
    }

    open spec fn re(&self) -> Rat {
        Rat { n: *self as int, d: 1 }
    }

    open spec fn im(&self) -> Rat {
        rat_zero()
    }

    proof fn model_wf(&self) {
    }

    fn real_part(&self) -> (r: Scalar) {
        Scalar { num: *self as i128, den: 1 }
    }

    fn imag(&self) -> (r: Scalar) {
        Scalar::zero()
    }
}

/// A 128-bit signed integer is the purely real number it denotes, where its negation also fits the scalar's numerator.
impl Complex for i128 {
    open spec fn inv(&self) -> bool {
        *self > i128::MIN
    }

    open spec fn re(&self) -> Rat {
        Rat { n: *self as int, d: 1 }
    }

    open spec fn im(&self) -> Rat {
        rat_zero()
    }

    proof fn model_wf(&self) {
    }

    fn real_part(&self) -> (r: Scalar) {
        Scalar { num: *self, den: 1 }
    }

    fn imag(&self) -> (r: Scalar) {
        Scalar::zero()
    }
}

/// A pointer-sized unsigned integer is the purely real number it denotes.
impl Complex for usize {
    open spec fn inv(&self) -> bool {
        true
    }

    open spec fn re(&self) -> Rat {
        Rat { n: *self as int, d: 1 }
    }

    open spec fn im(&self) -> Rat {
        rat_zero()
    }

    proof fn model_wf(&self) {
    }

    fn real_part(&self) -> (r: Scalar) {
        Scalar { num: *self as i128, den: 1 }
    }

    fn imag(&self) -> (r: Scalar) {
        Scalar::zero()
    }
}

/// A pointer-sized signed integer is the purely real number it denotes.
impl Complex for isize {
    open spec fn inv(&self) -> bool {
        true
    }

    open spec fn re(&self) -> Rat {
        Rat { n: *self as int, d: 1 }
    }

    open spec fn im(&self) -> Rat {
        rat_zero()
    }

    proof fn model_wf(&self) {
    }

    fn real_part(&self) -> (r: Scalar) {
        Scalar { num: *self as i128, den: 1 }
    }

    fn imag(&self) -> (r: Scalar) {
        Scalar::zero()
    }
}

} // verus!
