//! The polar representation of a complex quantity: a holder for the
//! magnitude axis and a holder for the phase axis.
//!
//! Phases are measured in half-turns (units of pi) and are not normalized:
//! multiplication adds phases and division subtracts them, exactly. The
//! polar-form operations live here, as inherent operations, because they are
//! exact only on natively polar data: deriving the real/imaginary pair from
//! magnitude and phase takes a cosine and a sine, which have no exact
//! rational form and belong to the floating-point layer outside the verified
//! library.

use vstd::prelude::*;

use crate::number::Complex;
use crate::rat::Rat;
use crate::rat::add_fits;
use crate::rat::div_fits;
use crate::rat::mul_fits;
use crate::rat::rat_add;
use crate::rat::rat_div;
use crate::rat::rat_is_zero;
use crate::rat::rat_mul;
use crate::rat::rat_sub;
use crate::rat::rat_wf;
use crate::rat::sub_fits;
use crate::scalar::Scalar;

verus! {

/// A complex value stored as its magnitude and its phase (in half-turns).
///
/// Each component may itself be any [`Complex`] value; the composite reads
/// only the *real* part of each component, so each field acts purely as a
/// real axis holder. Equality, ordering and hashing are structural
/// (field-wise) and only meaningful when the components are themselves
/// comparable or hashable.
#[derive(Clone, Copy, Debug, Default, Hash, PartialEq, Eq, PartialOrd, Ord)]
pub struct Polar<M = Scalar, P = M> {
    /// The magnitude-axis holder.
    pub magnitude: M,
    /// The phase-axis holder, in half-turns.
    pub phase: P,
}

impl<M: Complex, P: Complex> Polar<M, P> {
    /// The inputs on which this value's accessors are defined; purely a
    /// machine-range condition for the types of this crate.
    pub open spec fn inv(&self) -> bool {
        self.magnitude.inv() && self.phase.inv()
    }

    /// The magnitude, in the exact rational model.
    pub open spec fn mg(&self) -> Rat {
        self.magnitude.re()
    }

    /// The phase in half-turns, in the exact rational model.
    pub open spec fn ph(&self) -> Rat {
        self.phase.re()
    }

    /// The model of a valid value is well formed.
    pub proof fn model_wf(&self)
        requires
            self.inv(),
        ensures
            rat_wf(self.mg()),
            rat_wf(self.ph()),
    {
        self.magnitude.model_wf();
        self.phase.model_wf();
    }

    /// Computes the magnitude (absolute value) of this number.
    pub fn magnitude(&self) -> (r: Scalar)
        requires
            self.inv(),
        ensures
            r.wf(),
            r@ == self.mg(),
    {
        self.magnitude.real_part()
    }

    /// Computes the phase of this number, in half-turns.
    pub fn phase(&self) -> (r: Scalar)
        requires
            self.inv(),
        ensures
            r.wf(),
            r@ == self.ph(),
    {
        self.phase.real_part()
    }

    /// Computes the product of two numbers in polar form: magnitudes
    /// multiply and phases add.
    pub fn polar_mul<M2: Complex, P2: Complex>(&self, rhs: Polar<M2, P2>) -> (r: Polar<
        Scalar,
        Scalar,
    >)
        requires
            self.inv(),
            rhs.inv(),
            mul_fits(self.mg(), rhs.mg()),
            add_fits(self.ph(), rhs.ph()),
        ensures
            r.magnitude.wf(),
            r.phase.wf(),
            r.magnitude@ == rat_mul(self.mg(), rhs.mg()),
            r.phase@ == rat_add(self.ph(), rhs.ph()),
    {
        Polar {
            magnitude: self.magnitude().times(&rhs.magnitude()),
            phase: self.phase().plus(&rhs.phase()),
        }
    }

    /// Computes the product of two numbers: the canonical multiplication
    /// entry point, which always returns a polar result.
    pub fn mul<M2: Complex, P2: Complex>(&self, rhs: Polar<M2, P2>) -> (r: Polar<Scalar, Scalar>)
        requires
            self.inv(),
            rhs.inv(),
            mul_fits(self.mg(), rhs.mg()),
            add_fits(self.ph(), rhs.ph()),
        ensures
            r.magnitude.wf(),
            r.phase.wf(),
            r.magnitude@ == rat_mul(self.mg(), rhs.mg()),
            r.phase@ == rat_add(self.ph(), rhs.ph()),
    {
        self.polar_mul(rhs)
    }

    /// Computes the quotient of two numbers in polar form: magnitudes divide
    /// and phases subtract. The divisor's magnitude must not be zero, since
    /// the exact model has no infinity to return.
    pub fn div<M2: Complex, P2: Complex>(&self, rhs: Polar<M2, P2>) -> (r: Polar<Scalar, Scalar>)
        requires
            self.inv(),
            rhs.inv(),
            !rat_is_zero(rhs.mg()),
            div_fits(self.mg(), rhs.mg()),
            sub_fits(self.ph(), rhs.ph()),
        ensures
            r.magnitude.wf(),
            r.phase.wf(),
            r.magnitude@ == rat_div(self.mg(), rhs.mg()),
            r.phase@ == rat_sub(self.ph(), rhs.ph()),
    {
        Polar {
            magnitude: self.magnitude().over(&rhs.magnitude()),
            phase: self.phase().minus(&rhs.phase()),
        }
    }
}

} // verus!
