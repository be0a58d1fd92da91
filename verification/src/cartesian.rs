//! The cartesian representation of a complex quantity: a holder for the real
//! axis and a holder for the imaginary axis.

use vstd::prelude::*;

use crate::number::Complex;
use crate::rat::Rat;
use crate::scalar::Scalar;

verus! {

/// A complex value stored as its real and imaginary components.
///
/// Each component may itself be any [`Complex`] value; the composite reads only the
/// *real* part of each component, so the second field acts purely as a scale
/// factor on the imaginary unit (any imaginary component of the `imag` field
/// itself is deliberately discarded). Equality, ordering and hashing are
/// structural (field-wise) and only meaningful when the components are
/// themselves comparable or hashable.
#[derive(Clone, Copy, Debug, Default, Hash, PartialEq, Eq, PartialOrd, Ord)]
pub struct Cartesian<R = Scalar, I = R> {
    /// The real-axis holder.
    pub real: R,
    /// The imaginary-axis holder.
    pub imag: I,
}

impl<R: Complex, I: Complex> Complex for Cartesian<R, I> {
    open spec fn inv(&self) -> bool {
        self.real.inv() && self.imag.inv()
    }

    open spec fn re(&self) -> Rat {
        self.real.re()
    }

    open spec fn im(&self) -> Rat {
        self.imag.re()
    }

    proof fn model_wf(&self) {
        self.real.model_wf();
        self.imag.model_wf();
    }

    fn real_part(&self) -> (r: Scalar) {
        self.real.real_part()
    }

    fn imag(&self) -> (r: Scalar) {
        self.imag.real_part()
    }

}

} // verus!
