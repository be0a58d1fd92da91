//! A small polymorphic numeric layer: a `Real` capability for purely real
//! quantities and a `Number` capability for two-component complex quantities,
//! together with the two concrete composite representations `Cartesian`
//! (real/imaginary axes) and `Polar` (magnitude/phase axes).
//!
//! Every quantity is modelled by an exact rational value ([`Rat`]), and
//! every operation carries a contract that pins its result down in that model.
//! Phases are measured in half-turns (units of pi), so that the phase of a
//! purely real value (0 for non-negative, pi for negative) is exactly
//! representable.

mod cartesian;
mod laws;
mod number;
mod numeric;
mod polar;
mod rat;
mod scalar;

pub use cartesian::Cartesian;
pub use laws::lemma_cartesian_mul_magnitude;
pub use laws::lemma_div_inverts_mul;
pub use laws::lemma_products_agree;
pub use laws::lemma_ref_forwards_complex;
pub use laws::lemma_ref_forwards_real;
pub use number::Complex;
pub use number::Number;
pub use number::cartesian_mul_fits;
pub use numeric::Numeric;
pub use numeric::Real;
pub use polar::Polar;
pub use rat::Rat;
pub use rat::add_fits;
pub use rat::bounded;
pub use rat::div_fits;
pub use rat::eq_fits;
pub use rat::mul_fits;
pub use rat::rat_abs;
pub use rat::rat_add;
pub use rat::rat_div;
pub use rat::rat_eq;
pub use rat::rat_int;
pub use rat::rat_is_neg;
pub use rat::rat_is_zero;
pub use rat::rat_mul;
pub use rat::rat_neg;
pub use rat::rat_norm2;
pub use rat::rat_one;
pub use rat::rat_phase_of_real;
pub use rat::rat_recip;
pub use rat::rat_sub;
pub use rat::rat_wf;
pub use rat::rat_zero;
pub use rat::sub_fits;
pub use scalar::Scalar;
