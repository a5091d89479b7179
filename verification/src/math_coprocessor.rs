//! Hardware-agnostic math-coprocessor API for the trigonometric functions a
//! Cortex-M FPU does not implement. Every angle or ratio is a fraction of a
//! half-turn held in a [`SymmetricUnitInterval`], which wraps at `[-1, 1)`
//! the way an angle wraps at `±pi` radians.
use vstd::prelude::*;
use crate::unit_interval::SymmetricUnitInterval;

verus! {

/// A function [`MathCoprocessorTrait::compute`] can evaluate.
#[derive(Debug, Clone, Copy, PartialEq, Eq, Structural)]
pub enum MathCoprocessorFunction {
    /// `SineCosine(arg)` computes `(sin(arg * pi), cos(arg * pi))`.
    SineCosine(SymmetricUnitInterval),
    /// Cartesian-to-polar conversion: `Phase(x, y)` computes
    /// `(atan2(y, x) / pi, sqrt(x*x + y*y))`, the modulus saturating at 1.
    Phase(SymmetricUnitInterval, SymmetricUnitInterval),
}

/// The interface of a math coprocessor: one computation in flight at a
/// time, started by [`Self::compute`] and collected by [`Self::result`].
pub trait MathCoprocessorTrait {
    /// The computation started and not yet collected, if any.
    spec fn in_flight(&self) -> Option<MathCoprocessorFunction>;

    /// Starts computing `function`. Only one computation may be in flight:
    /// the previous one must have been collected.
    fn compute(&mut self, function: MathCoprocessorFunction)
        requires
            old(self).in_flight() is None,
        ensures
            final(self).in_flight() == Some(function),
    ;

    /// Waits for the computation started by the last [`Self::compute`] and
    /// returns its two results (see [`MathCoprocessorFunction`]).
    fn result(&mut self) -> (results: (SymmetricUnitInterval, SymmetricUnitInterval))
        requires
            old(self).in_flight() is Some,
        ensures
            final(self).in_flight() is None,
    ;
}

} // verus!
