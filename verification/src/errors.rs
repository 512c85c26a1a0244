//! Failure taxonomy: configuration errors are detected at construction
//! time, arithmetic range breaches abort a run.

use vstd::prelude::*;

verus! {

/// Why a construction or a run was refused.
#[derive(Clone, Copy, Debug, PartialEq, Eq, Structural)]
pub enum SimError {
    /// A potential parameter (sigma or epsilon) was not positive or too large.
    BadPotentialParams,
    /// Mie exponents must satisfy n > m > 0, be even, with (n - m) dividing m.
    BadMieExponents,
    /// The box side length must be positive and within range.
    BadBoxLength,
    /// The squared cutoff radius must be nonnegative.
    BadCutoff,
    /// The temperature must be positive and within range.
    BadTemperature,
    /// The maximum displacement must be nonnegative and within range.
    BadDisplacementRange,
    /// The particle system is empty or larger than the engine accepts.
    BadSystemSize,
    /// A trial move pushed a coordinate out of the representable range.
    CoordinateOverflow,
    /// The running energy accumulator left the representable range.
    EnergyOverflow,
}

} // verus!
