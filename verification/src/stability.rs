//! Atmospheric stability classification.

use vstd::prelude::*;

verus! {

/// Atmospheric stability classification.
#[derive(Debug, Clone, Copy, PartialEq, Eq, Structural)]
#[non_exhaustive]
pub enum StabilityClass {
    /// Environmental lapse < moist adiabatic → very stable (inversions)
    Stable,
    /// Environmental lapse between moist and dry adiabatic → conditionally unstable
    Neutral,
    /// Environmental lapse > dry adiabatic → absolutely unstable
    Unstable,
}

} // verus!
