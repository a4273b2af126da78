//! The disturbance interface: a model maps the current plant state to a
//! perturbing input.  The concrete models (oblateness, rarefied-atmosphere
//! drag) depend on transcendental functions and are supplied by the
//! caller; the driver sums their outputs with the commanded control.

use vstd::prelude::*;

use crate::force::Force;
use crate::scalar::Scalar;
use crate::state::StateVector;

verus! {

/// A disturbance model over the plant's state and force types.
pub trait DisturbanceCalculator<S: Scalar, T: StateVector<S>, U: Force<S>> {
    /// The perturbing input at the given plant state.
    fn calc_force(&self, state: &T) -> U;
}

} // verus!
