//! The mode catalogue: two parallel total mappings from mode identifiers to
//! dynamics and to costs, constructed together so that no partial catalogue
//! can exist.

use vstd::prelude::*;

use crate::cost::Cost;
use crate::dynamics::{ContinuousDynamics, Differentiable1d, Differentiable2d,
    InputDefinedDynamics};
use crate::force::Force;
use crate::scalar::Scalar;
use crate::schedule::ModeId;
use crate::state::StateVector;

verus! {

/// What a mode's dynamics must offer the optimiser: a derivative, a state
/// Jacobian, and the mode's constant input.
pub trait ContinuousDynamicsAndDifferentiable<S: Scalar, T: StateVector<S>, U: Force<S>>:
    ContinuousDynamics<S, T, U> + Differentiable2d<S, T, U> + InputDefinedDynamics<S, T, U> {
}

impl<S: Scalar, T: StateVector<S>, U: Force<S>, D> ContinuousDynamicsAndDifferentiable<
    S,
    T,
    U,
> for D where D: ContinuousDynamics<S, T, U> + Differentiable2d<S, T, U> + InputDefinedDynamics<
    S,
    T,
    U,
> {
}

/// What a mode's cost must offer the optimiser: stage and terminal costs
/// and their state gradient.
pub trait CostAndDifferentiable<S: Scalar, T: StateVector<S>, U: Force<S>>:
    Cost<S, T, U> + Differentiable1d<S, T, U> {
}

impl<S: Scalar, T: StateVector<S>, U: Force<S>, C> CostAndDifferentiable<S, T, U> for C where C:
    Cost<S, T, U> + Differentiable1d<S, T, U> {
}

/// The catalogue: mode `m` owns `dynamics_mapping[m]` and
/// `cost_mapping[m]`.  Lookup is total exactly on the indices below the
/// common length.
pub struct ModeDynamicsMap<D, C> {
    /// Mode index to dynamics.
    pub dynamics_mapping: Vec<D>,
    /// Mode index to cost.
    pub cost_mapping: Vec<C>,
}

impl<D, C> ModeDynamicsMap<D, C> {
    /// How many modes the catalogue holds.
    pub open spec fn num_modes_spec(&self) -> int {
        self.dynamics_mapping@.len() as int
    }

    /// Both mappings cover exactly the same modes.
    pub open spec fn complete_spec(&self) -> bool {
        self.dynamics_mapping@.len() == self.cost_mapping@.len()
    }

    /// Builds the catalogue; a partial catalogue (mappings of different
    /// lengths) is rejected at construction by the precondition.
    pub fn new(dynamics_mapping: Vec<D>, cost_mapping: Vec<C>) -> (r: Self)
        requires
            dynamics_mapping@.len() == cost_mapping@.len(),
        ensures
            r.dynamics_mapping == dynamics_mapping,
            r.cost_mapping == cost_mapping,
            r.complete_spec(),
    {
        ModeDynamicsMap { dynamics_mapping, cost_mapping }
    }

    /// How many modes the catalogue holds.
    pub fn num_modes(&self) -> (r: usize)
        ensures
            r == self.num_modes_spec(),
    {
        self.dynamics_mapping.len()
    }

    /// The dynamics of a mode: defined exactly on the catalogue's modes.
    pub fn get_dynamics(&self, mode: ModeId) -> (r: Option<&D>)
        ensures
            match r {
                Some(d) => mode.id < self.num_modes_spec() && *d
                    == self.dynamics_mapping@[mode.id as int],
                None => mode.id >= self.num_modes_spec(),
            },
    {
        if mode.id < self.dynamics_mapping.len() {
            Some(&self.dynamics_mapping[mode.id])
        } else {
            None
        }
    }

    /// The cost of a mode: defined exactly on the catalogue's modes.
    pub fn get_cost(&self, mode: ModeId) -> (r: Option<&C>)
        requires
            self.complete_spec(),
        ensures
            match r {
                Some(c) => mode.id < self.num_modes_spec() && *c
                    == self.cost_mapping@[mode.id as int],
                None => mode.id >= self.num_modes_spec(),
            },
    {
        if mode.id < self.cost_mapping.len() {
            Some(&self.cost_mapping[mode.id])
        } else {
            None
        }
    }
}

/// Full internal consistency of a catalogue: the mappings are parallel and
/// every model and cost in them is well formed.
pub open spec fn catalogue_wf<
    S: Scalar,
    T: StateVector<S>,
    U: Force<S>,
    D: ContinuousDynamicsAndDifferentiable<S, T, U>,
    C: CostAndDifferentiable<S, T, U>,
>(map: &ModeDynamicsMap<D, C>) -> bool {
    &&& map.complete_spec()
    &&& forall|i: int|
        0 <= i < map.num_modes_spec() ==> (#[trigger] map.dynamics_mapping@[i]).dyn_wf()
            && map.dynamics_mapping@[i].jac_wf() && map.dynamics_mapping@[i].input_wf()
    &&& forall|i: int|
        0 <= i < map.num_modes_spec() ==> (#[trigger] map.cost_mapping@[i]).cost_wf()
            && map.cost_mapping@[i].grad_wf()
}

} // verus!
