//! The optimiser's extended state: a running cost value prepended to a
//! base state, together with the dynamics wrapper that advances both — the
//! cost component integrates the stage cost while the base dynamics
//! advances the plant part.

use vstd::prelude::*;

use crate::algebra::vec_slice;
use crate::cost::Cost;
use crate::dynamics::ContinuousDynamics;
use crate::force::Force;
use crate::scalar::Scalar;
use crate::state::StateVector;

verus! {

/// A base state with a cost value prepended: the flat vector is
/// `[cost, base...]`.
#[derive(Clone)]
pub struct ModeState<S, T> {
    /// The flat components, cost first.
    pub combined: Vec<S>,
    /// The cost component, kept in step with `combined[0]`.
    pub cost_values: S,
    /// The base state, kept in step with the tail of `combined`.
    pub original_state: T,
}

impl<S: Scalar, T: StateVector<S>> ModeState<S, T> {
    /// Prepends a cost value to a base state.
    pub fn new(cost_values: S, original_state: T) -> (r: Self)
        requires
            original_state.view_spec().len() == T::dim_spec(),
        ensures
            r.view_spec() == seq![cost_values] + original_state.view_spec(),
            r.cost_values == cost_values,
            r.original_state == original_state,
    {
        let mut combined: Vec<S> = Vec::new();
        combined.push(cost_values);
        let mut tail = crate::algebra::vec_copy(original_state.get_vector());
        combined.append(&mut tail);
        proof {
            assert(combined@ =~= seq![cost_values] + original_state.view_spec());
        }
        ModeState { combined, cost_values, original_state }
    }

    /// The cost component.
    pub fn get_cost_values(&self) -> (r: S)
        ensures
            r == self.cost_values,
    {
        self.cost_values
    }

    /// The base state.
    pub fn get_original_state(&self) -> (r: &T)
        ensures
            *r == self.original_state,
    {
        &self.original_state
    }
}

impl<S: Scalar, T: StateVector<S>> StateVector<S> for ModeState<S, T> {
    open spec fn view_spec(&self) -> Seq<S> {
        self.combined@
    }

    /// One more than the base dimension, for the cost component; at the
    /// very top of the address space the extra slot cannot exist and the
    /// dimension stays put.
    open spec fn dim_spec() -> nat {
        if T::dim_spec() >= usize::MAX {
            T::dim_spec()
        } else {
            1 + T::dim_spec()
        }
    }

    fn dim() -> (n: usize) {
        let base = T::dim();
        if base == usize::MAX {
            base
        } else {
            base + 1
        }
    }

    fn get_vector(&self) -> (r: &Vec<S>) {
        &self.combined
    }

    /// Splitting the flat vector keeps the named components in step: the
    /// cost component is the leading entry and the base state carries the
    /// tail, so packing and unpacking are mutually inverse.
    fn form_from_array(vec: Vec<S>) -> (r: Self)
        ensures
            r.cost_values == vec@[0],
            T::dim_spec() < usize::MAX ==> r.original_state.view_spec() == vec@.subrange(
                1,
                vec@.len() as int,
            ),
    {
        let cost_values = vec[0];
        let n = vec.len();
        let base_dim = T::dim();
        let original_state = if base_dim == usize::MAX {
            T::form_from_array(vec_slice(&vec, 0, n))
        } else {
            T::form_from_array(vec_slice(&vec, 1, n))
        };
        ModeState { combined: vec, cost_values, original_state }
    }
}

/// A dynamics model for the extended state: the cost component's
/// derivative is the stage cost, and the base component's derivative
/// comes from the wrapped model.
pub struct ModeDynamics<S, U, C, D> {
    /// The stage cost integrated into the leading component.
    pub cost_function: C,
    /// The dynamics of the base state.
    pub base_dynamics: D,
    /// Marks the scalar and force types the wrapped pair works over.
    pub marker: core::marker::PhantomData<(S, U)>,
}

impl<S: Scalar, U: Force<S>, C, D> ModeDynamics<S, U, C, D> {
    /// Wraps a cost and a base model.
    pub fn new(cost_function: C, base_dynamics: D) -> (r: Self)
        ensures
            r.cost_function == cost_function,
            r.base_dynamics == base_dynamics,
    {
        ModeDynamics { cost_function, base_dynamics, marker: core::marker::PhantomData }
    }
}

impl<
    S: Scalar,
    T: StateVector<S>,
    U: Force<S>,
    C: Cost<S, T, U>,
    D: ContinuousDynamics<S, T, U>,
> ContinuousDynamics<S, ModeState<S, T>, U> for ModeDynamics<S, U, C, D> {
    /// The wrapped pair is well formed, over a base state that leaves room
    /// for the cost component.
    open spec fn dyn_wf(&self) -> bool {
        self.cost_function.cost_wf() && self.base_dynamics.dyn_wf() && T::dim_spec()
            < usize::MAX
    }

    /// `[l(base, u), f(base, u)...]` where `base` is the flat state
    /// without its leading cost component.
    open spec fn deriv_spec(&self, x: Seq<S>, u: Seq<S>) -> Seq<S> {
        let base = x.subrange(1, x.len() as int);
        seq![self.cost_function.stage_cost_spec(base, u)] + self.base_dynamics.deriv_spec(base, u)
    }

    fn compute_derivative(&self, mode_state: &ModeState<S, T>, input: &U) -> (r: ModeState<S, T>) {
        let n = mode_state.combined.len();
        let original_state = T::form_from_array(vec_slice(&mode_state.combined, 1, n));
        let cost_derivative = self.cost_function.stage_cost(&original_state, input);
        let state_derivative = self.base_dynamics.compute_derivative(&original_state, input);
        ModeState::new(cost_derivative, state_derivative)
    }
}

} // verus!
