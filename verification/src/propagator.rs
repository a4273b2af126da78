//! Fixed-step propagators over any continuous dynamics: the explicit Euler
//! step and the classical four-stage Runge-Kutta step.
//!
//! Each propagator's specification twin states the step as an exact
//! composition of the dynamics' derivative specification with the
//! elementwise vector operations, so a caller knows precisely which value a
//! step produces.

use vstd::prelude::*;

use crate::algebra::{seq_add, seq_scale};
use crate::dynamics::{ContinuousDynamics, DiscreteDynamics};
use crate::force::Force;
use crate::scalar::Scalar;
use crate::state::StateVector;

verus! {

/// A fixed-step propagation scheme.  The propagator is a value type with no
/// internal state.
pub trait Propagator<S: Scalar, T: StateVector<S>, U: Force<S>, D: ContinuousDynamics<S, T, U>>:
    Sized {
    /// What one continuous step returns, on the flat views.
    spec fn prop_spec(&self, dynamics: D, x: Seq<S>, u: Seq<S>, dt: S) -> Seq<S>;

    /// One step of width `dt` from `state` under constant `input`.
    fn propagate_continuous(&self, state: &T, input: &U, dynamics: &D, dt: S) -> (r: T)
        requires
            dynamics.dyn_wf(),
            state.view_spec().len() == T::dim_spec(),
            input.view_spec().len() == U::dim_spec(),
        ensures
            r.view_spec() == self.prop_spec(*dynamics, state.view_spec(), input.view_spec(), dt),
            r.view_spec().len() == T::dim_spec(),
    ;

    /// One step of a discrete model: the model steps itself.
    fn propagate_discrete<DD: DiscreteDynamics<S, T, U>>(&self, state: &T, dynamics: &DD, dt: S) -> (r:
        T)
        requires
            dynamics.step_wf(),
            state.view_spec().len() == T::dim_spec(),
        ensures
            r.view_spec() == dynamics.step_spec(state.view_spec(), dt),
            r.view_spec().len() == T::dim_spec(),
    {
        dynamics.step(state, dt)
    }

    /// A fresh propagator value.
    fn new() -> Self;
}

/// The explicit Euler scheme: `x + h * f(x, u, t)`.
#[derive(Clone)]
pub struct EulerPropagator;

impl<S: Scalar, T: StateVector<S>, U: Force<S>, D: ContinuousDynamics<S, T, U>> Propagator<
    S,
    T,
    U,
    D,
> for EulerPropagator {
    /// `x + dt * f(x, u)`.
    open spec fn prop_spec(&self, dynamics: D, x: Seq<S>, u: Seq<S>, dt: S) -> Seq<S> {
        seq_add(x, seq_scale(dynamics.deriv_spec(x, u), dt))
    }

    fn propagate_continuous(&self, state: &T, input: &U, dynamics: &D, dt: S) -> (r: T) {
        let derivative = dynamics.compute_derivative(state, input);
        state.add_vec(&derivative.mul_scalar(dt))
    }

    fn new() -> Self {
        EulerPropagator
    }
}

/// The classical four-stage Runge-Kutta scheme with midpoint evaluations at
/// `dt / 2` and endpoint at `dt`, constant input across stages.
#[derive(Clone)]
pub struct RungeKutta4Propagator;

impl<S: Scalar, T: StateVector<S>, U: Force<S>, D: ContinuousDynamics<S, T, U>> Propagator<
    S,
    T,
    U,
    D,
> for RungeKutta4Propagator {
    /// `x + (k1 + 2*k2 + 2*k3 + k4) * dt/6` with the four standard stages.
    open spec fn prop_spec(&self, dynamics: D, x: Seq<S>, u: Seq<S>, dt: S) -> Seq<S> {
        let two = S::from_usize_spec(2);
        let six = S::from_usize_spec(6);
        let half_dt = dt.div_spec(two);
        let k1 = dynamics.deriv_spec(x, u);
        let k2 = dynamics.deriv_spec(seq_add(x, seq_scale(k1, half_dt)), u);
        let k3 = dynamics.deriv_spec(seq_add(x, seq_scale(k2, half_dt)), u);
        let k4 = dynamics.deriv_spec(seq_add(x, seq_scale(k3, dt)), u);
        let combined = seq_add(seq_add(seq_add(k1, seq_scale(k2, two)), seq_scale(k3, two)), k4);
        seq_add(x, seq_scale(combined, dt.div_spec(six)))
    }

    fn propagate_continuous(&self, state: &T, input: &U, dynamics: &D, dt: S) -> (r: T) {
        let two = S::from_usize(2);
        let six = S::from_usize(6);
        let half_dt = dt.div(two);
        let k1 = dynamics.compute_derivative(state, input);
        let k2 = dynamics.compute_derivative(&state.add_vec(&k1.mul_scalar(half_dt)), input);
        let k3 = dynamics.compute_derivative(&state.add_vec(&k2.mul_scalar(half_dt)), input);
        let k4 = dynamics.compute_derivative(&state.add_vec(&k3.mul_scalar(dt)), input);
        let combined = k1.add_vec(&k2.mul_scalar(two)).add_vec(&k3.mul_scalar(two)).add_vec(&k4);
        state.add_vec(&combined.mul_scalar(dt.div(six)))
    }

    fn new() -> Self {
        RungeKutta4Propagator
    }
}

} // verus!
