//! The two sweeps of one optimiser iteration: the forward state sweep and
//! the backward adjoint (costate) sweep.
//!
//! Both carry exact recurrences as contracts: the forward sweep produces
//! `X[0] = x0`, `X[k+1] = propagate(X[k])` under the mode active at `k`;
//! the backward sweep produces `p[K] = grad Phi(X[K])` and
//! `p[k] = p[k+1] - dt * pdot(k)` with
//! `pdot(k) = -(Jf(X[k])^T p[k+1] + grad l(X[k]))`.  The sign convention —
//! transpose the Jacobian, add the stage-cost gradient, negate the total,
//! then take the backward Euler step — is pinned in
//! [`adjoint_derivative_spec`].

use vstd::prelude::*;

use crate::algebra::{seq_add, seq_scale, seq_zero, vecmat_data_spec};
use crate::catalogue::{catalogue_wf, ContinuousDynamicsAndDifferentiable, CostAndDifferentiable,
    ModeDynamicsMap};
use crate::force::Force;
use crate::propagator::Propagator;
use crate::scalar::Scalar;
use crate::schedule::{AdjointVariableSchedule, ModeId, ModeSchedule, StateSchedule};
use crate::state::StateVector;

verus! {

/// The views of a sequence of states.
pub open spec fn views_spec<S: Scalar, T: StateVector<S>>(ts: Seq<T>) -> Seq<Seq<S>> {
    Seq::new(ts.len(), |i: int| ts[i].view_spec())
}

/// `X[k]` of the forward sweep: `x0` advanced `k` steps, each under the
/// mode active at that step and zero external input.
pub open spec fn forward_sweep_spec<
    S: Scalar,
    T: StateVector<S>,
    U: Force<S>,
    D: ContinuousDynamicsAndDifferentiable<S, T, U>,
    P: Propagator<S, T, U, D>,
>(propagator: P, dynamics: Seq<D>, modes: Seq<ModeId>, x0: Seq<S>, dt: S, k: int) -> Seq<S>
    decreases k,
{
    if k <= 0 {
        x0
    } else {
        propagator.prop_spec(
            dynamics[modes[k - 1].id as int],
            forward_sweep_spec(propagator, dynamics, modes, x0, dt, k - 1),
            seq_zero::<S>(U::dim_spec()),
            dt,
        )
    }
}

/// The adjoint derivative at step `k`:
/// `-(Jf(x)^T p + grad l(x))`, evaluated at zero input and time `k * dt`.
pub open spec fn adjoint_derivative_spec<
    S: Scalar,
    T: StateVector<S>,
    U: Force<S>,
    D: ContinuousDynamicsAndDifferentiable<S, T, U>,
    C: CostAndDifferentiable<S, T, U>,
>(dynamics: Seq<D>, costs: Seq<C>, modes: Seq<ModeId>, p: Seq<S>, x: Seq<S>, k: int, dt: S) -> Seq<
    S,
> {
    let u0 = seq_zero::<S>(U::dim_spec());
    let t = S::from_usize_spec(k as usize).mul_spec(dt);
    let jac = dynamics[modes[k].id as int].jac_spec(x, u0, t);
    let grad = costs[modes[k].id as int].grad_spec(x, u0, false);
    let dim = T::dim_spec() as int;
    let neg_one = S::zero_spec().sub_spec(S::one_spec());
    seq_scale(seq_add(vecmat_data_spec(jac, dim, dim, p), grad), neg_one)
}

/// `p[k]` of the backward sweep over a horizon of `kk` steps.
pub open spec fn adjoint_sweep_spec<
    S: Scalar,
    T: StateVector<S>,
    U: Force<S>,
    D: ContinuousDynamicsAndDifferentiable<S, T, U>,
    C: CostAndDifferentiable<S, T, U>,
>(dynamics: Seq<D>, costs: Seq<C>, modes: Seq<ModeId>, xs: Seq<Seq<S>>, dt: S, kk: int, k: int) -> Seq<
    S,
>
    decreases kk - k,
{
    if k >= kk {
        costs[modes[kk - 1].id as int].grad_spec(xs[kk], seq_zero::<S>(U::dim_spec()), true)
    } else {
        let p_next = adjoint_sweep_spec::<S, T, U, D, C>(dynamics, costs, modes, xs, dt, kk, k + 1);
        let p_dot = adjoint_derivative_spec::<S, T, U, D, C>(
            dynamics,
            costs,
            modes,
            p_next,
            xs[k],
            k,
            dt,
        );
        let neg_dt = S::zero_spec().sub_spec(dt);
        seq_add(p_next, seq_scale(p_dot, neg_dt))
    }
}

/// The forward state sweep.
pub struct StateUpdater;

impl StateUpdater {
    /// Propagates `x0` across the whole window of `mode_schedule`,
    /// producing the `K + 1` states `X[0] .. X[K]` with `X[0] = x0`.
    pub fn new<
        S: Scalar,
        T: StateVector<S>,
        U: Force<S>,
        D: ContinuousDynamicsAndDifferentiable<S, T, U>,
        C: CostAndDifferentiable<S, T, U>,
        P: Propagator<S, T, U, D>,
    >(
        x0: &T,
        mode_schedule: &ModeSchedule,
        mode_dynamics_map: &ModeDynamicsMap<D, C>,
        propagator: &P,
        dt: S,
    ) -> (r: StateSchedule<T>)
        requires
            x0.view_spec().len() == T::dim_spec(),
            catalogue_wf(mode_dynamics_map),
            mode_schedule.in_catalogue_spec(mode_dynamics_map.num_modes_spec()),
        ensures
            r.start_spec() == 0,
            r.states_spec().len() == mode_schedule.modes_spec().len() + 1,
            forall|k: int|
                0 <= k <= mode_schedule.modes_spec().len() ==> (
                #[trigger] r.states_spec()[k].view_spec()) == forward_sweep_spec::<S, T, U, D, P>(
                    *propagator,
                    mode_dynamics_map.dynamics_mapping@,
                    mode_schedule.modes_spec(),
                    x0.view_spec(),
                    dt,
                    k,
                ),
            forall|k: int|
                0 <= k <= mode_schedule.modes_spec().len() ==> (
                #[trigger] r.states_spec()[k].view_spec()).len() == T::dim_spec(),
    {
        let ghost dyns = mode_dynamics_map.dynamics_mapping@;
        let ghost modes = mode_schedule.modes_spec();
        let ghost x0v = x0.view_spec();
        let n = mode_schedule.len();
        let u_zero = U::zeros();
        let mut states: Vec<T> = Vec::new();
        states.push(x0.duplicate());
        let mut k: usize = 0;
        while k < n
            invariant
                n == modes.len(),
                dyns == mode_dynamics_map.dynamics_mapping@,
                modes == mode_schedule.modes_spec(),
                x0v == x0.view_spec(),
                x0v.len() == T::dim_spec(),
                catalogue_wf(mode_dynamics_map),
                mode_schedule.in_catalogue_spec(mode_dynamics_map.num_modes_spec()),
                u_zero.view_spec() == seq_zero::<S>(U::dim_spec()),
                k <= n,
                states@.len() == k + 1,
                forall|j: int|
                    0 <= j <= k ==> (#[trigger] states@[j].view_spec()) == forward_sweep_spec::<
                        S,
                        T,
                        U,
                        D,
                        P,
                    >(*propagator, dyns, modes, x0v, dt, j),
                forall|j: int|
                    0 <= j <= k ==> (#[trigger] states@[j].view_spec()).len() == T::dim_spec(),
            decreases n - k,
        {
            let mode = mode_schedule.modes[k];
            assert(mode.id < mode_dynamics_map.num_modes_spec());
            let dynamics = mode_dynamics_map.get_dynamics(mode).unwrap();
            let new_state = propagator.propagate_continuous(&states[k], &u_zero, dynamics, dt);
            proof {
                assert(forward_sweep_spec::<S, T, U, D, P>(*propagator, dyns, modes, x0v, dt, (
                k + 1) as int) == propagator.prop_spec(
                    dyns[modes[k as int].id as int],
                    forward_sweep_spec::<S, T, U, D, P>(*propagator, dyns, modes, x0v, dt, k as int),
                    seq_zero::<S>(U::dim_spec()),
                    dt,
                ));
            }
            states.push(new_state);
            k = k + 1;
        }
        StateSchedule::new(0, n, states)
    }
}

/// The backward adjoint sweep.
pub struct AdjointVariableUpdater;

impl AdjointVariableUpdater {
    /// Integrates the costate backwards across the window: the terminal
    /// cost's gradient seeds `p[K]`, and each step applies the backward
    /// Euler update with the pinned sign convention.
    pub fn new<
        S: Scalar,
        T: StateVector<S>,
        U: Force<S>,
        D: ContinuousDynamicsAndDifferentiable<S, T, U>,
        C: CostAndDifferentiable<S, T, U>,
    >(
        states: &StateSchedule<T>,
        mode_schedule: &ModeSchedule,
        mode_dynamics_map: &ModeDynamicsMap<D, C>,
        dt: S,
    ) -> (r: AdjointVariableSchedule<T>)
        requires
            catalogue_wf(mode_dynamics_map),
            mode_schedule.in_catalogue_spec(mode_dynamics_map.num_modes_spec()),
            mode_schedule.modes_spec().len() >= 1,
            states.states_spec().len() == mode_schedule.modes_spec().len() + 1,
            forall|k: int|
                0 <= k < states.states_spec().len() ==> (
                #[trigger] states.states_spec()[k].view_spec()).len() == T::dim_spec(),
        ensures
            r.start_spec() == 0,
            r.adjoints_spec().len() == mode_schedule.modes_spec().len() + 1,
            forall|k: int|
                0 <= k <= mode_schedule.modes_spec().len() ==> (
                #[trigger] r.adjoints_spec()[k].view_spec()) == adjoint_sweep_spec::<S, T, U, D, C>(
                    mode_dynamics_map.dynamics_mapping@,
                    mode_dynamics_map.cost_mapping@,
                    mode_schedule.modes_spec(),
                    views_spec(states.states_spec()),
                    dt,
                    mode_schedule.modes_spec().len() as int,
                    k,
                ),
            forall|k: int|
                0 <= k <= mode_schedule.modes_spec().len() ==> (
                #[trigger] r.adjoints_spec()[k].view_spec()).len() == T::dim_spec(),
    {
        let ghost dyns = mode_dynamics_map.dynamics_mapping@;
        let ghost costs = mode_dynamics_map.cost_mapping@;
        let ghost modes = mode_schedule.modes_spec();
        let ghost xs = views_spec(states.states_spec());
        let kk = mode_schedule.len();
        let u_zero = U::zeros();

        // The terminal costate: the gradient of the active terminal cost at
        // the final state.
        let mode_last = mode_schedule.modes[kk - 1];
        assert(mode_last.id < mode_dynamics_map.num_modes_spec());
        let cost_last = mode_dynamics_map.get_cost(mode_last).unwrap();
        let nabla_m = cost_last.differentiate(&states.states[kk], &u_zero, true);
        let p_last = T::form_from_array(nabla_m);
        assert(xs[kk as int] == states.states@[kk as int].view_spec());
        assert(p_last.view_spec() == adjoint_sweep_spec::<S, T, U, D, C>(
            dyns,
            costs,
            modes,
            xs,
            dt,
            kk as int,
            kk as int,
        ));

        // Walk backwards, newest costate last: rev[j] holds p[kk - j].
        let mut rev: Vec<T> = Vec::new();
        rev.push(p_last);
        let mut j: usize = 0;
        while j < kk
            invariant
                kk == modes.len(),
                1 <= kk,
                dyns == mode_dynamics_map.dynamics_mapping@,
                costs == mode_dynamics_map.cost_mapping@,
                modes == mode_schedule.modes_spec(),
                xs == views_spec(states.states_spec()),
                catalogue_wf(mode_dynamics_map),
                mode_schedule.in_catalogue_spec(mode_dynamics_map.num_modes_spec()),
                states.states_spec().len() == kk + 1,
                forall|m: int|
                    0 <= m < states.states_spec().len() ==> (
                    #[trigger] states.states_spec()[m].view_spec()).len() == T::dim_spec(),
                u_zero.view_spec() == seq_zero::<S>(U::dim_spec()),
                j <= kk,
                rev@.len() == j + 1,
                forall|m: int|
                    0 <= m <= j ==> (#[trigger] rev@[m].view_spec()) == adjoint_sweep_spec::<
                        S,
                        T,
                        U,
                        D,
                        C,
                    >(dyns, costs, modes, xs, dt, kk as int, kk - m),
                forall|m: int|
                    0 <= m <= j ==> (#[trigger] rev@[m].view_spec()).len() == T::dim_spec(),
            decreases kk - j,
        {
            let k = kk - 1 - j;
            let p_dot = Self::compute_derivative(
                &rev[j],
                &states.states[k],
                k,
                mode_schedule,
                mode_dynamics_map,
                dt,
            );
            let neg_dt = S::zero().sub(dt);
            let p_prev = rev[j].add_vec(&p_dot.mul_scalar(neg_dt));
            proof {
                assert(xs[k as int] == states.states@[k as int].view_spec());
                assert(adjoint_sweep_spec::<S, T, U, D, C>(dyns, costs, modes, xs, dt, kk as int, k as int)
                    == seq_add(
                    adjoint_sweep_spec::<S, T, U, D, C>(dyns, costs, modes, xs, dt, kk as int, k + 1),
                    seq_scale(
                        adjoint_derivative_spec::<S, T, U, D, C>(
                            dyns,
                            costs,
                            modes,
                            adjoint_sweep_spec::<S, T, U, D, C>(dyns, costs, modes, xs, dt, kk as int, k + 1),
                            xs[k as int],
                            k as int,
                            dt,
                        ),
                        S::zero_spec().sub_spec(dt),
                    ),
                ));
            }
            rev.push(p_prev);
            j = j + 1;
        }

        // Reverse into time order: out[k] = p[k] = rev[kk - k].
        let mut out: Vec<T> = Vec::new();
        let mut k: usize = 0;
        while k <= kk
            invariant
                kk == modes.len(),
                rev@.len() == kk + 1,
                forall|m: int|
                    0 <= m <= kk ==> (#[trigger] rev@[m].view_spec()) == adjoint_sweep_spec::<
                        S,
                        T,
                        U,
                        D,
                        C,
                    >(dyns, costs, modes, xs, dt, kk as int, kk - m),
                forall|m: int|
                    0 <= m <= kk ==> (#[trigger] rev@[m].view_spec()).len() == T::dim_spec(),
                k <= kk + 1,
                out@.len() == k,
                forall|m: int|
                    0 <= m < k ==> (#[trigger] out@[m].view_spec()) == adjoint_sweep_spec::<
                        S,
                        T,
                        U,
                        D,
                        C,
                    >(dyns, costs, modes, xs, dt, kk as int, m),
                forall|m: int|
                    0 <= m < k ==> (#[trigger] out@[m].view_spec()).len() == T::dim_spec(),
            decreases kk + 1 - k,
        {
            out.push(rev[kk - k].duplicate());
            k = k + 1;
        }
        AdjointVariableSchedule::new(0, kk, out)
    }

    /// The adjoint derivative `-(Jf(x)^T p + grad l(x))` at step `t_index`.
    fn compute_derivative<
        S: Scalar,
        T: StateVector<S>,
        U: Force<S>,
        D: ContinuousDynamicsAndDifferentiable<S, T, U>,
        C: CostAndDifferentiable<S, T, U>,
    >(
        p: &T,
        x_prev: &T,
        t_index: usize,
        schedule: &ModeSchedule,
        mode_dynamics_map: &ModeDynamicsMap<D, C>,
        dt: S,
    ) -> (r: T)
        requires
            catalogue_wf(mode_dynamics_map),
            schedule.in_catalogue_spec(mode_dynamics_map.num_modes_spec()),
            t_index < schedule.modes_spec().len(),
            p.view_spec().len() == T::dim_spec(),
            x_prev.view_spec().len() == T::dim_spec(),
        ensures
            r.view_spec() == adjoint_derivative_spec::<S, T, U, D, C>(
                mode_dynamics_map.dynamics_mapping@,
                mode_dynamics_map.cost_mapping@,
                schedule.modes_spec(),
                p.view_spec(),
                x_prev.view_spec(),
                t_index as int,
                dt,
            ),
            r.view_spec().len() == T::dim_spec(),
    {
        let u_zero = U::zeros();
        let mode = schedule.modes[t_index];
        assert(mode.id < mode_dynamics_map.num_modes_spec());
        let dynamics = mode_dynamics_map.get_dynamics(mode).unwrap();
        let cost = mode_dynamics_map.get_cost(mode).unwrap();
        let t = S::from_usize(t_index).mul(dt);
        let grad_dynamics = dynamics.differentiate(x_prev, &u_zero, t);
        let grad_cost = cost.differentiate(x_prev, &u_zero, false);
        let neg_one = S::zero().sub(S::one());
        p.mul_mat(&grad_dynamics).add_vec(&T::form_from_array(grad_cost)).mul_scalar(neg_one)
    }
}

} // verus!
