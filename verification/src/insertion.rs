//! The insertion gradient: for every time index `k` and candidate mode `m`,
//! the first-order rate of cost change from substituting `m` for the active
//! mode over an infinitesimal window at `k`.
//!
//! The matrix entry is `D[k, m] = <p[k], f_m(X[k], 0) - f_active(X[k], 0)>`.
//! Substituting the active mode itself changes nothing, and the contract
//! proves it: `D[k, active(k)] == 0`, from the scalar laws `a - a == 0` and
//! `<p, 0> == 0` alone.

use vstd::prelude::*;

use crate::algebra::{dot_spec, lemma_dot_zero_right, seq_sub, seq_zero, vec_dot, vec_sub,
    DenseMatrix};
use crate::catalogue::{catalogue_wf, ContinuousDynamicsAndDifferentiable, CostAndDifferentiable,
    ModeDynamicsMap};
use crate::force::Force;
use crate::scalar::Scalar;
use crate::schedule::{AdjointVariableSchedule, ModeId, ModeSchedule, StateSchedule};
use crate::state::StateVector;

verus! {

/// `D[k, m]` as a function of the dynamics, the active mode at `k`, the
/// state view and the adjoint view there.
pub open spec fn insertion_gradient_spec<
    S: Scalar,
    T: StateVector<S>,
    U: Force<S>,
    D: ContinuousDynamicsAndDifferentiable<S, T, U>,
>(dynamics: Seq<D>, active_id: int, x: Seq<S>, p: Seq<S>, m: int) -> S {
    let u0 = seq_zero::<S>(U::dim_spec());
    dot_spec(p, seq_sub(dynamics[m].deriv_spec(x, u0), dynamics[active_id].deriv_spec(x, u0)))
}

/// The insertion-gradient computation.
pub struct InsertionGradientCalculator;

impl InsertionGradientCalculator {
    /// The directional derivative `<p, f_new - f_prev>` of the terminal
    /// cost with respect to an infinitesimal mode substitution.
    pub fn compute_insertion_gradient<S: Scalar, T: StateVector<S>>(
        p: &T,
        x_dot_prev: &T,
        x_dot_new: &T,
    ) -> (r: S)
        requires
            p.view_spec().len() == T::dim_spec(),
            x_dot_prev.view_spec().len() == T::dim_spec(),
            x_dot_new.view_spec().len() == T::dim_spec(),
        ensures
            r == dot_spec(
                p.view_spec(),
                seq_sub(x_dot_new.view_spec(), x_dot_prev.view_spec()),
            ),
    {
        vec_dot(p.get_vector(), &vec_sub(x_dot_new.get_vector(), x_dot_prev.get_vector()))
    }

    /// Fills the whole `K`-by-`num_modes` matrix `D` and records, for each
    /// time index, a mode with minimal entry.
    ///
    /// The contract pins every entry, proves `D[k, active(k)] == 0`, and
    /// states that no entry of a row is strictly below the recorded mode's
    /// entry.
    pub fn compute<
        S: Scalar,
        T: StateVector<S>,
        U: Force<S>,
        D: ContinuousDynamicsAndDifferentiable<S, T, U>,
        C: CostAndDifferentiable<S, T, U>,
    >(
        mode_schedule: &ModeSchedule,
        state_schedule: &StateSchedule<T>,
        adjoint_schedule: &AdjointVariableSchedule<T>,
        mode_dynamics_map: &ModeDynamicsMap<D, C>,
        t_index0: usize,
        t_index_last: usize,
    ) -> (r: (DenseMatrix<S>, Vec<ModeId>))
        requires
            t_index0 == 0,
            mode_schedule.start_spec() == 0,
            t_index_last == mode_schedule.modes_spec().len(),
            catalogue_wf(mode_dynamics_map),
            mode_schedule.in_catalogue_spec(mode_dynamics_map.num_modes_spec()),
            mode_dynamics_map.num_modes_spec() >= 1,
            t_index_last * mode_dynamics_map.num_modes_spec() <= usize::MAX,
            state_schedule.states_spec().len() >= t_index_last,
            adjoint_schedule.adjoints_spec().len() >= t_index_last,
            forall|k: int|
                0 <= k < state_schedule.states_spec().len() ==> (
                #[trigger] state_schedule.states_spec()[k].view_spec()).len() == T::dim_spec(),
            forall|k: int|
                0 <= k < adjoint_schedule.adjoints_spec().len() ==> (
                #[trigger] adjoint_schedule.adjoints_spec()[k].view_spec()).len() == T::dim_spec(),
        ensures
            r.0.wf(),
            r.0.rows == t_index_last,
            r.0.cols == mode_dynamics_map.num_modes_spec(),
            forall|k: int, m: int|
                0 <= k < t_index_last && 0 <= m < mode_dynamics_map.num_modes_spec()
                    ==> #[trigger] r.0.entry_spec(k, m) == insertion_gradient_spec::<S, T, U, D>(
                    mode_dynamics_map.dynamics_mapping@,
                    mode_schedule.modes_spec()[k].id as int,
                    state_schedule.states_spec()[k].view_spec(),
                    adjoint_schedule.adjoints_spec()[k].view_spec(),
                    m,
                ),
            forall|k: int|
                0 <= k < t_index_last ==> #[trigger] r.0.entry_spec(
                    k,
                    mode_schedule.modes_spec()[k].id as int,
                ) == S::zero_spec(),
            r.1@.len() == t_index_last,
            forall|k: int| 0 <= k < t_index_last ==> (#[trigger] r.1@[k]).id
                < mode_dynamics_map.num_modes_spec(),
            forall|k: int, m: int|
                0 <= k < t_index_last && 0 <= m < mode_dynamics_map.num_modes_spec()
                    ==> !(#[trigger] r.0.entry_spec(k, m)).lt_spec(
                    r.0.entry_spec(k, r.1@[k].id as int),
                ),
            forall|k: int, m: int|
                0 <= k < t_index_last && 0 <= m < r.1@[k].id ==> #[trigger] r.0.entry_spec(k, m)
                    != r.0.entry_spec(k, r.1@[k].id as int),
    {
        let ghost dyns = mode_dynamics_map.dynamics_mapping@;
        let ghost modes = mode_schedule.modes_spec();
        let num_modes = mode_dynamics_map.num_modes();
        let mut d = DenseMatrix::<S>::zeros(t_index_last, num_modes);
        let mut optimal_modes: Vec<ModeId> = Vec::new();
        let u_zero = U::zeros();

        let mut t_index: usize = 0;
        while t_index < t_index_last
            invariant
                t_index0 == 0,
                mode_schedule.start_spec() == 0,
                t_index_last == modes.len(),
                dyns == mode_dynamics_map.dynamics_mapping@,
                modes == mode_schedule.modes_spec(),
                catalogue_wf(mode_dynamics_map),
                mode_schedule.in_catalogue_spec(mode_dynamics_map.num_modes_spec()),
                num_modes == mode_dynamics_map.num_modes_spec(),
                num_modes >= 1,
                state_schedule.states_spec().len() >= t_index_last,
                adjoint_schedule.adjoints_spec().len() >= t_index_last,
                forall|k: int|
                    0 <= k < state_schedule.states_spec().len() ==> (
                    #[trigger] state_schedule.states_spec()[k].view_spec()).len()
                        == T::dim_spec(),
                forall|k: int|
                    0 <= k < adjoint_schedule.adjoints_spec().len() ==> (
                    #[trigger] adjoint_schedule.adjoints_spec()[k].view_spec()).len()
                        == T::dim_spec(),
                u_zero.view_spec() == seq_zero::<S>(U::dim_spec()),
                t_index <= t_index_last,
                d.wf(),
                d.rows == t_index_last,
                d.cols == num_modes,
                forall|k: int, m: int|
                    0 <= k < t_index && 0 <= m < num_modes ==> #[trigger] d.entry_spec(k, m)
                        == insertion_gradient_spec::<S, T, U, D>(
                        dyns,
                        modes[k].id as int,
                        state_schedule.states_spec()[k].view_spec(),
                        adjoint_schedule.adjoints_spec()[k].view_spec(),
                        m,
                    ),
                forall|k: int|
                    0 <= k < t_index ==> #[trigger] d.entry_spec(k, modes[k].id as int)
                        == S::zero_spec(),
                optimal_modes@.len() == t_index,
                forall|k: int|
                    0 <= k < t_index ==> (#[trigger] optimal_modes@[k]).id < num_modes,
                forall|k: int, m: int|
                    0 <= k < t_index && 0 <= m < num_modes ==> !(#[trigger] d.entry_spec(
                        k,
                        m,
                    )).lt_spec(d.entry_spec(k, optimal_modes@[k].id as int)),
                forall|k: int, m: int|
                    0 <= k < t_index && 0 <= m < optimal_modes@[k].id ==> #[trigger] d.entry_spec(
                        k,
                        m,
                    ) != d.entry_spec(k, optimal_modes@[k].id as int),
            decreases t_index_last - t_index,
        {
            let mode_prev = mode_schedule.modes[t_index];
            assert(mode_prev.id < num_modes);
            let dynamics_prev = mode_dynamics_map.get_dynamics(mode_prev).unwrap();
            let x_now = &state_schedule.states[t_index];
            let p_now = &adjoint_schedule.adjoints[t_index];
            let x_dot_prev = dynamics_prev.compute_derivative(x_now, &u_zero);

            let mut min_value: S = S::zero();
            let mut min_index: usize = 0;

            let mut m_index: usize = 0;
            while m_index < num_modes
                invariant
                    t_index < t_index_last == modes.len(),
                    dyns == mode_dynamics_map.dynamics_mapping@,
                    modes == mode_schedule.modes_spec(),
                    catalogue_wf(mode_dynamics_map),
                    mode_schedule.in_catalogue_spec(mode_dynamics_map.num_modes_spec()),
                    num_modes == mode_dynamics_map.num_modes_spec(),
                    num_modes >= 1,
                    state_schedule.states_spec().len() >= t_index_last,
                    adjoint_schedule.adjoints_spec().len() >= t_index_last,
                    forall|k: int|
                        0 <= k < state_schedule.states_spec().len() ==> (
                        #[trigger] state_schedule.states_spec()[k].view_spec()).len()
                            == T::dim_spec(),
                    forall|k: int|
                        0 <= k < adjoint_schedule.adjoints_spec().len() ==> (
                        #[trigger] adjoint_schedule.adjoints_spec()[k].view_spec()).len()
                            == T::dim_spec(),
                    u_zero.view_spec() == seq_zero::<S>(U::dim_spec()),
                    x_now == &state_schedule.states[t_index as int],
                    p_now == &adjoint_schedule.adjoints[t_index as int],
                    mode_prev == modes[t_index as int],
                    mode_prev.id < num_modes,
                    x_dot_prev.view_spec() == dyns[mode_prev.id as int].deriv_spec(
                        x_now.view_spec(),
                        seq_zero::<S>(U::dim_spec()),
                    ),
                    x_dot_prev.view_spec().len() == T::dim_spec(),
                    m_index <= num_modes,
                    d.wf(),
                    d.rows == t_index_last,
                    d.cols == num_modes,
                    forall|k: int, m: int|
                        0 <= k < t_index && 0 <= m < num_modes ==> #[trigger] d.entry_spec(k, m)
                            == insertion_gradient_spec::<S, T, U, D>(
                            dyns,
                            modes[k].id as int,
                            state_schedule.states_spec()[k].view_spec(),
                            adjoint_schedule.adjoints_spec()[k].view_spec(),
                            m,
                        ),
                    forall|k: int|
                        0 <= k < t_index ==> #[trigger] d.entry_spec(k, modes[k].id as int)
                            == S::zero_spec(),
                    forall|m: int|
                        0 <= m < m_index ==> #[trigger] d.entry_spec(t_index as int, m)
                            == insertion_gradient_spec::<S, T, U, D>(
                            dyns,
                            mode_prev.id as int,
                            state_schedule.states_spec()[t_index as int].view_spec(),
                            adjoint_schedule.adjoints_spec()[t_index as int].view_spec(),
                            m,
                        ),
                    mode_prev.id < m_index ==> d.entry_spec(t_index as int, mode_prev.id as int)
                        == S::zero_spec(),
                    optimal_modes@.len() == t_index,
                    forall|k: int|
                        0 <= k < t_index ==> (#[trigger] optimal_modes@[k]).id < num_modes,
                    forall|k: int, m: int|
                        0 <= k < t_index && 0 <= m < num_modes ==> !(#[trigger] d.entry_spec(
                            k,
                            m,
                        )).lt_spec(d.entry_spec(k, optimal_modes@[k].id as int)),
                    forall|k: int, m: int|
                        0 <= k < t_index && 0 <= m < optimal_modes@[k].id ==> #[trigger] d.entry_spec(
                            k,
                            m,
                        ) != d.entry_spec(k, optimal_modes@[k].id as int),
                    min_index < num_modes,
                    m_index >= 1 ==> min_index < m_index,
                    m_index >= 1 ==> min_value == d.entry_spec(t_index as int, min_index as int),
                    forall|m: int|
                        0 <= m < m_index ==> !(#[trigger] d.entry_spec(t_index as int, m)).lt_spec(
                            min_value,
                        ),
                    forall|m: int|
                        0 <= m < min_index ==> #[trigger] d.entry_spec(t_index as int, m)
                            != min_value,
                decreases num_modes - m_index,
            {
                let mode_new = ModeId::new(m_index);
                let dynamics_new = mode_dynamics_map.get_dynamics(mode_new).unwrap();
                let x_dot_new = dynamics_new.compute_derivative(x_now, &u_zero);
                let grad_value = Self::compute_insertion_gradient(p_now, &x_dot_prev, &x_dot_new);
                proof {
                    if m_index == mode_prev.id {
                        assert(x_dot_new.view_spec() == x_dot_prev.view_spec());
                        assert forall|i: int|
                            0 <= i < seq_sub(
                                x_dot_new.view_spec(),
                                x_dot_prev.view_spec(),
                            ).len() implies seq_sub(x_dot_new.view_spec(), x_dot_prev.view_spec())[i]
                            == S::zero_spec() by {
                            S::lemma_sub_self(x_dot_new.view_spec()[i]);
                        }
                        lemma_dot_zero_right(
                            p_now.view_spec(),
                            seq_sub(x_dot_new.view_spec(), x_dot_prev.view_spec()),
                        );
                        assert(grad_value == S::zero_spec());
                    }
                }
                d.set(t_index, m_index, grad_value);
                if m_index == 0 {
                    min_value = grad_value;
                    min_index = 0;
                    proof {
                        S::lemma_lt_irrefl(grad_value);
                    }
                } else if grad_value.lt(min_value) {
                    proof {
                        assert forall|m: int|
                            0 <= m < m_index implies !(#[trigger] d.entry_spec(
                            t_index as int,
                            m,
                        )).lt_spec(grad_value) by {
                            S::lemma_lt_compat(d.entry_spec(t_index as int, m), min_value, grad_value);
                        }
                        S::lemma_lt_irrefl(grad_value);
                    }
                    min_value = grad_value;
                    min_index = m_index;
                } else {
                }
                m_index = m_index + 1;
            }
            optimal_modes.push(ModeId::new(min_index));
            t_index = t_index + 1;
        }
        (d, optimal_modes)
    }
}

} // verus!
