//! Construction of the controller: the 27-mode catalogue (every thrust
//! combination in `{0, +u, -u}` per axis) and the planning controller over
//! it.

use vstd::prelude::*;

use crate::catalogue::{catalogue_wf, ContinuousDynamicsAndDifferentiable, ModeDynamicsMap};
use crate::config::{ModeSchedulerConfig, SimulationConfig};
use crate::cost::Cost;
use crate::dynamics::{Differentiable1d, InputDefinedDynamics};
use crate::force::Force;
use crate::propagator::Propagator;
use crate::quadric_cost::QuadraticCost;
use crate::scalar::Scalar;
use crate::scheduler::ModeScheduler;
use crate::state::StateVector;

verus! {

/// A dynamics model that can be built from a mode's constant input and the
/// configuration.
pub trait CreateInputDefinedDynamics<S: Scalar, T: StateVector<S>, U: Force<S>>:
    ContinuousDynamicsAndDifferentiable<S, T, U> + Sized {
    /// The configuration carries matrices of the shapes this model needs.
    spec fn config_ok(config: ModeSchedulerConfig<S>, simulation_config: SimulationConfig<S>) -> bool;

    /// Builds the model around the fixed input.
    fn new(
        control_input: U,
        config: &ModeSchedulerConfig<S>,
        simulation_config: &SimulationConfig<S>,
    ) -> (r: Self)
        requires
            Self::config_ok(*config, *simulation_config),
            control_input.view_spec().len() == U::dim_spec(),
        ensures
            r.dyn_wf(),
            r.jac_wf(),
            r.input_wf(),
            r.input_spec() == control_input.view_spec(),
    ;
}

/// The thrust component selected by one ternary digit: rest, full
/// positive, full negative.
pub open spec fn axis_component_spec<S: Scalar>(u_max: S, sel: int) -> S {
    if sel == 0 {
        S::zero_spec()
    } else if sel == 1 {
        u_max
    } else {
        S::zero_spec().sub_spec(u_max)
    }
}

/// Builds planning controllers.
pub struct ControllerFactory<T, U, P, D> {
    /// Marks the state, force, propagator and dynamics types planned over.
    pub marker: core::marker::PhantomData<(T, U, P, D)>,
}

impl<
    T,
    U,
    P,
    D,
> ControllerFactory<T, U, P, D> {
    /// The catalogue of the 27 constant-thrust modes: mode
    /// `i * 9 + j * 3 + k` applies the input
    /// `(axis(i), axis(j), axis(k))`, and every mode shares the quadratic
    /// cost from the configuration.
    pub fn create_mode_dynamics_map<S: Scalar>(
        simulation_config: &SimulationConfig<S>,
        config: &ModeSchedulerConfig<S>,
    ) -> (r: ModeDynamicsMap<D, QuadraticCost<S>>) where
        T: StateVector<S>,
        U: Force<S>,
        D: CreateInputDefinedDynamics<S, T, U>,

        requires
            U::dim_spec() == 3,
            D::config_ok(*config, *simulation_config),
            config.q_matrix.wf(),
            config.q_matrix.rows == T::dim_spec(),
            config.q_matrix.cols == T::dim_spec(),
            config.r_matrix.wf(),
            config.r_matrix.rows == U::dim_spec(),
            config.r_matrix.cols == U::dim_spec(),
            config.qf_matrix.wf(),
            config.qf_matrix.rows == T::dim_spec(),
            config.qf_matrix.cols == T::dim_spec(),
        ensures
            r.num_modes_spec() == 27,
            catalogue_wf::<S, T, U, D, QuadraticCost<S>>(&r),
            forall|m: int|
                0 <= m < 27 ==> (#[trigger] r.dynamics_mapping@[m]).input_spec() == seq![
                    axis_component_spec(config.u_max, m / 9),
                    axis_component_spec(config.u_max, (m % 9) / 3),
                    axis_component_spec(config.u_max, m % 3),
                ],
            forall|m: int|
                0 <= m < 27 ==> (#[trigger] r.cost_mapping@[m]).q_matrix.rows
                    == config.q_matrix.rows && r.cost_mapping@[m].q_matrix.cols
                    == config.q_matrix.cols && r.cost_mapping@[m].q_matrix.data@
                    == config.q_matrix.data@ && r.cost_mapping@[m].r_matrix.rows
                    == config.r_matrix.rows && r.cost_mapping@[m].r_matrix.cols
                    == config.r_matrix.cols && r.cost_mapping@[m].r_matrix.data@
                    == config.r_matrix.data@ && r.cost_mapping@[m].qf_matrix.rows
                    == config.qf_matrix.rows && r.cost_mapping@[m].qf_matrix.cols
                    == config.qf_matrix.cols && r.cost_mapping@[m].qf_matrix.data@
                    == config.qf_matrix.data@ && r.cost_mapping@[m].t_last == config.t_last,
    {
        let ghost u_max = config.u_max;
        let mut dynamics_mapping: Vec<D> = Vec::new();
        let mut cost_mapping: Vec<QuadraticCost<S>> = Vec::new();

        let mut i: usize = 0;
        while i < 3
            invariant
                U::dim_spec() == 3,
                u_max == config.u_max,
                D::config_ok(*config, *simulation_config),
                config.q_matrix.wf(),
                config.q_matrix.rows == T::dim_spec(),
                config.q_matrix.cols == T::dim_spec(),
                config.r_matrix.wf(),
                config.r_matrix.rows == U::dim_spec(),
                config.r_matrix.cols == U::dim_spec(),
                config.qf_matrix.wf(),
                config.qf_matrix.rows == T::dim_spec(),
                config.qf_matrix.cols == T::dim_spec(),
                i <= 3,
                dynamics_mapping@.len() == i * 9,
                cost_mapping@.len() == dynamics_mapping@.len(),
                forall|m: int|
                    0 <= m < dynamics_mapping@.len() ==> (#[trigger] dynamics_mapping@[m]).dyn_wf()
                        && dynamics_mapping@[m].jac_wf() && dynamics_mapping@[m].input_wf(),
                forall|m: int|
                    0 <= m < cost_mapping@.len() ==> <QuadraticCost<S> as Cost<S, T, U>>::cost_wf(#[trigger] &cost_mapping@[m])
                        && <QuadraticCost<S> as Differentiable1d<S, T, U>>::grad_wf(
                        &cost_mapping@[m],
                    ),
                forall|m: int|
                0 <= m < cost_mapping@.len() ==> (#[trigger] cost_mapping@[m]).q_matrix.rows
                    == config.q_matrix.rows && cost_mapping@[m].q_matrix.cols
                    == config.q_matrix.cols && cost_mapping@[m].q_matrix.data@
                    == config.q_matrix.data@ && cost_mapping@[m].r_matrix.rows
                    == config.r_matrix.rows && cost_mapping@[m].r_matrix.cols
                    == config.r_matrix.cols && cost_mapping@[m].r_matrix.data@
                    == config.r_matrix.data@ && cost_mapping@[m].qf_matrix.rows
                    == config.qf_matrix.rows && cost_mapping@[m].qf_matrix.cols
                    == config.qf_matrix.cols && cost_mapping@[m].qf_matrix.data@
                    == config.qf_matrix.data@ && cost_mapping@[m].t_last == config.t_last,
                forall|m: int|
                    0 <= m < dynamics_mapping@.len() ==> (
                    #[trigger] dynamics_mapping@[m]).input_spec() == seq![
                        axis_component_spec(u_max, m / 9),
                        axis_component_spec(u_max, (m % 9) / 3),
                        axis_component_spec(u_max, m % 3),
                    ],
            decreases 3 - i,
        {
            let mut j: usize = 0;
            while j < 3
                invariant
                    U::dim_spec() == 3,
                    u_max == config.u_max,
                    D::config_ok(*config, *simulation_config),
                    config.q_matrix.wf(),
                    config.q_matrix.rows == T::dim_spec(),
                    config.q_matrix.cols == T::dim_spec(),
                    config.r_matrix.wf(),
                    config.r_matrix.rows == U::dim_spec(),
                    config.r_matrix.cols == U::dim_spec(),
                    config.qf_matrix.wf(),
                    config.qf_matrix.rows == T::dim_spec(),
                    config.qf_matrix.cols == T::dim_spec(),
                    i < 3,
                    j <= 3,
                    dynamics_mapping@.len() == i * 9 + j * 3,
                    cost_mapping@.len() == dynamics_mapping@.len(),
                    forall|m: int|
                        0 <= m < dynamics_mapping@.len() ==> (
                        #[trigger] dynamics_mapping@[m]).dyn_wf() && dynamics_mapping@[m].jac_wf()
                            && dynamics_mapping@[m].input_wf(),
                    forall|m: int|
                        0 <= m < cost_mapping@.len() ==> <QuadraticCost<S> as Cost<S, T, U>>::cost_wf(#[trigger] &cost_mapping@[m])
                            && <QuadraticCost<S> as Differentiable1d<S, T, U>>::grad_wf(
                            &cost_mapping@[m],
                        ),
                    forall|m: int|
                0 <= m < cost_mapping@.len() ==> (#[trigger] cost_mapping@[m]).q_matrix.rows
                    == config.q_matrix.rows && cost_mapping@[m].q_matrix.cols
                    == config.q_matrix.cols && cost_mapping@[m].q_matrix.data@
                    == config.q_matrix.data@ && cost_mapping@[m].r_matrix.rows
                    == config.r_matrix.rows && cost_mapping@[m].r_matrix.cols
                    == config.r_matrix.cols && cost_mapping@[m].r_matrix.data@
                    == config.r_matrix.data@ && cost_mapping@[m].qf_matrix.rows
                    == config.qf_matrix.rows && cost_mapping@[m].qf_matrix.cols
                    == config.qf_matrix.cols && cost_mapping@[m].qf_matrix.data@
                    == config.qf_matrix.data@ && cost_mapping@[m].t_last == config.t_last,
                    forall|m: int|
                        0 <= m < dynamics_mapping@.len() ==> (
                        #[trigger] dynamics_mapping@[m]).input_spec() == seq![
                            axis_component_spec(u_max, m / 9),
                            axis_component_spec(u_max, (m % 9) / 3),
                            axis_component_spec(u_max, m % 3),
                        ],
                decreases 3 - j,
            {
                let mut k: usize = 0;
                while k < 3
                    invariant
                        U::dim_spec() == 3,
                        u_max == config.u_max,
                        D::config_ok(*config, *simulation_config),
                        config.q_matrix.wf(),
                        config.q_matrix.rows == T::dim_spec(),
                        config.q_matrix.cols == T::dim_spec(),
                        config.r_matrix.wf(),
                        config.r_matrix.rows == U::dim_spec(),
                        config.r_matrix.cols == U::dim_spec(),
                        config.qf_matrix.wf(),
                        config.qf_matrix.rows == T::dim_spec(),
                        config.qf_matrix.cols == T::dim_spec(),
                        i < 3,
                        j < 3,
                        k <= 3,
                        dynamics_mapping@.len() == i * 9 + j * 3 + k,
                        cost_mapping@.len() == dynamics_mapping@.len(),
                        forall|m: int|
                            0 <= m < dynamics_mapping@.len() ==> (
                            #[trigger] dynamics_mapping@[m]).dyn_wf()
                                && dynamics_mapping@[m].jac_wf()
                                && dynamics_mapping@[m].input_wf(),
                        forall|m: int|
                            0 <= m < cost_mapping@.len() ==> <QuadraticCost<S> as Cost<S, T, U>>::cost_wf(#[trigger] &cost_mapping@[m])
                                && <QuadraticCost<S> as Differentiable1d<S, T, U>>::grad_wf(
                                &cost_mapping@[m],
                            ),
                        forall|m: int|
                0 <= m < cost_mapping@.len() ==> (#[trigger] cost_mapping@[m]).q_matrix.rows
                    == config.q_matrix.rows && cost_mapping@[m].q_matrix.cols
                    == config.q_matrix.cols && cost_mapping@[m].q_matrix.data@
                    == config.q_matrix.data@ && cost_mapping@[m].r_matrix.rows
                    == config.r_matrix.rows && cost_mapping@[m].r_matrix.cols
                    == config.r_matrix.cols && cost_mapping@[m].r_matrix.data@
                    == config.r_matrix.data@ && cost_mapping@[m].qf_matrix.rows
                    == config.qf_matrix.rows && cost_mapping@[m].qf_matrix.cols
                    == config.qf_matrix.cols && cost_mapping@[m].qf_matrix.data@
                    == config.qf_matrix.data@ && cost_mapping@[m].t_last == config.t_last,
                        forall|m: int|
                            0 <= m < dynamics_mapping@.len() ==> (
                            #[trigger] dynamics_mapping@[m]).input_spec() == seq![
                                axis_component_spec(u_max, m / 9),
                                axis_component_spec(u_max, (m % 9) / 3),
                                axis_component_spec(u_max, m % 3),
                            ],
                    decreases 3 - k,
                {
                    let ux = Self::axis_component(config.u_max, i);
                    let uy = Self::axis_component(config.u_max, j);
                    let uz = Self::axis_component(config.u_max, k);
                    let mut components: Vec<S> = Vec::new();
                    components.push(ux);
                    components.push(uy);
                    components.push(uz);
                    let control_input = U::form_from_array(components);
                    let dynamics = D::new(control_input, config, simulation_config);
                    let cost = QuadraticCost::new(
                        config.q_matrix.duplicate(),
                        config.r_matrix.duplicate(),
                        config.qf_matrix.duplicate(),
                        config.t_last,
                    );
                    proof {
                        let m0 = dynamics_mapping@.len() as int;
                        assert(m0 == i * 9 + j * 3 + k);
                        assert(m0 / 9 == i && (m0 % 9) / 3 == j && m0 % 3 == k) by (nonlinear_arith)
                            requires
                                0 <= i < 3,
                                0 <= j < 3,
                                0 <= k < 3,
                                m0 == i * 9 + j * 3 + k,
                        {
                        }
                    }
                    dynamics_mapping.push(dynamics);
                    cost_mapping.push(cost);
                    k = k + 1;
                }
                j = j + 1;
            }
            i = i + 1;
        }
        ModeDynamicsMap::new(dynamics_mapping, cost_mapping)
    }

    /// One ternary thrust component, matching [`axis_component_spec`].
    fn axis_component<S: Scalar>(u_max: S, sel: usize) -> (r: S)
        ensures
            r == axis_component_spec(u_max, sel as int),
    {
        if sel == 0 {
            S::zero()
        } else if sel == 1 {
            u_max
        } else {
            S::zero().sub(u_max)
        }
    }

    /// Builds the planning controller: the 27-mode catalogue, the
    /// propagator, and one full optimisation run.
    pub fn create_mode_scheduler<S: Scalar>(
        x0: T,
        simulation_config: &SimulationConfig<S>,
        config: &ModeSchedulerConfig<S>,
    ) -> (r: ModeScheduler<S, T, U, D, QuadraticCost<S>, P>) where
        T: StateVector<S>,
        U: Force<S>,
        P: Propagator<S, T, U, D>,
        D: CreateInputDefinedDynamics<S, T, U>,

        requires
            U::dim_spec() == 3,
            D::config_ok(*config, *simulation_config),
            config.q_matrix.wf(),
            config.q_matrix.rows == T::dim_spec(),
            config.q_matrix.cols == T::dim_spec(),
            config.r_matrix.wf(),
            config.r_matrix.rows == U::dim_spec(),
            config.r_matrix.cols == U::dim_spec(),
            config.qf_matrix.wf(),
            config.qf_matrix.rows == T::dim_spec(),
            config.qf_matrix.cols == T::dim_spec(),
            simulation_config.constants.step >= 1,
            simulation_config.constants.step * 27 <= usize::MAX,
            x0.view_spec().len() == T::dim_spec(),
        ensures
            r.wf(),
            r.optimised_spec(),
            r.eta == config.eta,
            r.alpha == config.alpha,
            r.beta == config.beta,
            r.max_iterations == config.max_iterations,
            r.max_line_search_steps == config.max_line_search_steps,
            r.improvement_tolerance == config.improvement_tolerance,
            r.t_index0 == 0,
            r.t_index_last == simulation_config.constants.step,
            r.dt == simulation_config.constants.dt,
            r.x0 == x0,
            r.mode_dynamics_map.num_modes_spec() == 27,
            forall|m: int|
                0 <= m < 27 ==> (#[trigger] r.mode_dynamics_map.dynamics_mapping@[m]).input_spec()
                    == seq![
                    axis_component_spec(config.u_max, m / 9),
                    axis_component_spec(config.u_max, (m % 9) / 3),
                    axis_component_spec(config.u_max, m % 3),
                ],
            forall|m: int|
                0 <= m < 27 ==> (#[trigger] r.mode_dynamics_map.cost_mapping@[m]).q_matrix.rows
                    == config.q_matrix.rows && r.mode_dynamics_map.cost_mapping@[m].q_matrix.cols
                    == config.q_matrix.cols && r.mode_dynamics_map.cost_mapping@[m].q_matrix.data@
                    == config.q_matrix.data@ && r.mode_dynamics_map.cost_mapping@[m].r_matrix.rows
                    == config.r_matrix.rows && r.mode_dynamics_map.cost_mapping@[m].r_matrix.cols
                    == config.r_matrix.cols && r.mode_dynamics_map.cost_mapping@[m].r_matrix.data@
                    == config.r_matrix.data@ && r.mode_dynamics_map.cost_mapping@[m].qf_matrix.rows
                    == config.qf_matrix.rows && r.mode_dynamics_map.cost_mapping@[m].qf_matrix.cols
                    == config.qf_matrix.cols && r.mode_dynamics_map.cost_mapping@[m].qf_matrix.data@
                    == config.qf_matrix.data@ && r.mode_dynamics_map.cost_mapping@[m].t_last == config.t_last,
    {
        let mode_dynamics_map = Self::create_mode_dynamics_map(simulation_config, config);
        let propagator = P::new();
        ModeScheduler::new(
            config.eta,
            config.alpha,
            config.beta,
            config.max_iterations,
            0,
            simulation_config.constants.step,
            x0,
            mode_dynamics_map.dynamics_mapping,
            mode_dynamics_map.cost_mapping,
            propagator,
            simulation_config.constants.dt,
            config.max_line_search_steps,
            config.improvement_tolerance,
        )
    }
}

} // verus!
