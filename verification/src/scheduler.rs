//! The switched-mode schedule optimiser: the outer loop that alternates
//! forward sweep, backward sweep, insertion gradient and the Armijo subset
//! line search, plus the control surface over the optimised schedule.

use vstd::prelude::*;

use crate::algebra::{seq_min_spec, seq_zero, sum_spec, lemma_sum_extend, DenseMatrix};
use crate::catalogue::{catalogue_wf, ContinuousDynamicsAndDifferentiable, CostAndDifferentiable,
    ModeDynamicsMap};
use crate::controller::Controller;
use crate::cost::Cost;
use crate::dynamics::InputDefinedDynamics;
use crate::force::Force;
use crate::insertion::InsertionGradientCalculator;
use crate::propagator::Propagator;
use crate::scalar::Scalar;
use crate::schedule::{ModeId, ModeSchedule, StateSchedule};
use crate::state::StateVector;
use crate::sweep::{forward_sweep_spec, views_spec, AdjointVariableUpdater, StateUpdater};

verus! {

/// The views of the whole forward sweep under a schedule: entry `k` is
/// `X[k]`.
pub open spec fn sweep_views_spec<
    S: Scalar,
    T: StateVector<S>,
    U: Force<S>,
    D: ContinuousDynamicsAndDifferentiable<S, T, U>,
    P: Propagator<S, T, U, D>,
>(propagator: P, dynamics: Seq<D>, modes: Seq<ModeId>, x0: Seq<S>, dt: S) -> Seq<Seq<S>> {
    Seq::new(
        (modes.len() + 1) as nat,
        |k: int| forward_sweep_spec::<S, T, U, D, P>(propagator, dynamics, modes, x0, dt, k),
    )
}

/// The total cost of a schedule along a trajectory: step `k`'s stage cost
/// is charged at the state it produces, `X[k + 1]`, for all but the last
/// step, and the active terminal mode's terminal cost is charged at the
/// final state `X[K]`.
pub open spec fn total_cost_spec<
    S: Scalar,
    T: StateVector<S>,
    U: Force<S>,
    C: CostAndDifferentiable<S, T, U>,
>(costs: Seq<C>, modes: Seq<ModeId>, xs: Seq<Seq<S>>) -> S {
    let kk = modes.len() as int;
    let stage = Seq::new(
        (kk - 1) as nat,
        |k: int| costs[modes[k].id as int].stage_cost_spec(xs[k + 1], seq_zero::<S>(U::dim_spec())),
    );
    sum_spec(stage).add_spec(costs[modes[kk - 1].id as int].terminal_cost_spec(xs[kk]))
}

/// The total cost of any schedule decomposes as the sum of its stage
/// costs plus the terminal cost, evaluated on the given (re-propagated)
/// trajectory — exactly as [`total_cost_spec`] defines it.
pub proof fn lemma_total_cost_decomposition<
    S: Scalar,
    T: StateVector<S>,
    U: Force<S>,
    C: CostAndDifferentiable<S, T, U>,
>(costs: Seq<C>, modes: Seq<ModeId>, xs: Seq<Seq<S>>)
    requires
        modes.len() >= 1,
    ensures
        total_cost_spec::<S, T, U, C>(costs, modes, xs) == sum_spec(
            Seq::new(
                (modes.len() - 1) as nat,
                |k: int| costs[modes[k].id as int].stage_cost_spec(
                    xs[k + 1],
                    seq_zero::<S>(U::dim_spec()),
                ),
            ),
        ).add_spec(
            costs[modes[modes.len() - 1].id as int].terminal_cost_spec(xs[modes.len() as int]),
        ),
{
}

/// `j` increments of `dt`, accumulated exactly as the executable loops
/// accumulate a measure.
pub open spec fn measure_spec<S: Scalar>(dt: S, j: int) -> S
    decreases j,
{
    if j <= 0 {
        S::zero_spec()
    } else {
        measure_spec(dt, j - 1).add_spec(dt)
    }
}

/// The step length after `j` contractions by `beta`.
pub open spec fn shrink_spec<S: Scalar>(lambda0: S, beta: S, j: int) -> S
    decreases j,
{
    if j <= 0 {
        lambda0
    } else {
        shrink_spec(lambda0, beta, j - 1).mul_spec(beta)
    }
}

/// How many leading candidates the measure budget `lambda` admits: the
/// first index whose accumulated measure exceeds `lambda`, or all of them.
pub open spec fn subset_len_spec<S: Scalar>(dt: S, lambda: S, i: int, n: int) -> int
    decreases n - i,
{
    if i >= n {
        n
    } else if lambda.lt_spec(measure_spec(dt, i + 1)) {
        i
    } else {
        subset_len_spec(dt, lambda, i + 1, n)
    }
}

proof fn lemma_subset_len_range<S: Scalar>(dt: S, lambda: S, i: int, n: int)
    requires
        0 <= i <= n,
    ensures
        i <= subset_len_spec(dt, lambda, i, n) <= n,
    decreases n - i,
{
    if i < n && !lambda.lt_spec(measure_spec(dt, i + 1)) {
        lemma_subset_len_range(dt, lambda, i + 1, n);
    }
}

proof fn lemma_subset_len_skip<S: Scalar>(dt: S, lambda: S, i: int, n: int)
    requires
        0 <= i <= n,
        forall|j: int| 0 <= j < i ==> !lambda.lt_spec(measure_spec(dt, #[trigger] (j + 1))),
    ensures
        subset_len_spec(dt, lambda, 0, n) == subset_len_spec(dt, lambda, i, n),
    decreases i,
{
    if i > 0 {
        lemma_subset_len_skip(dt, lambda, i - 1, n);
        assert(!lambda.lt_spec(measure_spec(dt, (i - 1) + 1)));
    }
}

/// Whether a time index is eligible for substitution: the best entry of
/// its row is within the acceptance band `eta * d_min`.
pub open spec fn row_selected_spec<S: Scalar>(d: DenseMatrix<S>, eta: S, k: int) -> bool {
    !eta.mul_spec(seq_min_spec(d.data@)).lt_spec(seq_min_spec(d.row_spec(k)))
}

/// How many of the first `k` rows are eligible.
pub open spec fn sel_count_spec<S: Scalar>(d: DenseMatrix<S>, eta: S, k: int) -> int
    decreases k,
{
    if k <= 0 {
        0
    } else {
        sel_count_spec(d, eta, k - 1) + (if row_selected_spec(d, eta, k - 1) {
            1int
        } else {
            0int
        })
    }
}

/// The time-ordered list of eligible time indices among the first `k`
/// rows.
pub open spec fn eligible_times_spec<S: Scalar>(d: DenseMatrix<S>, eta: S, k: int) -> Seq<int>
    decreases k,
{
    if k <= 0 {
        Seq::empty()
    } else {
        let prefix = eligible_times_spec(d, eta, k - 1);
        if row_selected_spec(d, eta, k - 1) {
            prefix.push(k - 1)
        } else {
            prefix
        }
    }
}

/// The eligible list holds exactly the counted rows.
pub proof fn lemma_eligible_times_count<S: Scalar>(d: DenseMatrix<S>, eta: S, k: int)
    ensures
        eligible_times_spec(d, eta, k).len() == (if k <= 0 {
            0int
        } else {
            sel_count_spec(d, eta, k)
        }),
    decreases k,
{
    if k > 0 {
        lemma_eligible_times_count(d, eta, k - 1);
    }
}

/// `modes0` with, at each listed time, the recorded best mode applied.
pub open spec fn apply_subset_spec(
    modes0: Seq<ModeId>,
    times: Seq<int>,
    optimal: Seq<ModeId>,
) -> Seq<ModeId>
    decreases times.len(),
{
    if times.len() == 0 {
        modes0
    } else {
        apply_subset_spec(modes0, times.drop_last(), optimal).update(
            times.last(),
            optimal[times.last()],
        )
    }
}

proof fn lemma_apply_subset_extend(
    modes0: Seq<ModeId>,
    times: Seq<int>,
    optimal: Seq<ModeId>,
    i: int,
)
    requires
        0 <= i < times.len(),
    ensures
        apply_subset_spec(modes0, times.take(i + 1), optimal) == apply_subset_spec(
            modes0,
            times.take(i),
            optimal,
        ).update(times[i], optimal[times[i]]),
{
    let t1 = times.take(i + 1);
    assert(t1.drop_last() =~= times.take(i));
}

/// The whole subset line search from trial `j` on: shrink the step length
/// by `beta` per trial; return the input when the admitted prefix empties
/// or the trials run out, and the first accepted trial schedule otherwise.
pub open spec fn armijo_search_spec<
    S: Scalar,
    T: StateVector<S>,
    U: Force<S>,
    D: ContinuousDynamicsAndDifferentiable<S, T, U>,
    C: CostAndDifferentiable<S, T, U>,
    P: Propagator<S, T, U, D>,
>(
    dynamics: Seq<D>,
    costs: Seq<C>,
    propagator: P,
    x0: Seq<S>,
    dt: S,
    alpha: S,
    beta: S,
    d: DenseMatrix<S>,
    eta: S,
    optimal: Seq<ModeId>,
    modes0: Seq<ModeId>,
    old_cost: S,
    j: int,
    max: int,
) -> Seq<ModeId>
    decreases max - j,
{
    if j >= max {
        modes0
    } else {
        let times = eligible_times_spec(d, eta, d.rows as int);
        let lambda0 = measure_spec(dt, times.len() as int);
        let lambda = shrink_spec(lambda0, beta, j);
        let n = subset_len_spec(dt, lambda, 0, times.len() as int);
        if n == 0 {
            modes0
        } else {
            let trial = apply_subset_spec(modes0, times.take(n), optimal);
            if armijo_accepted_spec::<S, T, U, D, C, P>(
                dynamics,
                costs,
                propagator,
                x0,
                dt,
                alpha,
                lambda,
                seq_min_spec(d.data@),
                old_cost,
                trial,
            ) {
                trial
            } else {
                armijo_search_spec::<S, T, U, D, C, P>(
                    dynamics,
                    costs,
                    propagator,
                    x0,
                    dt,
                    alpha,
                    beta,
                    d,
                    eta,
                    optimal,
                    modes0,
                    old_cost,
                    j + 1,
                    max,
                )
            }
        }
    }
}

/// The Armijo sufficient-decrease certificate: the cost of the new
/// schedule, evaluated on its own re-propagated trajectory, improves on
/// `old_cost` by at least `alpha * lambda * d_min`.
pub open spec fn armijo_accepted_spec<
    S: Scalar,
    T: StateVector<S>,
    U: Force<S>,
    D: ContinuousDynamicsAndDifferentiable<S, T, U>,
    C: CostAndDifferentiable<S, T, U>,
    P: Propagator<S, T, U, D>,
>(
    dynamics: Seq<D>,
    costs: Seq<C>,
    propagator: P,
    x0: Seq<S>,
    dt: S,
    alpha: S,
    lambda: S,
    d_min: S,
    old_cost: S,
    new_modes: Seq<ModeId>,
) -> bool {
    let new_cost = total_cost_spec::<S, T, U, C>(
        costs,
        new_modes,
        sweep_views_spec::<S, T, U, D, P>(propagator, dynamics, new_modes, x0, dt),
    );
    !alpha.mul_spec(lambda).mul_spec(d_min).lt_spec(new_cost.sub_spec(old_cost))
}

/// The trivial schedule's modes: every step runs catalogue mode zero.
pub open spec fn all_zero_modes_spec(kk: int) -> Seq<ModeId> {
    Seq::new(kk as nat, |k: int| ModeId { id: 0 })
}

/// The first-order optimality certificate of a schedule: no insertion
/// gradient entry, over the schedule's own forward and adjoint sweeps, is
/// negative.
pub open spec fn first_order_certificate_spec<
    S: Scalar,
    T: StateVector<S>,
    U: Force<S>,
    D: ContinuousDynamicsAndDifferentiable<S, T, U>,
    C: CostAndDifferentiable<S, T, U>,
    P: Propagator<S, T, U, D>,
>(
    dynamics: Seq<D>,
    costs: Seq<C>,
    propagator: P,
    x0: Seq<S>,
    dt: S,
    modes: Seq<ModeId>,
    num_modes: int,
) -> bool {
    forall|k: int, m: int|
        0 <= k < modes.len() && 0 <= m < num_modes ==> !(
        #[trigger] crate::insertion::insertion_gradient_spec::<S, T, U, D>(
            dynamics,
            modes[k].id as int,
            forward_sweep_spec::<S, T, U, D, P>(propagator, dynamics, modes, x0, dt, k),
            crate::sweep::adjoint_sweep_spec::<S, T, U, D, C>(
                dynamics,
                costs,
                modes,
                sweep_views_spec::<S, T, U, D, P>(propagator, dynamics, modes, x0, dt),
                dt,
                modes.len() as int,
                k,
            ),
            m,
        )).lt_spec(S::zero_spec())
}

/// The total cost of a schedule on its own re-propagated trajectory.
pub open spec fn schedule_cost_spec<
    S: Scalar,
    T: StateVector<S>,
    U: Force<S>,
    D: ContinuousDynamicsAndDifferentiable<S, T, U>,
    C: CostAndDifferentiable<S, T, U>,
    P: Propagator<S, T, U, D>,
>(dynamics: Seq<D>, costs: Seq<C>, propagator: P, x0: Seq<S>, dt: S, modes: Seq<ModeId>) -> S {
    total_cost_spec::<S, T, U, C>(
        costs,
        modes,
        sweep_views_spec::<S, T, U, D, P>(propagator, dynamics, modes, x0, dt),
    )
}

/// Whether `d` is the insertion-gradient matrix of the trivial schedule:
/// the right shape, with every entry equal to the gradient over the
/// trivial schedule's own forward and adjoint sweeps.
pub open spec fn initial_gradient_matrix_spec<
    S: Scalar,
    T: StateVector<S>,
    U: Force<S>,
    D: ContinuousDynamicsAndDifferentiable<S, T, U>,
    C: CostAndDifferentiable<S, T, U>,
    P: Propagator<S, T, U, D>,
>(
    dynamics: Seq<D>,
    costs: Seq<C>,
    propagator: P,
    x0: Seq<S>,
    dt: S,
    kk: int,
    num_modes: int,
    d: DenseMatrix<S>,
) -> bool {
    &&& d.wf()
    &&& d.rows == kk
    &&& d.cols == num_modes
    &&& forall|k: int, m: int|
        0 <= k < kk && 0 <= m < num_modes ==> #[trigger] d.entry_spec(k, m)
            == crate::insertion::insertion_gradient_spec::<S, T, U, D>(
            dynamics,
            all_zero_modes_spec(kk)[k].id as int,
            forward_sweep_spec::<S, T, U, D, P>(
                propagator,
                dynamics,
                all_zero_modes_spec(kk),
                x0,
                dt,
                k,
            ),
            crate::sweep::adjoint_sweep_spec::<S, T, U, D, C>(
                dynamics,
                costs,
                all_zero_modes_spec(kk),
                sweep_views_spec::<S, T, U, D, P>(
                    propagator,
                    dynamics,
                    all_zero_modes_spec(kk),
                    x0,
                    dt,
                ),
                dt,
                kk,
                k,
            ),
            m,
        )
}

/// Whether `opt` records, for each row of `d`, the smallest-index mode
/// attaining the row minimum.
pub open spec fn recorded_best_modes_spec<S: Scalar>(
    d: DenseMatrix<S>,
    opt: Seq<ModeId>,
    kk: int,
    num_modes: int,
) -> bool {
    &&& opt.len() == kk
    &&& forall|k: int| 0 <= k < kk ==> (#[trigger] opt[k]).id < num_modes
    &&& forall|k: int, m: int|
        0 <= k < kk && 0 <= m < num_modes ==> !(#[trigger] d.entry_spec(k, m)).lt_spec(
            d.entry_spec(k, opt[k].id as int),
        )
    &&& forall|k: int, m: int|
        0 <= k < kk && 0 <= m < opt[k].id ==> #[trigger] d.entry_spec(k, m) != d.entry_spec(
            k,
            opt[k].id as int,
        )
}

/// The schedule optimiser: owns the catalogue, the propagator and the
/// problem data, and carries the optimised schedule once computed.
pub struct ModeScheduler<S, T, U, D, C, P> {
    /// Acceptance band for eligible time indices.
    pub eta: S,
    /// Sufficient-decrease constant.
    pub alpha: S,
    /// Step-length contraction factor.
    pub beta: S,
    /// Hard bound on outer iterations.
    pub max_iterations: usize,
    /// Hard bound on step-length contractions within one line search.
    pub max_line_search_steps: usize,
    /// The outer loop stops once an iteration improves the cost by no more
    /// than this.
    pub improvement_tolerance: S,
    /// First index of the horizon.
    pub t_index0: usize,
    /// One past the last index of the horizon.
    pub t_index_last: usize,
    /// The initial state.
    pub x0: T,
    /// The mode catalogue.
    pub mode_dynamics_map: ModeDynamicsMap<D, C>,
    /// The fixed-step propagator.
    pub propagator: P,
    /// The step width.
    pub dt: S,
    /// The optimised schedule, once computed.
    pub mode_schedule: Option<ModeSchedule>,
    /// The forward sweep of the optimised schedule, once computed.
    pub optimized_state_schedule: Option<StateSchedule<T>>,
    /// Marks the force type the catalogue's dynamics take.
    pub marker: core::marker::PhantomData<U>,
}

impl<
    S: Scalar,
    T: StateVector<S>,
    U: Force<S>,
    D: ContinuousDynamicsAndDifferentiable<S, T, U>,
    C: CostAndDifferentiable<S, T, U>,
    P: Propagator<S, T, U, D>,
> ModeScheduler<S, T, U, D, C, P> {
    /// The problem data is consistent: a nonempty catalogue of well-formed
    /// modes, a nonempty horizon starting at zero, and an initial state of
    /// the declared dimension.
    pub open spec fn wf(&self) -> bool {
        &&& catalogue_wf(&self.mode_dynamics_map)
        &&& self.mode_dynamics_map.num_modes_spec() >= 1
        &&& self.t_index0 == 0
        &&& 1 <= self.t_index_last
        &&& self.t_index_last * self.mode_dynamics_map.num_modes_spec() <= usize::MAX
        &&& self.x0.view_spec().len() == T::dim_spec()
    }

    /// The stored state schedule is exactly the forward sweep of `modes`.
    pub open spec fn schedule_realised_spec(&self, modes: Seq<ModeId>) -> bool {
        &&& self.optimized_state_schedule matches Some(ss) && ({
            &&& ss.start_spec() == 0
            &&& ss.states_spec().len() == modes.len() + 1
            &&& forall|k: int|
                0 <= k < ss.states_spec().len() ==> (#[trigger] ss.states_spec()[k].view_spec())
                    == forward_sweep_spec::<S, T, U, D, P>(
                    self.propagator,
                    self.mode_dynamics_map.dynamics_mapping@,
                    modes,
                    self.x0.view_spec(),
                    self.dt,
                    k,
                )
            &&& forall|k: int|
                0 <= k < ss.states_spec().len() ==> (#[trigger] ss.states_spec()[k].view_spec()).len()
                    == T::dim_spec()
        })
    }

    /// A schedule has been computed and the stored trajectory belongs to
    /// it.
    pub open spec fn optimised_spec(&self) -> bool {
        &&& self.mode_schedule matches Some(ms) && ({
            &&& ms.start_spec() == 0
            &&& ms.modes_spec().len() == self.t_index_last
            &&& ms.in_catalogue_spec(self.mode_dynamics_map.num_modes_spec())
            &&& self.schedule_realised_spec(ms.modes_spec())
        })
    }

    /// Builds the optimiser and immediately plans: the constructor runs the
    /// optimisation so that the controller is ready to be queried.
    pub fn new(
        eta: S,
        alpha: S,
        beta: S,
        max_iterations: usize,
        t_index0: usize,
        t_index_last: usize,
        x0: T,
        dynamics_mapping: Vec<D>,
        cost_mapping: Vec<C>,
        propagator: P,
        dt: S,
        max_line_search_steps: usize,
        improvement_tolerance: S,
    ) -> (r: Self)
        requires
            t_index0 == 0,
            1 <= t_index_last,
            dynamics_mapping@.len() == cost_mapping@.len(),
            dynamics_mapping@.len() >= 1,
            t_index_last * dynamics_mapping@.len() <= usize::MAX,
            x0.view_spec().len() == T::dim_spec(),
            forall|i: int|
                0 <= i < dynamics_mapping@.len() ==> (#[trigger] dynamics_mapping@[i]).dyn_wf()
                    && dynamics_mapping@[i].jac_wf() && dynamics_mapping@[i].input_wf(),
            forall|i: int|
                0 <= i < cost_mapping@.len() ==> (#[trigger] cost_mapping@[i]).cost_wf()
                    && cost_mapping@[i].grad_wf(),
        ensures
            r.wf(),
            r.optimised_spec(),
            r.eta == eta,
            r.alpha == alpha,
            r.beta == beta,
            r.max_iterations == max_iterations,
            r.max_line_search_steps == max_line_search_steps,
            r.improvement_tolerance == improvement_tolerance,
            r.t_index0 == t_index0,
            r.t_index_last == t_index_last,
            r.dt == dt,
            r.x0 == x0,
            r.mode_dynamics_map.dynamics_mapping@ == dynamics_mapping@,
            r.mode_dynamics_map.cost_mapping@ == cost_mapping@,
            r.propagator == propagator,
    {
        let mode_dynamics_map = ModeDynamicsMap::new(dynamics_mapping, cost_mapping);
        let mut instance = ModeScheduler {
            eta,
            alpha,
            beta,
            max_iterations,
            max_line_search_steps,
            improvement_tolerance,
            t_index0,
            t_index_last,
            x0,
            mode_dynamics_map,
            propagator,
            dt,
            mode_schedule: None,
            optimized_state_schedule: None,
            marker: core::marker::PhantomData,
        };
        let schedule = instance.optimize();
        instance.mode_schedule = Some(schedule);
        instance
    }

    /// One full optimisation: start from the all-zero-mode schedule and
    /// repeat sweep, adjoint, insertion gradient and Armijo update until a
    /// first-order certificate holds (no insertion-gradient entry is
    /// negative), the line search stops decreasing the cost, the
    /// improvement falls below the tolerance, or the iteration cap is
    /// reached.  The contract guarantees that the stored state schedule is
    /// the forward sweep of the returned schedule, that the returned
    /// schedule costs no more than the trivial one, and that a trivial
    /// schedule already carrying the certificate is returned unchanged.
    pub fn optimize(&mut self) -> (r: ModeSchedule)
        requires
            old(self).wf(),
        ensures
            final(self).wf(),
            r.start_spec() == 0,
            r.modes_spec().len() == old(self).t_index_last,
            r.in_catalogue_spec(old(self).mode_dynamics_map.num_modes_spec()),
            final(self).schedule_realised_spec(r.modes_spec()),
            !total_cost_spec::<S, T, U, C>(
                old(self).mode_dynamics_map.cost_mapping@,
                all_zero_modes_spec(old(self).t_index_last as int),
                sweep_views_spec::<S, T, U, D, P>(
                    old(self).propagator,
                    old(self).mode_dynamics_map.dynamics_mapping@,
                    all_zero_modes_spec(old(self).t_index_last as int),
                    old(self).x0.view_spec(),
                    old(self).dt,
                ),
            ).lt_spec(
                total_cost_spec::<S, T, U, C>(
                    old(self).mode_dynamics_map.cost_mapping@,
                    r.modes_spec(),
                    sweep_views_spec::<S, T, U, D, P>(
                        old(self).propagator,
                        old(self).mode_dynamics_map.dynamics_mapping@,
                        r.modes_spec(),
                        old(self).x0.view_spec(),
                        old(self).dt,
                    ),
                ),
            ),
            first_order_certificate_spec::<S, T, U, D, C, P>(
                old(self).mode_dynamics_map.dynamics_mapping@,
                old(self).mode_dynamics_map.cost_mapping@,
                old(self).propagator,
                old(self).x0.view_spec(),
                old(self).dt,
                all_zero_modes_spec(old(self).t_index_last as int),
                old(self).mode_dynamics_map.num_modes_spec(),
            ) ==> (forall|k: int|
                0 <= k < r.modes_spec().len() ==> (#[trigger] r.modes_spec()[k]).id == 0),
            old(self).max_iterations >= 1 ==> (first_order_certificate_spec::<S, T, U, D, C, P>(
                old(self).mode_dynamics_map.dynamics_mapping@,
                old(self).mode_dynamics_map.cost_mapping@,
                old(self).propagator,
                old(self).x0.view_spec(),
                old(self).dt,
                all_zero_modes_spec(old(self).t_index_last as int),
                old(self).mode_dynamics_map.num_modes_spec(),
            ) || (exists|gd: DenseMatrix<S>, gopt: Seq<ModeId>|
                #![auto]
                initial_gradient_matrix_spec::<S, T, U, D, C, P>(
                    old(self).mode_dynamics_map.dynamics_mapping@,
                    old(self).mode_dynamics_map.cost_mapping@,
                    old(self).propagator,
                    old(self).x0.view_spec(),
                    old(self).dt,
                    old(self).t_index_last as int,
                    old(self).mode_dynamics_map.num_modes_spec(),
                    gd,
                ) && recorded_best_modes_spec(
                    gd,
                    gopt,
                    old(self).t_index_last as int,
                    old(self).mode_dynamics_map.num_modes_spec(),
                ) && !schedule_cost_spec::<S, T, U, D, C, P>(
                    old(self).mode_dynamics_map.dynamics_mapping@,
                    old(self).mode_dynamics_map.cost_mapping@,
                    old(self).propagator,
                    old(self).x0.view_spec(),
                    old(self).dt,
                    armijo_search_spec::<S, T, U, D, C, P>(
                        old(self).mode_dynamics_map.dynamics_mapping@,
                        old(self).mode_dynamics_map.cost_mapping@,
                        old(self).propagator,
                        old(self).x0.view_spec(),
                        old(self).dt,
                        old(self).alpha,
                        old(self).beta,
                        gd,
                        old(self).eta,
                        gopt,
                        all_zero_modes_spec(old(self).t_index_last as int),
                        schedule_cost_spec::<S, T, U, D, C, P>(
                            old(self).mode_dynamics_map.dynamics_mapping@,
                            old(self).mode_dynamics_map.cost_mapping@,
                            old(self).propagator,
                            old(self).x0.view_spec(),
                            old(self).dt,
                            all_zero_modes_spec(old(self).t_index_last as int),
                        ),
                        0,
                        old(self).max_line_search_steps as int,
                    ),
                ).lt_spec(
                    schedule_cost_spec::<S, T, U, D, C, P>(
                        old(self).mode_dynamics_map.dynamics_mapping@,
                        old(self).mode_dynamics_map.cost_mapping@,
                        old(self).propagator,
                        old(self).x0.view_spec(),
                        old(self).dt,
                        r.modes_spec(),
                    ),
                ))),
            final(self).eta == old(self).eta,
            final(self).alpha == old(self).alpha,
            final(self).beta == old(self).beta,
            final(self).max_iterations == old(self).max_iterations,
            final(self).max_line_search_steps == old(self).max_line_search_steps,
            final(self).improvement_tolerance == old(self).improvement_tolerance,
            final(self).t_index0 == old(self).t_index0,
            final(self).t_index_last == old(self).t_index_last,
            final(self).x0 == old(self).x0,
            final(self).mode_dynamics_map == old(self).mode_dynamics_map,
            final(self).propagator == old(self).propagator,
            final(self).dt == old(self).dt,
            final(self).mode_schedule == old(self).mode_schedule,
    {
        let kk = self.t_index_last;
        let ghost zero_modes = all_zero_modes_spec(kk as int);
        let ghost dyns = self.mode_dynamics_map.dynamics_mapping@;
        let ghost costs = self.mode_dynamics_map.cost_mapping@;
        let ghost x0v = self.x0.view_spec();
        let ghost mm = self.mode_dynamics_map.num_modes_spec();
        let mut mode_schedule = ModeSchedule::new_from_mode0(
            self.t_index0,
            self.t_index_last,
            ModeId::new(0),
        );
        proof {
            assert forall|k: int|
                0 <= k < mode_schedule.modes@.len() implies #[trigger] mode_schedule.modes@[k]
                == zero_modes[k] by {
                assert(mode_schedule.modes_spec()[k].id == 0);
            }
            assert(mode_schedule.modes_spec() =~= zero_modes);
        }
        let mut state_schedule = StateUpdater::new(
            &self.x0,
            &mode_schedule,
            &self.mode_dynamics_map,
            &self.propagator,
            self.dt,
        );
        let mut old_value = self.evaluate_cost(
            &mode_schedule,
            &state_schedule,
            &self.mode_dynamics_map,
        );
        let ghost j0_g = total_cost_spec::<S, T, U, C>(
            costs,
            zero_modes,
            sweep_views_spec::<S, T, U, D, P>(self.propagator, dyns, zero_modes, x0v, self.dt),
        );
        proof {
            assert(views_spec(state_schedule.states_spec()) =~= sweep_views_spec::<S, T, U, D, P>(
                self.propagator,
                dyns,
                zero_modes,
                x0v,
                self.dt,
            ));
            S::lemma_lt_irrefl(old_value);
        }

        let mut i: usize = 0;
        while i < self.max_iterations
            invariant
                *self == *old(self),
                self.wf(),
                kk == self.t_index_last,
                zero_modes == all_zero_modes_spec(kk as int),
                dyns == self.mode_dynamics_map.dynamics_mapping@,
                costs == self.mode_dynamics_map.cost_mapping@,
                x0v == self.x0.view_spec(),
                mm == self.mode_dynamics_map.num_modes_spec(),
                j0_g == total_cost_spec::<S, T, U, C>(
                    costs,
                    zero_modes,
                    sweep_views_spec::<S, T, U, D, P>(
                        self.propagator,
                        dyns,
                        zero_modes,
                        x0v,
                        self.dt,
                    ),
                ),
                i <= self.max_iterations,
                mode_schedule.start_spec() == 0,
                mode_schedule.modes_spec().len() == kk,
                mode_schedule.in_catalogue_spec(self.mode_dynamics_map.num_modes_spec()),
                state_schedule.start_spec() == 0,
                state_schedule.states_spec().len() == kk + 1,
                forall|k: int|
                    0 <= k < state_schedule.states_spec().len() ==> (
                    #[trigger] state_schedule.states_spec()[k].view_spec())
                        == forward_sweep_spec::<S, T, U, D, P>(
                        self.propagator,
                        self.mode_dynamics_map.dynamics_mapping@,
                        mode_schedule.modes_spec(),
                        self.x0.view_spec(),
                        self.dt,
                        k,
                    ),
                forall|k: int|
                    0 <= k < state_schedule.states_spec().len() ==> (
                    #[trigger] state_schedule.states_spec()[k].view_spec()).len()
                        == T::dim_spec(),
                old_value == total_cost_spec::<S, T, U, C>(
                    costs,
                    mode_schedule.modes_spec(),
                    views_spec(state_schedule.states_spec()),
                ),
                !j0_g.lt_spec(old_value),
                mode_schedule.modes_spec() == zero_modes || !first_order_certificate_spec::<
                    S,
                    T,
                    U,
                    D,
                    C,
                    P,
                >(dyns, costs, self.propagator, x0v, self.dt, zero_modes, mm),
                i == 0 ==> mode_schedule.modes_spec() == zero_modes,
                i >= 1 ==> (first_order_certificate_spec::<S, T, U, D, C, P>(
                    dyns,
                    costs,
                    self.propagator,
                    x0v,
                    self.dt,
                    zero_modes,
                    mm,
                ) || (exists|gd: DenseMatrix<S>, gopt: Seq<ModeId>|
                    #![auto]
                    initial_gradient_matrix_spec::<S, T, U, D, C, P>(
                        dyns,
                        costs,
                        self.propagator,
                        x0v,
                        self.dt,
                        kk as int,
                        mm,
                        gd,
                    ) && recorded_best_modes_spec(gd, gopt, kk as int, mm)
                        && !schedule_cost_spec::<S, T, U, D, C, P>(
                        dyns,
                        costs,
                        self.propagator,
                        x0v,
                        self.dt,
                        armijo_search_spec::<S, T, U, D, C, P>(
                            dyns,
                            costs,
                            self.propagator,
                            x0v,
                            self.dt,
                            self.alpha,
                            self.beta,
                            gd,
                            self.eta,
                            gopt,
                            zero_modes,
                            schedule_cost_spec::<S, T, U, D, C, P>(
                                dyns,
                                costs,
                                self.propagator,
                                x0v,
                                self.dt,
                                zero_modes,
                            ),
                            0,
                            self.max_line_search_steps as int,
                        ),
                    ).lt_spec(old_value))),
            decreases self.max_iterations - i,
        {
            let adjoint_schedule = AdjointVariableUpdater::new(
                &state_schedule,
                &mode_schedule,
                &self.mode_dynamics_map,
                self.dt,
            );
            let (d, optimal_modes) = InsertionGradientCalculator::compute(
                &mode_schedule,
                &state_schedule,
                &adjoint_schedule,
                &self.mode_dynamics_map,
                self.t_index0,
                kk,
            );

            // Termination certificate: a schedule with no negative
            // insertion gradient is a first-order optimum.
            let d_min = d.min_entry();
            proof {
                assert(views_spec(state_schedule.states_spec()) =~= sweep_views_spec::<
                    S,
                    T,
                    U,
                    D,
                    P,
                >(self.propagator, dyns, mode_schedule.modes_spec(), x0v, self.dt));
                if mode_schedule.modes_spec() == zero_modes {
                    assert forall|k2: int, m2: int|
                        0 <= k2 < kk && 0 <= m2 < mm implies #[trigger] d.entry_spec(k2, m2)
                        == crate::insertion::insertion_gradient_spec::<S, T, U, D>(
                            dyns,
                            zero_modes[k2].id as int,
                            forward_sweep_spec::<S, T, U, D, P>(
                                self.propagator,
                                dyns,
                                zero_modes,
                                x0v,
                                self.dt,
                                k2,
                            ),
                            crate::sweep::adjoint_sweep_spec::<S, T, U, D, C>(
                                dyns,
                                costs,
                                zero_modes,
                                sweep_views_spec::<S, T, U, D, P>(
                                    self.propagator,
                                    dyns,
                                    zero_modes,
                                    x0v,
                                    self.dt,
                                ),
                                self.dt,
                                kk as int,
                                k2,
                            ),
                            m2,
                        ) by {
                        assert(state_schedule.states_spec()[k2].view_spec()
                            == forward_sweep_spec::<S, T, U, D, P>(
                            self.propagator,
                            dyns,
                            zero_modes,
                            x0v,
                            self.dt,
                            k2,
                        ));
                    }
                }
            }
            if !d_min.lt(S::zero()) {
                proof {
                    assert forall|k: int|
                        0 <= k < mode_schedule.modes_spec().len() && first_order_certificate_spec::<
                        S,
                        T,
                        U,
                        D,
                        C,
                        P,
                    >(
                        dyns,
                        costs,
                        self.propagator,
                        x0v,
                        self.dt,
                        zero_modes,
                        mm,
                    ) implies (#[trigger] mode_schedule.modes_spec()[k]).id == 0 by {
                        assert(mode_schedule.modes_spec() == zero_modes);
                    }
                    assert(old_value == schedule_cost_spec::<S, T, U, D, C, P>(
                        dyns,
                        costs,
                        self.propagator,
                        x0v,
                        self.dt,
                        mode_schedule.modes_spec(),
                    ));
                    if mode_schedule.modes_spec() == zero_modes {
                        assert forall|k2: int, m2: int|
                            0 <= k2 < kk && 0 <= m2 < mm implies !(#[trigger] crate::insertion::insertion_gradient_spec::<S, T, U, D>(
                            dyns,
                            zero_modes[k2].id as int,
                            forward_sweep_spec::<S, T, U, D, P>(
                                self.propagator,
                                dyns,
                                zero_modes,
                                x0v,
                                self.dt,
                                k2,
                            ),
                            crate::sweep::adjoint_sweep_spec::<S, T, U, D, C>(
                                dyns,
                                costs,
                                zero_modes,
                                sweep_views_spec::<S, T, U, D, P>(
                                    self.propagator,
                                    dyns,
                                    zero_modes,
                                    x0v,
                                    self.dt,
                                ),
                                self.dt,
                                kk as int,
                                k2,
                            ),
                            m2,
                        )).lt_spec(
                            S::zero_spec(),
                        ) by {
                            S::lemma_le_trans(S::zero_spec(), d_min, d.entry_spec(k2, m2));
                        }
                        assert(first_order_certificate_spec::<S, T, U, D, C, P>(
                    dyns,
                    costs,
                    self.propagator,
                    x0v,
                    self.dt,
                    zero_modes,
                    mm,
                ));
                    } else {
                        if !first_order_certificate_spec::<S, T, U, D, C, P>(
                    dyns,
                    costs,
                    self.propagator,
                    x0v,
                    self.dt,
                    zero_modes,
                    mm,
                ) {
                            let (gd0, gopt0) = choose|gd: DenseMatrix<S>, gopt: Seq<ModeId>|
                                #![auto]
                                initial_gradient_matrix_spec::<S, T, U, D, C, P>(
                                    dyns,
                                    costs,
                                    self.propagator,
                                    x0v,
                                    self.dt,
                                    kk as int,
                                    mm,
                                    gd,
                                ) && recorded_best_modes_spec(gd, gopt, kk as int, mm)
                                    && !schedule_cost_spec::<S, T, U, D, C, P>(
                        dyns,
                        costs,
                        self.propagator,
                        x0v,
                        self.dt,
                        armijo_search_spec::<S, T, U, D, C, P>(
                        dyns,
                        costs,
                        self.propagator,
                        x0v,
                        self.dt,
                        self.alpha,
                        self.beta,
                        gd,
                        self.eta,
                        gopt,
                        zero_modes,
                        schedule_cost_spec::<S, T, U, D, C, P>(
                            dyns,
                            costs,
                            self.propagator,
                            x0v,
                            self.dt,
                            zero_modes,
                        ),
                        0,
                        self.max_line_search_steps as int,
                    ),
                    ).lt_spec(old_value);
                            assert(initial_gradient_matrix_spec::<S, T, U, D, C, P>(
                        dyns,
                        costs,
                        self.propagator,
                        x0v,
                        self.dt,
                        kk as int,
                        mm,
                        gd0,
                    ) && recorded_best_modes_spec(gd0, gopt0, kk as int, mm)
                        && !schedule_cost_spec::<S, T, U, D, C, P>(
                        dyns,
                        costs,
                        self.propagator,
                        x0v,
                        self.dt,
                        armijo_search_spec::<S, T, U, D, C, P>(
                        dyns,
                        costs,
                        self.propagator,
                        x0v,
                        self.dt,
                        self.alpha,
                        self.beta,
                        gd0,
                        self.eta,
                        gopt0,
                        zero_modes,
                        schedule_cost_spec::<S, T, U, D, C, P>(
                            dyns,
                            costs,
                            self.propagator,
                            x0v,
                            self.dt,
                            zero_modes,
                        ),
                        0,
                        self.max_line_search_steps as int,
                    ),
                    ).lt_spec(schedule_cost_spec::<S, T, U, D, C, P>(
                        dyns,
                        costs,
                        self.propagator,
                        x0v,
                        self.dt,
                        mode_schedule.modes_spec(),
                    )));
                        }
                    }
                }
                self.optimized_state_schedule = Some(state_schedule);
                return mode_schedule;
            }
            proof {
                if mode_schedule.modes_spec() == zero_modes && first_order_certificate_spec::<
                    S,
                    T,
                    U,
                    D,
                    C,
                    P,
                >(dyns, costs, self.propagator, x0v, self.dt, zero_modes, mm) {
                    d.lemma_min_entry_lower_bound(S::zero_spec());
                    assert(false);
                }
            }

            let candidate = self.apply_armijo(
                &d,
                &optimal_modes,
                &mode_schedule,
                &state_schedule,
                &self.mode_dynamics_map,
                &self.x0,
                &self.propagator,
                self.dt,
            );
            let candidate_states = StateUpdater::new(
                &self.x0,
                &candidate,
                &self.mode_dynamics_map,
                &self.propagator,
                self.dt,
            );
            let candidate_cost = self.evaluate_cost(
                &candidate,
                &candidate_states,
                &self.mode_dynamics_map,
            );
            proof {
                assert(views_spec(candidate_states.states_spec()) =~= sweep_views_spec::<
                    S,
                    T,
                    U,
                    D,
                    P,
                >(self.propagator, dyns, candidate.modes_spec(), x0v, self.dt));
                assert(candidate_cost == schedule_cost_spec::<S, T, U, D, C, P>(
                        dyns,
                        costs,
                        self.propagator,
                        x0v,
                        self.dt,
                        candidate.modes_spec(),
                    ));
                if mode_schedule.modes_spec() == zero_modes {
                    assert(candidate.modes_spec() == armijo_search_spec::<S, T, U, D, C, P>(
                        dyns,
                        costs,
                        self.propagator,
                        x0v,
                        self.dt,
                        self.alpha,
                        self.beta,
                        d,
                        self.eta,
                        optimal_modes@,
                        zero_modes,
                        schedule_cost_spec::<S, T, U, D, C, P>(
                            dyns,
                            costs,
                            self.propagator,
                            x0v,
                            self.dt,
                            zero_modes,
                        ),
                        0,
                        self.max_line_search_steps as int,
                    ));
                }
            }

            if candidate_cost.le(old_value) {
                proof {
                    S::lemma_le_trans(candidate_cost, old_value, j0_g);
                    S::lemma_lt_irrefl(candidate_cost);
                    if mode_schedule.modes_spec() == zero_modes {
                        assert(initial_gradient_matrix_spec::<S, T, U, D, C, P>(
                        dyns,
                        costs,
                        self.propagator,
                        x0v,
                        self.dt,
                        kk as int,
                        mm,
                        d,
                    ) && recorded_best_modes_spec(d, optimal_modes@, kk as int, mm)
                        && !schedule_cost_spec::<S, T, U, D, C, P>(
                        dyns,
                        costs,
                        self.propagator,
                        x0v,
                        self.dt,
                        armijo_search_spec::<S, T, U, D, C, P>(
                        dyns,
                        costs,
                        self.propagator,
                        x0v,
                        self.dt,
                        self.alpha,
                        self.beta,
                        d,
                        self.eta,
                        optimal_modes@,
                        zero_modes,
                        schedule_cost_spec::<S, T, U, D, C, P>(
                            dyns,
                            costs,
                            self.propagator,
                            x0v,
                            self.dt,
                            zero_modes,
                        ),
                        0,
                        self.max_line_search_steps as int,
                    ),
                    ).lt_spec(candidate_cost));
                    } else {
                        if !first_order_certificate_spec::<S, T, U, D, C, P>(
                    dyns,
                    costs,
                    self.propagator,
                    x0v,
                    self.dt,
                    zero_modes,
                    mm,
                ) {
                            let (gd0, gopt0) = choose|gd: DenseMatrix<S>, gopt: Seq<ModeId>|
                        #![auto]
                        initial_gradient_matrix_spec::<S, T, U, D, C, P>(
                            dyns,
                            costs,
                            self.propagator,
                            x0v,
                            self.dt,
                            kk as int,
                            mm,
                            gd,
                        ) && recorded_best_modes_spec(gd, gopt, kk as int, mm)
                            && !schedule_cost_spec::<S, T, U, D, C, P>(
                        dyns,
                        costs,
                        self.propagator,
                        x0v,
                        self.dt,
                        armijo_search_spec::<S, T, U, D, C, P>(
                        dyns,
                        costs,
                        self.propagator,
                        x0v,
                        self.dt,
                        self.alpha,
                        self.beta,
                        gd,
                        self.eta,
                        gopt,
                        zero_modes,
                        schedule_cost_spec::<S, T, U, D, C, P>(
                            dyns,
                            costs,
                            self.propagator,
                            x0v,
                            self.dt,
                            zero_modes,
                        ),
                        0,
                        self.max_line_search_steps as int,
                    ),
                    ).lt_spec(old_value);
                            S::lemma_le_trans(
                                candidate_cost,
                                old_value,
                                schedule_cost_spec::<S, T, U, D, C, P>(
                        dyns,
                        costs,
                        self.propagator,
                        x0v,
                        self.dt,
                        armijo_search_spec::<S, T, U, D, C, P>(
                        dyns,
                        costs,
                        self.propagator,
                        x0v,
                        self.dt,
                        self.alpha,
                        self.beta,
                        gd0,
                        self.eta,
                        gopt0,
                        zero_modes,
                        schedule_cost_spec::<S, T, U, D, C, P>(
                            dyns,
                            costs,
                            self.propagator,
                            x0v,
                            self.dt,
                            zero_modes,
                        ),
                        0,
                        self.max_line_search_steps as int,
                    ),
                    ),
                            );
                            assert(initial_gradient_matrix_spec::<S, T, U, D, C, P>(
                        dyns,
                        costs,
                        self.propagator,
                        x0v,
                        self.dt,
                        kk as int,
                        mm,
                        gd0,
                    ) && recorded_best_modes_spec(gd0, gopt0, kk as int, mm)
                        && !schedule_cost_spec::<S, T, U, D, C, P>(
                        dyns,
                        costs,
                        self.propagator,
                        x0v,
                        self.dt,
                        armijo_search_spec::<S, T, U, D, C, P>(
                        dyns,
                        costs,
                        self.propagator,
                        x0v,
                        self.dt,
                        self.alpha,
                        self.beta,
                        gd0,
                        self.eta,
                        gopt0,
                        zero_modes,
                        schedule_cost_spec::<S, T, U, D, C, P>(
                            dyns,
                            costs,
                            self.propagator,
                            x0v,
                            self.dt,
                            zero_modes,
                        ),
                        0,
                        self.max_line_search_steps as int,
                    ),
                    ).lt_spec(candidate_cost));
                        }
                    }
                }
                if old_value.sub(candidate_cost).le(self.improvement_tolerance) {
                    self.optimized_state_schedule = Some(candidate_states);
                    return candidate;
                }
                mode_schedule = candidate;
                state_schedule = candidate_states;
                old_value = candidate_cost;
            } else {
                // The line search produced no decrease: keep the planned
                // schedule unchanged.
                proof {
                    S::lemma_lt_irrefl(candidate_cost);
                    S::lemma_lt_compat(candidate_cost, candidate_cost, old_value);
                    assert(old_value == schedule_cost_spec::<S, T, U, D, C, P>(
                        dyns,
                        costs,
                        self.propagator,
                        x0v,
                        self.dt,
                        mode_schedule.modes_spec(),
                    ));
                    if mode_schedule.modes_spec() == zero_modes {
                        assert(initial_gradient_matrix_spec::<S, T, U, D, C, P>(
                        dyns,
                        costs,
                        self.propagator,
                        x0v,
                        self.dt,
                        kk as int,
                        mm,
                        d,
                    ) && recorded_best_modes_spec(d, optimal_modes@, kk as int, mm)
                        && !schedule_cost_spec::<S, T, U, D, C, P>(
                        dyns,
                        costs,
                        self.propagator,
                        x0v,
                        self.dt,
                        armijo_search_spec::<S, T, U, D, C, P>(
                        dyns,
                        costs,
                        self.propagator,
                        x0v,
                        self.dt,
                        self.alpha,
                        self.beta,
                        d,
                        self.eta,
                        optimal_modes@,
                        zero_modes,
                        schedule_cost_spec::<S, T, U, D, C, P>(
                            dyns,
                            costs,
                            self.propagator,
                            x0v,
                            self.dt,
                            zero_modes,
                        ),
                        0,
                        self.max_line_search_steps as int,
                    ),
                    ).lt_spec(old_value));
                    } else {
                        if !first_order_certificate_spec::<S, T, U, D, C, P>(
                    dyns,
                    costs,
                    self.propagator,
                    x0v,
                    self.dt,
                    zero_modes,
                    mm,
                ) {
                            let (gd0, gopt0) = choose|gd: DenseMatrix<S>, gopt: Seq<ModeId>|
                        #![auto]
                        initial_gradient_matrix_spec::<S, T, U, D, C, P>(
                            dyns,
                            costs,
                            self.propagator,
                            x0v,
                            self.dt,
                            kk as int,
                            mm,
                            gd,
                        ) && recorded_best_modes_spec(gd, gopt, kk as int, mm)
                            && !schedule_cost_spec::<S, T, U, D, C, P>(
                        dyns,
                        costs,
                        self.propagator,
                        x0v,
                        self.dt,
                        armijo_search_spec::<S, T, U, D, C, P>(
                        dyns,
                        costs,
                        self.propagator,
                        x0v,
                        self.dt,
                        self.alpha,
                        self.beta,
                        gd,
                        self.eta,
                        gopt,
                        zero_modes,
                        schedule_cost_spec::<S, T, U, D, C, P>(
                            dyns,
                            costs,
                            self.propagator,
                            x0v,
                            self.dt,
                            zero_modes,
                        ),
                        0,
                        self.max_line_search_steps as int,
                    ),
                    ).lt_spec(old_value);
                            assert(initial_gradient_matrix_spec::<S, T, U, D, C, P>(
                        dyns,
                        costs,
                        self.propagator,
                        x0v,
                        self.dt,
                        kk as int,
                        mm,
                        gd0,
                    ) && recorded_best_modes_spec(gd0, gopt0, kk as int, mm)
                        && !schedule_cost_spec::<S, T, U, D, C, P>(
                        dyns,
                        costs,
                        self.propagator,
                        x0v,
                        self.dt,
                        armijo_search_spec::<S, T, U, D, C, P>(
                        dyns,
                        costs,
                        self.propagator,
                        x0v,
                        self.dt,
                        self.alpha,
                        self.beta,
                        gd0,
                        self.eta,
                        gopt0,
                        zero_modes,
                        schedule_cost_spec::<S, T, U, D, C, P>(
                            dyns,
                            costs,
                            self.propagator,
                            x0v,
                            self.dt,
                            zero_modes,
                        ),
                        0,
                        self.max_line_search_steps as int,
                    ),
                    ).lt_spec(old_value));
                        }
                    }
                }
                self.optimized_state_schedule = Some(state_schedule);
                return mode_schedule;
            }
            i = i + 1;
        }
        proof {
            assert(views_spec(state_schedule.states_spec()) =~= sweep_views_spec::<S, T, U, D, P>(
                self.propagator,
                dyns,
                mode_schedule.modes_spec(),
                x0v,
                self.dt,
            ));
            assert(old_value == schedule_cost_spec::<S, T, U, D, C, P>(
                        dyns,
                        costs,
                        self.propagator,
                        x0v,
                        self.dt,
                        mode_schedule.modes_spec(),
                    ));
            if self.max_iterations >= 1 && !first_order_certificate_spec::<S, T, U, D, C, P>(
                    dyns,
                    costs,
                    self.propagator,
                    x0v,
                    self.dt,
                    zero_modes,
                    mm,
                ) {
                let (gd0, gopt0) = choose|gd: DenseMatrix<S>, gopt: Seq<ModeId>|
                        #![auto]
                        initial_gradient_matrix_spec::<S, T, U, D, C, P>(
                            dyns,
                            costs,
                            self.propagator,
                            x0v,
                            self.dt,
                            kk as int,
                            mm,
                            gd,
                        ) && recorded_best_modes_spec(gd, gopt, kk as int, mm)
                            && !schedule_cost_spec::<S, T, U, D, C, P>(
                        dyns,
                        costs,
                        self.propagator,
                        x0v,
                        self.dt,
                        armijo_search_spec::<S, T, U, D, C, P>(
                        dyns,
                        costs,
                        self.propagator,
                        x0v,
                        self.dt,
                        self.alpha,
                        self.beta,
                        gd,
                        self.eta,
                        gopt,
                        zero_modes,
                        schedule_cost_spec::<S, T, U, D, C, P>(
                            dyns,
                            costs,
                            self.propagator,
                            x0v,
                            self.dt,
                            zero_modes,
                        ),
                        0,
                        self.max_line_search_steps as int,
                    ),
                    ).lt_spec(old_value);
                assert(initial_gradient_matrix_spec::<S, T, U, D, C, P>(
                        dyns,
                        costs,
                        self.propagator,
                        x0v,
                        self.dt,
                        kk as int,
                        mm,
                        gd0,
                    ) && recorded_best_modes_spec(gd0, gopt0, kk as int, mm)
                        && !schedule_cost_spec::<S, T, U, D, C, P>(
                        dyns,
                        costs,
                        self.propagator,
                        x0v,
                        self.dt,
                        armijo_search_spec::<S, T, U, D, C, P>(
                        dyns,
                        costs,
                        self.propagator,
                        x0v,
                        self.dt,
                        self.alpha,
                        self.beta,
                        gd0,
                        self.eta,
                        gopt0,
                        zero_modes,
                        schedule_cost_spec::<S, T, U, D, C, P>(
                            dyns,
                            costs,
                            self.propagator,
                            x0v,
                            self.dt,
                            zero_modes,
                        ),
                        0,
                        self.max_line_search_steps as int,
                    ),
                    ).lt_spec(schedule_cost_spec::<S, T, U, D, C, P>(
                        dyns,
                        costs,
                        self.propagator,
                        x0v,
                        self.dt,
                        mode_schedule.modes_spec(),
                    )));
            }
        }
        self.optimized_state_schedule = Some(state_schedule);
        mode_schedule
    }

    /// The total cost of a schedule on a given trajectory: step `k`'s
    /// stage cost is charged at the state it produces, `X[k + 1]`, for all
    /// but the last step, and the terminal cost of the mode active at the
    /// last step is charged at the final state `X[K]`.
    pub fn evaluate_cost(
        &self,
        schedule: &ModeSchedule,
        state_schedule: &StateSchedule<T>,
        mode_dynamics_map: &ModeDynamicsMap<D, C>,
    ) -> (r: S)
        requires
            catalogue_wf(mode_dynamics_map),
            schedule.in_catalogue_spec(mode_dynamics_map.num_modes_spec()),
            schedule.modes_spec().len() >= 1,
            state_schedule.states_spec().len() >= schedule.modes_spec().len() + 1,
            forall|k: int|
                0 <= k < state_schedule.states_spec().len() ==> (
                #[trigger] state_schedule.states_spec()[k].view_spec()).len() == T::dim_spec(),
        ensures
            r == total_cost_spec::<S, T, U, C>(
                mode_dynamics_map.cost_mapping@,
                schedule.modes_spec(),
                views_spec(state_schedule.states_spec()),
            ),
    {
        let ghost costs = mode_dynamics_map.cost_mapping@;
        let ghost modes = schedule.modes_spec();
        let ghost xs = views_spec(state_schedule.states_spec());
        let ghost stage = Seq::new(
            (modes.len() - 1) as nat,
            |k: int| costs[modes[k].id as int].stage_cost_spec(
                xs[k + 1],
                seq_zero::<S>(U::dim_spec()),
            ),
        );
        let kk = schedule.len();
        let u_zero = U::zeros();
        let mut cost_value = S::zero();
        let mut t_index: usize = 0;
        while t_index < kk - 1
            invariant
                kk == modes.len(),
                kk >= 1,
                costs == mode_dynamics_map.cost_mapping@,
                modes == schedule.modes_spec(),
                xs == views_spec(state_schedule.states_spec()),
                stage == Seq::new(
                    (modes.len() - 1) as nat,
                    |k: int| costs[modes[k].id as int].stage_cost_spec(
                        xs[k + 1],
                        seq_zero::<S>(U::dim_spec()),
                    ),
                ),
                catalogue_wf(mode_dynamics_map),
                schedule.in_catalogue_spec(mode_dynamics_map.num_modes_spec()),
                state_schedule.states_spec().len() >= kk + 1,
                forall|k: int|
                    0 <= k < state_schedule.states_spec().len() ==> (
                    #[trigger] state_schedule.states_spec()[k].view_spec()).len()
                        == T::dim_spec(),
                u_zero.view_spec() == seq_zero::<S>(U::dim_spec()),
                t_index <= kk - 1,
                cost_value == sum_spec(stage.subrange(0, t_index as int)),
            decreases kk - 1 - t_index,
        {
            let mode = schedule.modes[t_index];
            assert(mode.id < mode_dynamics_map.num_modes_spec());
            let cost = mode_dynamics_map.get_cost(mode).unwrap();
            proof {
                lemma_sum_extend(stage, t_index as int);
                assert(xs[t_index + 1 as int] == state_schedule.states@[t_index
                    + 1 as int].view_spec());
            }
            cost_value = cost_value.add(
                cost.stage_cost(&state_schedule.states[t_index + 1], &u_zero),
            );
            t_index = t_index + 1;
        }
        assert(stage.subrange(0, kk - 1 as int) =~= stage);
        let mode_last = schedule.modes[kk - 1];
        assert(mode_last.id < mode_dynamics_map.num_modes_spec());
        let cost_last = mode_dynamics_map.get_cost(mode_last).unwrap();
        proof {
            assert(xs[kk as int] == state_schedule.states@[kk as int].view_spec());
        }
        cost_value.add(cost_last.terminal_cost(&state_schedule.states[kk]))
    }

    /// One Armijo subset line search.
    ///
    /// Candidate indices are those whose best insertion-gradient entry lies
    /// within the band `eta * d_min`; the initial step length is one `dt`
    /// per candidate, and each failed trial contracts it by `beta` while
    /// the subset is recomputed from the full candidate list.  The result
    /// either leaves the schedule unchanged (empty subset or exhausted
    /// trials) or differs from it only at eligible indices — each replaced
    /// by its recorded best mode — and then satisfies the sufficient
    /// decrease `J(new) - J(old) <= alpha * lambda * d_min` for the step
    /// length of the accepted trial.
    pub fn apply_armijo(
        &self,
        d: &DenseMatrix<S>,
        optimal_modes: &Vec<ModeId>,
        mode_schedule: &ModeSchedule,
        state_schedule0: &StateSchedule<T>,
        mode_dynamics_map: &ModeDynamicsMap<D, C>,
        x0: &T,
        propagator: &P,
        dt: S,
    ) -> (r: ModeSchedule)
        requires
            catalogue_wf(mode_dynamics_map),
            mode_dynamics_map.num_modes_spec() >= 1,
            mode_schedule.start_spec() == 0,
            mode_schedule.modes_spec().len() >= 1,
            mode_schedule.modes_spec().len() == self.t_index_last,
            mode_schedule.in_catalogue_spec(mode_dynamics_map.num_modes_spec()),
            d.wf(),
            d.rows == mode_schedule.modes_spec().len(),
            d.cols == mode_dynamics_map.num_modes_spec(),
            optimal_modes@.len() == mode_schedule.modes_spec().len(),
            forall|k: int| 0 <= k < optimal_modes@.len() ==> (#[trigger] optimal_modes@[k]).id
                < mode_dynamics_map.num_modes_spec(),
            state_schedule0.states_spec().len() >= mode_schedule.modes_spec().len() + 1,
            forall|k: int|
                0 <= k < state_schedule0.states_spec().len() ==> (
                #[trigger] state_schedule0.states_spec()[k].view_spec()).len() == T::dim_spec(),
            x0.view_spec().len() == T::dim_spec(),
        ensures
            r.start_spec() == 0,
            r.modes_spec().len() == mode_schedule.modes_spec().len(),
            r.in_catalogue_spec(mode_dynamics_map.num_modes_spec()),
            forall|k: int|
                0 <= k < r.modes_spec().len() ==> (#[trigger] r.modes_spec()[k])
                    == mode_schedule.modes_spec()[k] || (r.modes_spec()[k] == optimal_modes@[k]
                    && row_selected_spec(*d, self.eta, k)),
            r.modes_spec() == mode_schedule.modes_spec() || (exists|j: int|
                #![auto]
                0 <= j < self.max_line_search_steps && armijo_accepted_spec::<S, T, U, D, C, P>(
                    mode_dynamics_map.dynamics_mapping@,
                    mode_dynamics_map.cost_mapping@,
                    *propagator,
                    x0.view_spec(),
                    dt,
                    self.alpha,
                    shrink_spec(
                        measure_spec(dt, sel_count_spec(*d, self.eta, d.rows as int)),
                        self.beta,
                        j,
                    ),
                    seq_min_spec(d.data@),
                    total_cost_spec::<S, T, U, C>(
                        mode_dynamics_map.cost_mapping@,
                        mode_schedule.modes_spec(),
                        views_spec(state_schedule0.states_spec()),
                    ),
                    r.modes_spec(),
                )),
            r.modes_spec() == armijo_search_spec::<S, T, U, D, C, P>(
                mode_dynamics_map.dynamics_mapping@,
                mode_dynamics_map.cost_mapping@,
                *propagator,
                x0.view_spec(),
                dt,
                self.alpha,
                self.beta,
                *d,
                self.eta,
                optimal_modes@,
                mode_schedule.modes_spec(),
                total_cost_spec::<S, T, U, C>(
                    mode_dynamics_map.cost_mapping@,
                    mode_schedule.modes_spec(),
                    views_spec(state_schedule0.states_spec()),
                ),
                0,
                self.max_line_search_steps as int,
            ),
    {
        let ghost kk = mode_schedule.modes_spec().len() as int;
        let d_min = d.min_entry();
        let old_value = self.evaluate_cost(mode_schedule, state_schedule0, mode_dynamics_map);
        let threshold = self.eta.mul(d_min);

        // Candidate construction: one entry per eligible row, in time
        // order, accumulating the initial step length.
        let mut selected_times: Vec<usize> = Vec::new();
        let mut selected_modes: Vec<ModeId> = Vec::new();
        let mut lambda0 = S::zero();
        let mut t: usize = 0;
        while t < d.rows
            invariant
                d.wf(),
                d.rows == kk,
                d.cols == mode_dynamics_map.num_modes_spec(),
                d.cols >= 1,
                threshold == self.eta.mul_spec(seq_min_spec(d.data@)),
                optimal_modes@.len() == kk,
                forall|k: int| 0 <= k < optimal_modes@.len() ==> (#[trigger] optimal_modes@[k]).id
                    < mode_dynamics_map.num_modes_spec(),
                t <= d.rows,
                selected_times@.len() == selected_modes@.len(),
                selected_times@.len() == sel_count_spec(*d, self.eta, t as int),
                selected_times@.len() == eligible_times_spec(*d, self.eta, t as int).len(),
                forall|i: int|
                    0 <= i < selected_times@.len() ==> #[trigger] selected_times@[i] as int
                        == eligible_times_spec(*d, self.eta, t as int)[i],
                lambda0 == measure_spec(dt, sel_count_spec(*d, self.eta, t as int)),
                forall|i: int| 0 <= i < selected_times@.len() ==> (#[trigger] selected_times@[i])
                    < t,
                forall|i: int|
                    0 <= i < selected_times@.len() ==> row_selected_spec(
                        *d,
                        self.eta,
                        #[trigger] selected_times@[i] as int,
                    ) && selected_modes@[i] == optimal_modes@[selected_times@[i] as int],
            decreases d.rows - t,
        {
            let min_value = d.row_min(t);
            if min_value.le(threshold) {
                selected_times.push(t);
                selected_modes.push(optimal_modes[t]);
                lambda0 = lambda0.add(dt);
            }
            t = t + 1;
        }

        let ghost lambda0_g = measure_spec(dt, sel_count_spec(*d, self.eta, kk));
        let ghost old_cost_g = total_cost_spec::<S, T, U, C>(
            mode_dynamics_map.cost_mapping@,
            mode_schedule.modes_spec(),
            views_spec(state_schedule0.states_spec()),
        );
        let ghost times_g = eligible_times_spec(*d, self.eta, kk);
        let ghost modes0_g = mode_schedule.modes_spec();
        let ghost search0_g = armijo_search_spec::<S, T, U, D, C, P>(
            mode_dynamics_map.dynamics_mapping@,
            mode_dynamics_map.cost_mapping@,
            *propagator,
            x0.view_spec(),
            dt,
            self.alpha,
            self.beta,
            *d,
            self.eta,
            optimal_modes@,
            modes0_g,
            old_cost_g,
            0,
            self.max_line_search_steps as int,
        );
        proof {
            lemma_eligible_times_count(*d, self.eta, kk);
        }

        let mut lambda = lambda0;
        let mut trial: usize = 0;
        while trial < self.max_line_search_steps
            invariant
                kk == mode_schedule.modes_spec().len(),
                kk == self.t_index_last,
                kk >= 1,
                catalogue_wf(mode_dynamics_map),
                mode_dynamics_map.num_modes_spec() >= 1,
                mode_schedule.start_spec() == 0,
                mode_schedule.in_catalogue_spec(mode_dynamics_map.num_modes_spec()),
                d.wf(),
                d.rows == kk,
                d.cols == mode_dynamics_map.num_modes_spec(),
                optimal_modes@.len() == kk,
                forall|k: int| 0 <= k < optimal_modes@.len() ==> (#[trigger] optimal_modes@[k]).id
                    < mode_dynamics_map.num_modes_spec(),
                x0.view_spec().len() == T::dim_spec(),
                d_min == seq_min_spec(d.data@),
                old_value == old_cost_g,
                old_cost_g == total_cost_spec::<S, T, U, C>(
                    mode_dynamics_map.cost_mapping@,
                    mode_schedule.modes_spec(),
                    views_spec(state_schedule0.states_spec()),
                ),
                lambda0_g == measure_spec(dt, sel_count_spec(*d, self.eta, kk)),
                times_g == eligible_times_spec(*d, self.eta, kk),
                modes0_g == mode_schedule.modes_spec(),
                times_g.len() == selected_times@.len(),
                lambda0_g == measure_spec(dt, times_g.len() as int),
                forall|i: int|
                    0 <= i < selected_times@.len() ==> #[trigger] selected_times@[i] as int
                        == times_g[i],
                search0_g == armijo_search_spec::<S, T, U, D, C, P>(
                    mode_dynamics_map.dynamics_mapping@,
                    mode_dynamics_map.cost_mapping@,
                    *propagator,
                    x0.view_spec(),
                    dt,
                    self.alpha,
                    self.beta,
                    *d,
                    self.eta,
                    optimal_modes@,
                    modes0_g,
                    old_cost_g,
                    0,
                    self.max_line_search_steps as int,
                ),
                search0_g == armijo_search_spec::<S, T, U, D, C, P>(
                    mode_dynamics_map.dynamics_mapping@,
                    mode_dynamics_map.cost_mapping@,
                    *propagator,
                    x0.view_spec(),
                    dt,
                    self.alpha,
                    self.beta,
                    *d,
                    self.eta,
                    optimal_modes@,
                    modes0_g,
                    old_cost_g,
                    trial as int,
                    self.max_line_search_steps as int,
                ),
                selected_times@.len() == selected_modes@.len(),
                forall|i: int| 0 <= i < selected_times@.len() ==> (#[trigger] selected_times@[i])
                    < kk,
                forall|i: int|
                    0 <= i < selected_times@.len() ==> row_selected_spec(
                        *d,
                        self.eta,
                        #[trigger] selected_times@[i] as int,
                    ) && selected_modes@[i] == optimal_modes@[selected_times@[i] as int],
                trial <= self.max_line_search_steps,
                lambda == shrink_spec(lambda0_g, self.beta, trial as int),
            decreases self.max_line_search_steps - trial,
        {
            let (subset_times, subset_modes) = self.get_subset(
                crate::algebra::vec_copy(&selected_times),
                crate::algebra::vec_copy(&selected_modes),
                lambda,
                dt,
            );
            let ghost n_g = subset_len_spec(dt, lambda, 0, times_g.len() as int);
            proof {
                lemma_subset_len_range(dt, lambda, 0, selected_times@.len() as int);
            }

            if subset_times.len() == 0 {
                proof {
                    assert(armijo_search_spec::<S, T, U, D, C, P>(
                        mode_dynamics_map.dynamics_mapping@,
                        mode_dynamics_map.cost_mapping@,
                        *propagator,
                        x0.view_spec(),
                        dt,
                        self.alpha,
                        self.beta,
                        *d,
                        self.eta,
                        optimal_modes@,
                        modes0_g,
                        old_cost_g,
                        trial as int,
                        self.max_line_search_steps as int,
                    ) == modes0_g);
                }
                return mode_schedule.duplicate();
            }

            let mut new_schedule = mode_schedule.duplicate();
            let mut idx: usize = 0;
            while idx < subset_times.len()
                invariant
                    kk == mode_schedule.modes_spec().len(),
                    mode_schedule.start_spec() == 0,
                    mode_schedule.in_catalogue_spec(mode_dynamics_map.num_modes_spec()),
                    optimal_modes@.len() == kk,
                    forall|k: int|
                        0 <= k < optimal_modes@.len() ==> (#[trigger] optimal_modes@[k]).id
                            < mode_dynamics_map.num_modes_spec(),
                    subset_times@.len() == subset_modes@.len(),
                    modes0_g == mode_schedule.modes_spec(),
                    subset_times@.len() <= times_g.len(),
                    forall|i: int|
                        0 <= i < subset_times@.len() ==> #[trigger] subset_times@[i] as int
                            == times_g[i],
                    forall|i: int| 0 <= i < subset_times@.len() ==> (#[trigger] subset_times@[i])
                        < kk,
                    forall|i: int|
                        0 <= i < subset_times@.len() ==> row_selected_spec(
                            *d,
                            self.eta,
                            #[trigger] subset_times@[i] as int,
                        ) && subset_modes@[i] == optimal_modes@[subset_times@[i] as int],
                    idx <= subset_times@.len(),
                    new_schedule.modes_spec() == apply_subset_spec(
                        modes0_g,
                        times_g.take(idx as int),
                        optimal_modes@,
                    ),
                    new_schedule.start_spec() == 0,
                    new_schedule.modes_spec().len() == kk,
                    new_schedule.in_catalogue_spec(mode_dynamics_map.num_modes_spec()),
                    forall|k: int|
                        0 <= k < kk ==> (#[trigger] new_schedule.modes_spec()[k])
                            == mode_schedule.modes_spec()[k] || (new_schedule.modes_spec()[k]
                            == optimal_modes@[k] && row_selected_spec(*d, self.eta, k)),
                decreases subset_times@.len() - idx,
            {
                let time = subset_times[idx];
                let mode = subset_modes[idx];
                proof {
                    lemma_apply_subset_extend(modes0_g, times_g, optimal_modes@, idx as int);
                    assert(times_g.take(idx as int + 1).drop_last() =~= times_g.take(idx as int));
                }
                new_schedule.insert(time, mode);
                idx = idx + 1;
            }

            let state_schedule_new = StateUpdater::new(
                x0,
                &new_schedule,
                mode_dynamics_map,
                propagator,
                dt,
            );
            let cost_value_new = self.evaluate_cost(
                &new_schedule,
                &state_schedule_new,
                mode_dynamics_map,
            );
            proof {
                let prop_views = sweep_views_spec::<S, T, U, D, P>(
                    *propagator,
                    mode_dynamics_map.dynamics_mapping@,
                    new_schedule.modes_spec(),
                    x0.view_spec(),
                    dt,
                );
                assert(views_spec(state_schedule_new.states_spec()) =~= prop_views);
                assert(new_schedule.modes_spec() == apply_subset_spec(
                    modes0_g,
                    times_g.take(n_g),
                    optimal_modes@,
                ));
            }

            if cost_value_new.sub(old_value).le(self.alpha.mul(lambda).mul(d_min)) {
                proof {
                    assert(armijo_accepted_spec::<S, T, U, D, C, P>(
                        mode_dynamics_map.dynamics_mapping@,
                        mode_dynamics_map.cost_mapping@,
                        *propagator,
                        x0.view_spec(),
                        dt,
                        self.alpha,
                        shrink_spec(lambda0_g, self.beta, trial as int),
                        seq_min_spec(d.data@),
                        old_cost_g,
                        new_schedule.modes_spec(),
                    ));
                    assert(exists|j: int|
                        #![auto]
                        0 <= j < self.max_line_search_steps && armijo_accepted_spec::<
                            S,
                            T,
                            U,
                            D,
                            C,
                            P,
                        >(
                            mode_dynamics_map.dynamics_mapping@,
                            mode_dynamics_map.cost_mapping@,
                            *propagator,
                            x0.view_spec(),
                            dt,
                            self.alpha,
                            shrink_spec(
                                measure_spec(dt, sel_count_spec(*d, self.eta, d.rows as int)),
                                self.beta,
                                j,
                            ),
                            seq_min_spec(d.data@),
                            total_cost_spec::<S, T, U, C>(
                                mode_dynamics_map.cost_mapping@,
                                mode_schedule.modes_spec(),
                                views_spec(state_schedule0.states_spec()),
                            ),
                            new_schedule.modes_spec(),
                        )) by {
                        assert(armijo_accepted_spec::<S, T, U, D, C, P>(
                            mode_dynamics_map.dynamics_mapping@,
                            mode_dynamics_map.cost_mapping@,
                            *propagator,
                            x0.view_spec(),
                            dt,
                            self.alpha,
                            shrink_spec(
                                measure_spec(dt, sel_count_spec(*d, self.eta, d.rows as int)),
                                self.beta,
                                trial as int,
                            ),
                            seq_min_spec(d.data@),
                            total_cost_spec::<S, T, U, C>(
                                mode_dynamics_map.cost_mapping@,
                                mode_schedule.modes_spec(),
                                views_spec(state_schedule0.states_spec()),
                            ),
                            new_schedule.modes_spec(),
                        ));
                    }
                    assert(armijo_search_spec::<S, T, U, D, C, P>(
                        mode_dynamics_map.dynamics_mapping@,
                        mode_dynamics_map.cost_mapping@,
                        *propagator,
                        x0.view_spec(),
                        dt,
                        self.alpha,
                        self.beta,
                        *d,
                        self.eta,
                        optimal_modes@,
                        modes0_g,
                        old_cost_g,
                        trial as int,
                        self.max_line_search_steps as int,
                    ) == new_schedule.modes_spec());
                }
                return ModeSchedule::new(0, self.t_index_last, &new_schedule.modes);
            }
            proof {
                assert(!armijo_accepted_spec::<S, T, U, D, C, P>(
                    mode_dynamics_map.dynamics_mapping@,
                    mode_dynamics_map.cost_mapping@,
                    *propagator,
                    x0.view_spec(),
                    dt,
                    self.alpha,
                    shrink_spec(lambda0_g, self.beta, trial as int),
                    seq_min_spec(d.data@),
                    old_cost_g,
                    new_schedule.modes_spec(),
                ));
                assert(armijo_search_spec::<S, T, U, D, C, P>(
                    mode_dynamics_map.dynamics_mapping@,
                    mode_dynamics_map.cost_mapping@,
                    *propagator,
                    x0.view_spec(),
                    dt,
                    self.alpha,
                    self.beta,
                    *d,
                    self.eta,
                    optimal_modes@,
                    modes0_g,
                    old_cost_g,
                    trial as int,
                    self.max_line_search_steps as int,
                ) == armijo_search_spec::<S, T, U, D, C, P>(
                    mode_dynamics_map.dynamics_mapping@,
                    mode_dynamics_map.cost_mapping@,
                    *propagator,
                    x0.view_spec(),
                    dt,
                    self.alpha,
                    self.beta,
                    *d,
                    self.eta,
                    optimal_modes@,
                    modes0_g,
                    old_cost_g,
                    trial as int + 1,
                    self.max_line_search_steps as int,
                ));
            }
            lambda = lambda.mul(self.beta);
            trial = trial + 1;
        }
        proof {
            assert(armijo_search_spec::<S, T, U, D, C, P>(
                mode_dynamics_map.dynamics_mapping@,
                mode_dynamics_map.cost_mapping@,
                *propagator,
                x0.view_spec(),
                dt,
                self.alpha,
                self.beta,
                *d,
                self.eta,
                optimal_modes@,
                modes0_g,
                old_cost_g,
                self.max_line_search_steps as int,
                self.max_line_search_steps as int,
            ) == modes0_g);
        }
        mode_schedule.duplicate()
    }

    /// The time index actually consulted for a query at `t_index`: indices
    /// beyond the horizon are clamped to the last planned step.
    pub open spec fn clamped_index_spec(&self, t_index: int) -> int {
        if t_index < self.t_index_last {
            t_index
        } else {
            self.t_index_last - 1
        }
    }

    /// The input the optimised schedule prescribes for step `t_index`: the
    /// constant input baked into the mode active at the clamped index.
    pub open spec fn planned_input_spec(&self, t_index: int) -> Seq<S> {
        match self.mode_schedule {
            Some(ms) => self.mode_dynamics_map.dynamics_mapping@[ms.modes_spec()[self.clamped_index_spec(
                t_index,
            )].id as int].input_spec(),
            None => Seq::empty(),
        }
    }

    /// The planned input for step `t_index`, with a flag that reports when
    /// the index lay beyond the horizon and the last planned step was used
    /// instead.
    pub fn control_input_checked(&self, state: &T, t_index: usize) -> (r: (U, bool))
        requires
            self.wf(),
            self.optimised_spec(),
            state.view_spec().len() == T::dim_spec(),
        ensures
            r.0.view_spec() == self.planned_input_spec(t_index as int),
            r.0.view_spec().len() == U::dim_spec(),
            r.1 == (t_index >= self.t_index_last),
    {
        let schedule = self.mode_schedule.as_ref().unwrap();
        let out_of_range = t_index >= self.t_index_last;
        let k = if out_of_range {
            self.t_index_last - 1
        } else {
            t_index
        };
        let mode = schedule.modes[k];
        assert(mode.id < self.mode_dynamics_map.num_modes_spec());
        let dynamics = self.mode_dynamics_map.get_dynamics(mode).unwrap();
        let t = S::from_usize(t_index).mul(self.dt);
        (dynamics.get_input(state, t), out_of_range)
    }

    /// The planned state at `t_index` on the optimised trajectory.  The
    /// index must lie on the stored window; a caller with a raw time
    /// checks this before the call and fails its own way when it does not.
    pub fn get_optimized_state_schedule(&self, t_index: usize) -> (r: &T)
        requires
            self.wf(),
            self.optimised_spec(),
            t_index <= self.t_index_last,
        ensures
            (self.optimized_state_schedule matches Some(ss) && *r == ss.states_spec()[t_index as int]),
    {
        let state_schedule = self.optimized_state_schedule.as_ref().unwrap();
        &state_schedule.states[t_index]
    }

    /// The longest prefix of the candidate list whose accumulated measure
    /// (one `dt` per entry) stays within the budget `lambda`.
    fn get_subset(
        &self,
        selected_times: Vec<usize>,
        selected_modes: Vec<ModeId>,
        lambda: S,
        dt: S,
    ) -> (r: (Vec<usize>, Vec<ModeId>))
        requires
            selected_times@.len() == selected_modes@.len(),
        ensures
            r.0@ == selected_times@.subrange(
                0,
                subset_len_spec(dt, lambda, 0, selected_times@.len() as int),
            ),
            r.1@ == selected_modes@.subrange(
                0,
                subset_len_spec(dt, lambda, 0, selected_times@.len() as int),
            ),
    {
        let ghost n_total = selected_times@.len() as int;
        let n = selected_times.len();
        let mut subset_times: Vec<usize> = Vec::new();
        let mut subset_modes: Vec<ModeId> = Vec::new();
        let mut measure = S::zero();
        let mut i: usize = 0;
        while i < n
            invariant
                n == n_total == selected_times@.len() == selected_modes@.len(),
                i <= n,
                measure == measure_spec(dt, i as int),
                subset_times@ == selected_times@.subrange(0, i as int),
                subset_modes@ == selected_modes@.subrange(0, i as int),
                forall|j: int| 0 <= j < i ==> !lambda.lt_spec(measure_spec(dt, #[trigger] (j + 1))),
            decreases n - i,
        {
            let next_measure = measure.add(dt);
            assert(next_measure == measure_spec(dt, i + 1));
            if lambda.lt(next_measure) {
                proof {
                    lemma_subset_len_skip(dt, lambda, i as int, n_total);
                    assert(subset_len_spec(dt, lambda, i as int, n_total) == i as int);
                }
                return (subset_times, subset_modes);
            }
            measure = next_measure;
            subset_times.push(selected_times[i]);
            subset_modes.push(selected_modes[i]);
            proof {
                assert(subset_times@ =~= selected_times@.subrange(0, i + 1));
                assert(subset_modes@ =~= selected_modes@.subrange(0, i + 1));
            }
            i = i + 1;
        }
        proof {
            lemma_subset_len_skip(dt, lambda, n_total, n_total);
        }
        (subset_times, subset_modes)
    }
}

impl<
    S: Scalar,
    T: StateVector<S>,
    U: Force<S>,
    D: ContinuousDynamicsAndDifferentiable<S, T, U>,
    C: CostAndDifferentiable<S, T, U>,
    P: Propagator<S, T, U, D>,
> Controller<S, T, U> for ModeScheduler<S, T, U, D, C, P> {
    /// The optimiser answers control queries once it is well formed and
    /// has planned a schedule.
    open spec fn controller_wf(&self) -> bool {
        self.wf() && self.optimised_spec()
    }

    /// The mode schedule's constant input at the (clamped) step; the state
    /// itself does not enter.
    open spec fn control_spec(&self, x: Seq<S>, t_index: int) -> Seq<S> {
        self.planned_input_spec(t_index)
    }

    fn compute_control_input(&self, state: &T, t_index: usize) -> (r: U) {
        let (input, _out_of_range) = self.control_input_checked(state, t_index);
        input
    }
}

} // verus!
