//! Behavioural tests of the library, run with a double-precision scalar.
//!
//! The library is generic over its scalar; these tests instantiate it with
//! a thin wrapper around `f64` and exercise the verified algorithms on the
//! numbers the simulator actually uses.

use satellite_simulator::algebra::DenseMatrix;
use satellite_simulator::catalogue::ModeDynamicsMap;
use satellite_simulator::controller::Controller;
use satellite_simulator::cost::Cost;
use satellite_simulator::differentiable::NumericalDefferential;
use satellite_simulator::dynamics::{ContinuousDynamics, Differentiable2d, InputDefinedDynamics};
use satellite_simulator::force::Force;
use satellite_simulator::forces::{Force3D, Force3dEci, Force3dLvlh, Force6dEci, Force6dLvlh};
use satellite_simulator::insertion::InsertionGradientCalculator;
use satellite_simulator::math::Math;
use satellite_simulator::models::{HcwDynamics, LinearControlledDynamics, LinearDynamics,
    PairTwoBodyDynamics, TwoBodyDynamics};
use satellite_simulator::propagator::{EulerPropagator, Propagator, RungeKutta4Propagator};
use satellite_simulator::quadric_cost::QuadraticCost;
use satellite_simulator::scalar::Scalar;
use satellite_simulator::schedule::{ModeId, ModeSchedule};
use satellite_simulator::scheduler::ModeScheduler;
use satellite_simulator::state::StateVector;
use satellite_simulator::states::{OrbitalElements, OrbitalElementsError,
    PositionVelocityCovarianceStateLvlh, PositionVelocityPairStateEci, PositionVelocityStateEci,
    PositionVelocityStateLvlh};
use satellite_simulator::sweep::{AdjointVariableUpdater, StateUpdater};
use satellite_simulator::wrapper::{ModeDynamics, ModeState};

/// The gravitational parameter used throughout.
const MU: f64 = 3.986004e14;

/// A double-precision scalar for the library's abstract arithmetic.
#[derive(Clone, Copy, Debug, PartialEq)]
struct R(f64);

impl Scalar for R {
    // The specification-level members exist in the compiled trait too;
    // they are never called at runtime.
    fn add_spec(self, _other: Self) -> Self {
        self
    }
    fn sub_spec(self, _other: Self) -> Self {
        self
    }
    fn mul_spec(self, _other: Self) -> Self {
        self
    }
    fn div_spec(self, _other: Self) -> Self {
        self
    }
    fn sqrt_spec(self) -> Self {
        self
    }
    fn lt_spec(self, _other: Self) -> bool {
        false
    }
    fn zero_spec() -> Self {
        R(0.0)
    }
    fn one_spec() -> Self {
        R(1.0)
    }
    fn pi_spec() -> Self {
        R(0.0)
    }
    fn from_usize_spec(_n: usize) -> Self {
        R(0.0)
    }
    fn lemma_sub_self(_a: Self) {}
    fn lemma_add_zero(_a: Self) {}
    fn lemma_mul_zero(_a: Self) {}
    fn lemma_lt_irrefl(_a: Self) {}
    fn lemma_lt_compat(_a: Self, _b: Self, _c: Self) {}
    fn lemma_le_trans(_a: Self, _b: Self, _c: Self) {}

    fn add(self, other: Self) -> Self {
        R(self.0 + other.0)
    }
    fn sub(self, other: Self) -> Self {
        R(self.0 - other.0)
    }
    fn mul(self, other: Self) -> Self {
        R(self.0 * other.0)
    }
    fn div(self, other: Self) -> Self {
        R(self.0 / other.0)
    }
    fn sqrt(self) -> Self {
        R(self.0.sqrt())
    }
    fn lt(self, other: Self) -> bool {
        self.0 < other.0
    }
    fn zero() -> Self {
        R(0.0)
    }
    fn one() -> Self {
        R(1.0)
    }
    fn pi() -> Self {
        R(std::f64::consts::PI)
    }
    fn from_usize(n: usize) -> Self {
        R(n as f64)
    }
}

fn rvec(values: &[f64]) -> Vec<R> {
    values.iter().map(|v| R(*v)).collect()
}

fn fvec(values: &Vec<R>) -> Vec<f64> {
    values.iter().map(|v| v.0).collect()
}

fn r3(a: f64, b: f64, c: f64) -> [R; 3] {
    [R(a), R(b), R(c)]
}

fn mat(rows: usize, cols: usize, data: &[f64]) -> DenseMatrix<R> {
    assert_eq!(data.len(), rows * cols);
    DenseMatrix::new(rows, cols, rvec(data))
}

fn eye(n: usize) -> DenseMatrix<R> {
    let mut data = vec![0.0; n * n];
    let mut i = 0;
    while i < n {
        data[i * n + i] = 1.0;
        i += 1;
    }
    mat(n, n, &data)
}

fn zeros(rows: usize, cols: usize) -> DenseMatrix<R> {
    mat(rows, cols, &vec![0.0; rows * cols])
}

fn assert_close(a: &[f64], b: &[f64], tol: f64) {
    assert_eq!(a.len(), b.len());
    for i in 0..a.len() {
        assert!(
            (a[i] - b[i]).abs() <= tol,
            "component {} differs: {} vs {} (tol {})",
            i,
            a[i],
            b[i],
            tol
        );
    }
}

// ---------------------------------------------------------------------------
// Construction from a flat array and extraction are mutually inverse.
// ---------------------------------------------------------------------------

#[test]
fn flat_array_round_trip_states_and_forces() {
    let values = [1.5, -2.0, 0.25, 9.0, -7.5, 3.0];
    let st = PositionVelocityStateEci::form_from_array(rvec(&values));
    assert_eq!(fvec(st.get_vector()), values.to_vec());

    let lv = PositionVelocityStateLvlh::form_from_array(rvec(&values));
    assert_eq!(fvec(lv.get_vector()), values.to_vec());

    let pair_values: Vec<f64> = (0..12).map(|i| i as f64 * 0.5 - 2.0).collect();
    let pair = PositionVelocityPairStateEci::form_from_array(rvec(&pair_values));
    assert_eq!(fvec(pair.get_vector()), pair_values);

    let aug_values: Vec<f64> = (0..33).map(|i| (i as f64) * 0.125).collect();
    let aug = PositionVelocityCovarianceStateLvlh::form_from_array(rvec(&aug_values));
    assert_eq!(fvec(aug.get_vector()), aug_values);

    let f = Force3dEci::form_from_array(rvec(&[0.1, 0.2, 0.3]));
    assert_eq!(fvec(f.get_vector()), vec![0.1, 0.2, 0.3]);

    let f6 = Force6dEci::form_from_array(rvec(&[0.1, 0.2, 0.3, 0.4, 0.5, 0.6]));
    assert_eq!(fvec(f6.get_vector()), vec![0.1, 0.2, 0.3, 0.4, 0.5, 0.6]);
}

// ---------------------------------------------------------------------------
// State and force arithmetic on concrete values.
// ---------------------------------------------------------------------------

#[test]
fn position_velocity_state_eci_test_position_velocity_state_operations() {
    let pv_state1 = PositionVelocityStateEci::form_from_list(
        r3(7000.0, 0.0, 0.0),
        r3(0.0, 7.5, 0.0),
    );
    let pv_state2 = PositionVelocityStateEci::form_from_list(
        r3(1000.0, 0.0, 0.0),
        r3(0.0, -1.5, 0.0),
    );

    let sum1 = pv_state1.add_vec(&pv_state2);
    assert_eq!(fvec(sum1.get_vector()), vec![8000.0, 0.0, 0.0, 0.0, 6.0, 0.0]);

    let diff = pv_state1.sub_vec(&pv_state2);
    assert_eq!(fvec(diff.get_vector()), vec![6000.0, 0.0, 0.0, 0.0, 9.0, 0.0]);

    let scaled = pv_state1.mul_scalar(R(2.0));
    assert_eq!(fvec(scaled.get_vector()), vec![14000.0, 0.0, 0.0, 0.0, 15.0, 0.0]);

    let divided = pv_state1.div_scalar(R(2.0));
    assert_eq!(fvec(divided.get_vector()), vec![3500.0, 0.0, 0.0, 0.0, 3.75, 0.0]);
}

#[test]
fn position_velocity_state_eci_test_position_velocity_state_matrix_multiplication() {
    let pv_state = PositionVelocityStateEci::form_from_list(
        r3(7000.0, 0.0, 0.0),
        r3(0.0, 7.5, 0.0),
    );
    let transform_matrix = eye(6);
    let transformed = PositionVelocityStateEci::form_from_array(
        transform_matrix.matvec(pv_state.get_vector()),
    );
    assert_eq!(fvec(transformed.get_vector()), fvec(pv_state.get_vector()));
}

#[test]
fn relative_position_velocity_state_lvlh_test_position_velocity_state_operations() {
    let pv_state1 = PositionVelocityStateLvlh::form_from_list(
        r3(7000.0, 0.0, 0.0),
        r3(0.0, 7.5, 0.0),
    );
    let pv_state2 = PositionVelocityStateLvlh::form_from_list(
        r3(1000.0, 0.0, 0.0),
        r3(0.0, -1.5, 0.0),
    );

    let sum1 = pv_state1.add_vec(&pv_state2);
    assert_eq!(fvec(sum1.get_vector()), vec![8000.0, 0.0, 0.0, 0.0, 6.0, 0.0]);

    let diff = pv_state1.sub_vec(&pv_state2);
    assert_eq!(fvec(diff.get_vector()), vec![6000.0, 0.0, 0.0, 0.0, 9.0, 0.0]);

    let scaled = pv_state1.mul_scalar(R(2.0));
    assert_eq!(fvec(scaled.get_vector()), vec![14000.0, 0.0, 0.0, 0.0, 15.0, 0.0]);

    let divided = pv_state1.div_scalar(R(2.0));
    assert_eq!(fvec(divided.get_vector()), vec![3500.0, 0.0, 0.0, 0.0, 3.75, 0.0]);
}

#[test]
fn relative_position_velocity_state_lvlh_test_position_velocity_state_matrix_multiplication() {
    let pv_state = PositionVelocityStateLvlh::form_from_list(
        r3(7000.0, 0.0, 0.0),
        r3(0.0, 7.5, 0.0),
    );
    let transform_matrix = eye(6);
    let transformed = PositionVelocityStateLvlh::form_from_array(
        transform_matrix.matvec(pv_state.get_vector()),
    );
    assert_eq!(fvec(transformed.get_vector()), fvec(pv_state.get_vector()));
}

#[test]
fn relative_position_velocity_state_lvlh_test_form_from_states() {
    let base = PositionVelocityStateEci::form_from_list(r3(7000.0, 0.0, 0.0), r3(0.0, 7.0, 0.0));
    let target = PositionVelocityStateEci::form_from_list(
        r3(7100.0, 100.0, 0.0),
        r3(0.1, 8.0, 0.0),
    );

    let relative = PositionVelocityStateLvlh::form_from_states(&base, &target);

    assert_eq!(fvec(&relative.position()), vec![100.0, 100.0, 0.0]);
    assert_eq!(fvec(&relative.velocity()), vec![0.1, 1.0, 0.0]);
}

#[test]
fn position_velocity_covariance_state_lvlh_test_position_velocity_covariance_state() {
    let p_full = mat(
        6,
        6,
        &[
            0.1, 0.01, 0.02, 0.03, 0.04, 0.05,
            0.01, 0.2, 0.06, 0.07, 0.08, 0.09,
            0.02, 0.06, 0.3, 0.10, 0.11, 0.12,
            0.03, 0.07, 0.10, 0.4, 0.13, 0.14,
            0.04, 0.08, 0.11, 0.13, 0.5, 0.15,
            0.05, 0.09, 0.12, 0.14, 0.15, 0.6,
        ],
    );

    let mu_x = PositionVelocityStateLvlh::form_from_list(r3(7000.0, 0.0, 0.0), r3(0.0, 7.5, 0.0));
    let est_x = PositionVelocityStateLvlh::form_from_list(
        r3(6999.0, 0.0, 0.1),
        r3(0.0, 7.49, 0.1),
    );

    let pvc_state = PositionVelocityCovarianceStateLvlh::from_from_states(
        &mu_x,
        &est_x,
        p_full.duplicate(),
    );

    assert_eq!(fvec(pvc_state.get_mu_x().get_vector()), fvec(mu_x.get_vector()));
    assert_eq!(fvec(pvc_state.get_est_x().get_vector()), fvec(est_x.get_vector()));
    let unpacked = pvc_state.get_covariance_matrix();
    assert_eq!(fvec(&unpacked.data), fvec(&p_full.data));
}

#[test]
fn test_force3d_operations() {
    let f1 = Force3D::form_from_list(r3(1.0, 2.0, 3.0));
    let f2 = Force3D::form_from_list(r3(0.5, -1.0, 2.0));

    let sum = f1.add_vec(&f2);
    assert_eq!(fvec(sum.get_vector()), vec![1.5, 1.0, 5.0]);

    let diff = f1.sub_vec(&f2);
    assert_eq!(fvec(diff.get_vector()), vec![0.5, 3.0, 1.0]);

    let scaled = f1.mul_scalar(R(2.0));
    assert_eq!(fvec(scaled.get_vector()), vec![2.0, 4.0, 6.0]);

    let divided = f1.div_scalar(R(2.0));
    assert_eq!(fvec(divided.get_vector()), vec![0.5, 1.0, 1.5]);
}

#[test]
fn test_force3d_matrix_multiplication() {
    let f = Force3D::form_from_list(r3(1.0, 2.0, 3.0));
    let transform_matrix = mat(3, 3, &[2.0, 0.0, 0.0, 0.0, 3.0, 0.0, 0.0, 0.0, 4.0]);
    let transformed = Force3D::<R>::form_from_array(transform_matrix.matvec(f.get_vector()));
    assert_eq!(fvec(transformed.get_vector()), vec![2.0, 6.0, 12.0]);
}

#[test]
fn test_force3d_eci_operations() {
    let f1 = Force3dEci::form_from_list(r3(1.0, 2.0, 3.0));
    let f2 = Force3dEci::form_from_list(r3(0.5, -1.0, 2.0));

    let sum = f1.add_vec(&f2);
    assert_eq!(fvec(sum.get_vector()), vec![1.5, 1.0, 5.0]);

    let diff = f1.sub_vec(&f2);
    assert_eq!(fvec(diff.get_vector()), vec![0.5, 3.0, 1.0]);

    let scaled = f1.mul_scalar(R(2.0));
    assert_eq!(fvec(scaled.get_vector()), vec![2.0, 4.0, 6.0]);

    let divided = f1.div_scalar(R(2.0));
    assert_eq!(fvec(divided.get_vector()), vec![0.5, 1.0, 1.5]);
}

#[test]
fn test_force3d_eci_matrix_multiplication() {
    let f = Force3dEci::form_from_list(r3(1.0, 2.0, 3.0));
    let transform_matrix = mat(3, 3, &[2.0, 0.0, 0.0, 0.0, 3.0, 0.0, 0.0, 0.0, 4.0]);
    let transformed = Force3dEci::<R>::form_from_array(transform_matrix.matvec(f.get_vector()));
    assert_eq!(fvec(transformed.get_vector()), vec![2.0, 6.0, 12.0]);
}

#[test]
fn test_force3d_lvlh_operations() {
    let f1 = Force3dLvlh::form_from_list(r3(1.0, 2.0, 3.0));
    let f2 = Force3dLvlh::form_from_list(r3(0.5, -1.0, 2.0));

    let sum = f1.add_vec(&f2);
    assert_eq!(fvec(sum.get_vector()), vec![1.5, 1.0, 5.0]);

    let diff = f1.sub_vec(&f2);
    assert_eq!(fvec(diff.get_vector()), vec![0.5, 3.0, 1.0]);

    let scaled = f1.mul_scalar(R(2.0));
    assert_eq!(fvec(scaled.get_vector()), vec![2.0, 4.0, 6.0]);

    let divided = f1.div_scalar(R(2.0));
    assert_eq!(fvec(divided.get_vector()), vec![0.5, 1.0, 1.5]);
}

#[test]
fn test_force3d_lvlh_matrix_multiplication() {
    let f = Force3dLvlh::form_from_list(r3(1.0, 2.0, 3.0));
    let transform_matrix = mat(3, 3, &[2.0, 0.0, 0.0, 0.0, 3.0, 0.0, 0.0, 0.0, 4.0]);
    let transformed = Force3dLvlh::<R>::form_from_array(transform_matrix.matvec(f.get_vector()));
    assert_eq!(fvec(transformed.get_vector()), vec![2.0, 6.0, 12.0]);
}

#[test]
fn test_quadratic_cost() {
    let q_matrix = eye(6);
    let r_matrix = eye(3);
    let qf_matrix = eye(6);
    let t_last = R(10.0);

    let cost_function = QuadraticCost::new(q_matrix, r_matrix, qf_matrix, t_last);

    let x = PositionVelocityStateEci::form_from_array(rvec(&[1.0, 2.0, 3.0, 0.0, 0.0, 0.0]));
    let v = Force3dEci::form_from_array(rvec(&[0.5, 1.5, 0.0]));

    // With identity weights, both gradient branches reduce to the state.
    let grad_before_t_last = satellite_simulator::dynamics::Differentiable1d::differentiate(
        &cost_function,
        &x,
        &v,
        false,
    );
    assert_eq!(fvec(&grad_before_t_last), vec![1.0, 2.0, 3.0, 0.0, 0.0, 0.0]);

    let grad_at_t_last = satellite_simulator::dynamics::Differentiable1d::differentiate(
        &cost_function,
        &x,
        &v,
        true,
    );
    assert_eq!(fvec(&grad_at_t_last), vec![1.0, 2.0, 3.0, 0.0, 0.0, 0.0]);

    // Stage and terminal values: |x|^2 + |v|^2 and |x|^2.
    let stage = Cost::<R, PositionVelocityStateEci<R>, Force3dEci<R>>::stage_cost(
        &cost_function,
        &x,
        &v,
    );
    assert!((stage.0 - (14.0 + 2.5)).abs() < 1e-12);
    let terminal = Cost::<R, PositionVelocityStateEci<R>, Force3dEci<R>>::terminal_cost(
        &cost_function,
        &x,
    );
    assert!((terminal.0 - 14.0).abs() < 1e-12);
}

// ---------------------------------------------------------------------------
// Schedules, the catalogue and the control surface.
// ---------------------------------------------------------------------------

#[test]
fn mode_schedule_window_and_updates() {
    let mut schedule = ModeSchedule::new_from_mode0(0, 5, ModeId::new(0));
    assert_eq!(schedule.len(), 5);
    assert_eq!(schedule.get(0), Some(ModeId::new(0)));
    assert_eq!(schedule.get(4), Some(ModeId::new(0)));
    assert_eq!(schedule.get(5), None);

    schedule.insert(2, ModeId::new(7));
    assert_eq!(schedule.get(2), Some(ModeId::new(7)));
    schedule.update(2, ModeId::new(3));
    assert_eq!(schedule.get(2), Some(ModeId::new(3)));
    assert_eq!(schedule.get(1), Some(ModeId::new(0)));

    let explicit = ModeSchedule::new(1, 4, &vec![ModeId::new(9), ModeId::new(8), ModeId::new(7)]);
    assert_eq!(explicit.get(0), None);
    assert_eq!(explicit.get(1), Some(ModeId::new(9)));
    assert_eq!(explicit.get(3), Some(ModeId::new(7)));
    assert_eq!(explicit.get(4), None);
}

#[test]
fn orbital_elements_domain_checks() {
    let ok = OrbitalElements::form_from_elements(
        R(6.928e6),
        R(0.001),
        R(std::f64::consts::FRAC_PI_2),
        R(0.0),
        R(0.28869219),
        R(0.0),
    );
    let oe = ok.expect("valid elements must be accepted");
    assert_eq!(fvec(oe.get_vector())[0], 6.928e6);

    let bad_a = OrbitalElements::form_from_elements(
        R(-1.0),
        R(0.0),
        R(0.0),
        R(0.0),
        R(0.0),
        R(0.0),
    );
    assert_eq!(bad_a.unwrap_err(), OrbitalElementsError::NonPositiveSemiMajorAxis);

    let bad_e = OrbitalElements::form_from_elements(
        R(7.0e6),
        R(1.5),
        R(0.0),
        R(0.0),
        R(0.0),
        R(0.0),
    );
    assert_eq!(bad_e.unwrap_err(), OrbitalElementsError::EccentricityOutOfRange);

    let bad_i = OrbitalElements::form_from_elements(
        R(7.0e6),
        R(0.0),
        R(4.0),
        R(0.0),
        R(0.0),
        R(0.0),
    );
    let bad_i_err = bad_i.unwrap_err();
    assert_eq!(bad_i_err, OrbitalElementsError::InclinationOutOfRange);
    assert!(bad_i_err.message().contains("inclination"));
}

/// The 27-mode catalogue over the Hill-Clohessy-Wiltshire model used by the
/// optimiser scenarios below.
fn hcw_catalogue(
    a: f64,
    u_max: f64,
    q: DenseMatrix<R>,
    qf: DenseMatrix<R>,
) -> (Vec<LinearControlledDynamics<R, Force3dLvlh<R>>>, Vec<QuadraticCost<R>>) {
    let hcw = HcwDynamics::new(R(a), R(MU));
    let a_matrix = hcw.system_matrix();
    let b_matrix = hcw.input_matrix();
    let mut dynamics = Vec::new();
    let mut costs = Vec::new();
    let options = [0.0, u_max, -u_max];
    for i in 0..3 {
        for j in 0..3 {
            for k in 0..3 {
                let input = Force3dLvlh::form_from_list(r3(options[i], options[j], options[k]));
                dynamics.push(LinearControlledDynamics::new(
                    a_matrix.duplicate(),
                    b_matrix.duplicate(),
                    input,
                ));
                costs.push(QuadraticCost::new(
                    q.duplicate(),
                    eye(3),
                    qf.duplicate(),
                    R(100.0),
                ));
            }
        }
    }
    (dynamics, costs)
}

#[test]
fn control_continuity_over_one_step() {
    // For any t in [k*h, (k+1)*h), the index floor(t/h) is k and the
    // control equals the mode's fixed input at k.
    let (dynamics, costs) = hcw_catalogue(7.0e6, 0.01, zeros(6, 6), eye(6));
    let x0 = PositionVelocityStateLvlh::form_from_list(r3(10.0, 10.0, 10.0), r3(0.0, 0.0, 0.0));
    let scheduler: ModeScheduler<
        R,
        PositionVelocityStateLvlh<R>,
        Force3dLvlh<R>,
        LinearControlledDynamics<R, Force3dLvlh<R>>,
        QuadraticCost<R>,
        RungeKutta4Propagator,
    > = ModeScheduler::new(
        R(0.9),
        R(0.5),
        R(0.5),
        3,
        0,
        20,
        x0.duplicate(),
        dynamics,
        costs,
        RungeKutta4Propagator,
        R(1.0),
        64,
        R(0.01),
    );
    let h = 1.0f64;
    let schedule = scheduler.mode_schedule.as_ref().unwrap();
    for t in [0.0, 0.4, 0.999, 5.0, 5.5, 19.0, 19.99] {
        let k = (t / h).floor() as usize;
        let input = scheduler.compute_control_input(&x0, k);
        let mode = schedule.get(k).unwrap();
        let expected = scheduler
            .mode_dynamics_map
            .get_dynamics(mode)
            .unwrap()
            .get_input(&x0, R(t));
        assert_eq!(fvec(input.get_vector()), fvec(expected.get_vector()));
    }
    // Past the horizon the lookup clamps to the last planned step.
    let clamped = scheduler.compute_control_input(&x0, 1000);
    let last_mode = schedule.get(19).unwrap();
    let expected = scheduler
        .mode_dynamics_map
        .get_dynamics(last_mode)
        .unwrap()
        .get_input(&x0, R(1000.0));
    assert_eq!(fvec(clamped.get_vector()), fvec(expected.get_vector()));
}

// ---------------------------------------------------------------------------
// Propagation accuracy and differentiation.
// ---------------------------------------------------------------------------

/// exp(A h) x + integral of exp(A tau) B u dtau, by series.
fn lti_exact_step(
    a: &DenseMatrix<R>,
    b: &DenseMatrix<R>,
    x: &[f64],
    u: &[f64],
    h: f64,
) -> Vec<f64> {
    let n = x.len();
    let af: Vec<f64> = a.data.iter().map(|v| v.0).collect();
    let bf: Vec<f64> = b.data.iter().map(|v| v.0).collect();
    let m = u.len();
    // phi = exp(A h), psi = sum_{k>=0} A^k h^(k+1) / (k+1)!  (so psi*B*u is the forced term)
    let mut phi = vec![0.0; n * n];
    let mut psi = vec![0.0; n * n];
    let mut term = vec![0.0; n * n];
    for i in 0..n {
        phi[i * n + i] = 1.0;
        term[i * n + i] = 1.0;
        psi[i * n + i] = h;
    }
    let mut factor = 1.0f64;
    let mut k = 1usize;
    while k < 30 {
        // term <- term * A
        let mut next = vec![0.0; n * n];
        for i in 0..n {
            for j in 0..n {
                let mut acc = 0.0;
                for l in 0..n {
                    acc += term[i * n + l] * af[l * n + j];
                }
                next[i * n + j] = acc;
            }
        }
        term = next;
        factor *= h / (k as f64);
        for i in 0..n * n {
            phi[i] += term[i] * factor;
            psi[i] += term[i] * factor * h / ((k + 1) as f64);
        }
        k += 1;
    }
    let mut out = vec![0.0; n];
    for i in 0..n {
        let mut acc = 0.0;
        for j in 0..n {
            acc += phi[i * n + j] * x[j];
        }
        let mut forced = 0.0;
        for j in 0..m {
            let mut bj = 0.0;
            for l in 0..n {
                bj += psi[i * n + l] * bf[l * m + j];
            }
            forced += bj * u[j];
        }
        out[i] = acc + forced;
    }
    out
}

#[test]
fn rk4_matches_matrix_exponential_to_fifth_order() {
    let hcw = HcwDynamics::new(R(7.0e6), R(MU));
    let a = hcw.system_matrix();
    let b = hcw.input_matrix();
    let model = LinearDynamics::new(a.duplicate(), b.duplicate());
    let x = PositionVelocityStateLvlh::form_from_list(r3(10.0, -5.0, 3.0), r3(0.02, 0.01, -0.03));
    let u = Force3dLvlh::form_from_list(r3(0.004, -0.002, 0.001));
    let h = 1.0;

    let stepped = RungeKutta4Propagator.propagate_continuous(&x, &u, &model, R(h));
    let exact = lti_exact_step(&a, &b, &fvec(x.get_vector()), &fvec(u.get_vector()), h);
    // The local error of one fourth-order step is O(h^5); with n ~ 1e-3
    // the constant is tiny.
    assert_close(&fvec(stepped.get_vector()), &exact, 1e-9);

    // Euler agrees only to first order; check it is close but measurably
    // less accurate than the four-stage step.
    let euler = EulerPropagator.propagate_continuous(&x, &u, &model, R(h));
    let euler_err: f64 = fvec(euler.get_vector())
        .iter()
        .zip(exact.iter())
        .map(|(p, q)| (p - q).abs())
        .fold(0.0, f64::max);
    let rk4_err: f64 = fvec(stepped.get_vector())
        .iter()
        .zip(exact.iter())
        .map(|(p, q)| (p - q).abs())
        .fold(0.0, f64::max);
    assert!(rk4_err < euler_err);
}

#[test]
fn central_difference_jacobian_matches_linear_model() {
    let hcw = HcwDynamics::new(R(7.0e6), R(MU));
    let a = hcw.system_matrix();
    let b = hcw.input_matrix();
    let model = LinearDynamics::new(a.duplicate(), b.duplicate());
    let x = PositionVelocityStateLvlh::form_from_list(r3(10.0, -5.0, 3.0), r3(0.02, 0.01, -0.03));
    let u = Force3dLvlh::form_from_list(r3(0.0, 0.0, 0.0));

    let numeric = NumericalDefferential::<PositionVelocityStateLvlh<R>, Force3dLvlh<R>>::differentiate_numeric(
        &model,
        &x,
        &u,
        R(1.0e-5),
    );
    let analytic = Differentiable2d::differentiate(&model, &x, &u, R(0.0));
    let max_err = numeric
        .data
        .iter()
        .zip(analytic.data.iter())
        .map(|(p, q)| (p.0 - q.0).abs())
        .fold(0.0, f64::max);
    assert!(max_err <= 1.0e-3, "max-norm disagreement {}", max_err);
}

// ---------------------------------------------------------------------------
// Sweeps, insertion gradient and the line search.
// ---------------------------------------------------------------------------

#[test]
fn adjoint_sweep_matches_hand_rolled_costate_recursion() {
    let (dynamics, costs) = hcw_catalogue(7.0e6, 0.01, eye(6), eye(6));
    let map = ModeDynamicsMap::new(dynamics, costs);
    let kk = 8usize;
    let h = 1.0f64;
    let schedule = ModeSchedule::new_from_mode0(0, kk, ModeId::new(0));
    let x0 = PositionVelocityStateLvlh::form_from_list(r3(10.0, 10.0, 10.0), r3(0.0, 0.0, 0.0));
    let states = StateUpdater::new(&x0, &schedule, &map, &RungeKutta4Propagator, R(h));
    let adjoints = AdjointVariableUpdater::new(&states, &schedule, &map, R(h));

    // Independent reference: p[K] = Qf X[K]; p[k] = p[k+1] + h (A^T p[k+1] + Q X[k]).
    let hcw = HcwDynamics::new(R(7.0e6), R(MU));
    let af: Vec<f64> = hcw.system_matrix().data.iter().map(|v| v.0).collect();
    let xs: Vec<Vec<f64>> = states.states.iter().map(|s| fvec(s.get_vector())).collect();
    let mut expected = vec![vec![0.0; 6]; kk + 1];
    expected[kk] = xs[kk].clone();
    for k in (0..kk).rev() {
        let mut next = vec![0.0; 6];
        for i in 0..6 {
            let mut at_p = 0.0;
            for l in 0..6 {
                at_p += af[l * 6 + i] * expected[k + 1][l];
            }
            next[i] = expected[k + 1][i] + h * (at_p + xs[k][i]);
        }
        expected[k] = next;
    }
    for k in 0..=kk {
        assert_close(&fvec(adjoints.adjoints[k].get_vector()), &expected[k], 1e-9);
    }
}

#[test]
fn adjoint_start_matches_central_difference_of_total_cost() {
    // The costate at time zero is the gradient, with respect to the
    // initial state, of the continuous-time functional the adjoint
    // integrates: the running cost weighted by the step width plus the
    // terminal cost, with the half-gradient convention `grad = Q x`.
    // Backward Euler introduces an O(h) discrepancy against the
    // re-propagated central difference.
    let (dynamics, costs) = hcw_catalogue(7.0e6, 0.01, eye(6), eye(6));
    let map = ModeDynamicsMap::new(dynamics, costs);
    let kk = 20usize;
    let h = 0.1f64;
    let schedule = ModeSchedule::new_from_mode0(0, kk, ModeId::new(0));
    let x0 = PositionVelocityStateLvlh::form_from_list(r3(10.0, 10.0, 10.0), r3(0.01, 0.0, 0.0));
    let states = StateUpdater::new(&x0, &schedule, &map, &RungeKutta4Propagator, R(h));
    let adjoints = AdjointVariableUpdater::new(&states, &schedule, &map, R(h));

    // The functional the costate differentiates, from a fresh sweep.
    let functional = |start: &[f64]| -> f64 {
        let sw = StateUpdater::new(
            &PositionVelocityStateLvlh::form_from_array(rvec(start)),
            &schedule,
            &map,
            &RungeKutta4Propagator,
            R(h),
        );
        let mut acc = 0.0;
        for k in 0..kk {
            let xv = fvec(sw.states[k].get_vector());
            acc += h * 0.5 * xv.iter().map(|v| v * v).sum::<f64>();
        }
        let xl = fvec(sw.states[kk].get_vector());
        acc + 0.5 * xl.iter().map(|v| v * v).sum::<f64>()
    };

    let eps = 1.0e-4;
    let p0 = fvec(adjoints.adjoints[0].get_vector());
    for i in 0..6 {
        let mut plus = fvec(x0.get_vector());
        plus[i] += eps;
        let mut minus = fvec(x0.get_vector());
        minus[i] -= eps;
        let grad = (functional(&plus) - functional(&minus)) / (2.0 * eps);
        let scale = grad.abs().max(p0[i].abs()).max(1.0);
        assert!(
            (grad - p0[i]).abs() <= 0.05 * scale,
            "component {}: adjoint {} vs central difference {}",
            i,
            p0[i],
            grad
        );
    }
}

#[test]
fn insertion_gradient_vanishes_on_the_active_mode() {
    let (dynamics, costs) = hcw_catalogue(7.0e6, 0.01, zeros(6, 6), eye(6));
    let map = ModeDynamicsMap::new(dynamics, costs);
    let kk = 10usize;
    let schedule = ModeSchedule::new_from_mode0(0, kk, ModeId::new(4));
    let x0 = PositionVelocityStateLvlh::form_from_list(r3(10.0, 10.0, 10.0), r3(0.0, 0.0, 0.0));
    let states = StateUpdater::new(&x0, &schedule, &map, &RungeKutta4Propagator, R(1.0));
    let adjoints = AdjointVariableUpdater::new(&states, &schedule, &map, R(1.0));
    let (d, optimal) = InsertionGradientCalculator::compute(
        &schedule,
        &states,
        &adjoints,
        &map,
        0,
        kk,
    );
    assert_eq!(optimal.len(), kk);
    for k in 0..kk {
        let active = schedule.get(k).unwrap().value();
        assert_eq!(d.get(k, active).0, 0.0);
        // The recorded mode is minimal in its row.
        let best = d.get(k, optimal[k].value()).0;
        for m in 0..27 {
            assert!(d.get(k, m).0 >= best);
        }
    }
}

#[test]
fn total_cost_is_stage_sum_plus_terminal() {
    let (dynamics, costs) = hcw_catalogue(7.0e6, 0.01, eye(6), eye(6));
    let map = ModeDynamicsMap::new(dynamics, costs);
    let kk = 6usize;
    let schedule = ModeSchedule::new_from_mode0(0, kk, ModeId::new(2));
    let x0 = PositionVelocityStateLvlh::form_from_list(r3(10.0, 10.0, 10.0), r3(0.0, 0.0, 0.0));
    let states = StateUpdater::new(&x0, &schedule, &map, &RungeKutta4Propagator, R(1.0));

    let (dynamics2, costs2) = hcw_catalogue(7.0e6, 0.01, eye(6), eye(6));
    let scheduler: ModeScheduler<
        R,
        PositionVelocityStateLvlh<R>,
        Force3dLvlh<R>,
        LinearControlledDynamics<R, Force3dLvlh<R>>,
        QuadraticCost<R>,
        RungeKutta4Propagator,
    > = ModeScheduler::new(
        R(0.9),
        R(0.5),
        R(0.5),
        1,
        0,
        kk,
        x0.duplicate(),
        dynamics2,
        costs2,
        RungeKutta4Propagator,
        R(1.0),
        64,
        R(0.01),
    );
    let total = scheduler.evaluate_cost(&schedule, &states, &map);

    // By hand: step k's stage cost at X[k + 1], terminal at X[K].
    let mut expected = 0.0;
    for k in 0..kk - 1 {
        let xv = fvec(states.states[k + 1].get_vector());
        expected += xv.iter().map(|v| v * v).sum::<f64>();
    }
    let xl = fvec(states.states[kk].get_vector());
    expected += xl.iter().map(|v| v * v).sum::<f64>();
    assert!((total.0 - expected).abs() <= 1e-9 * expected.abs().max(1.0));
}

#[test]
fn optimiser_reaches_first_order_certificate_on_hcw() {
    // Quadratic cost Q = 0, Qf = I on the relative dynamics; 27 modes of
    // u_max = 0.01 over a horizon of 100 steps of one second.
    let (dynamics, costs) = hcw_catalogue(7.0e6, 0.01, zeros(6, 6), eye(6));
    let x0 = PositionVelocityStateLvlh::form_from_list(r3(10.0, 10.0, 10.0), r3(0.0, 0.0, 0.0));
    let scheduler: ModeScheduler<
        R,
        PositionVelocityStateLvlh<R>,
        Force3dLvlh<R>,
        LinearControlledDynamics<R, Force3dLvlh<R>>,
        QuadraticCost<R>,
        RungeKutta4Propagator,
    > = ModeScheduler::new(
        R(0.9),
        R(0.5),
        R(0.5),
        100,
        0,
        100,
        x0.duplicate(),
        dynamics,
        costs,
        RungeKutta4Propagator,
        R(1.0),
        200,
        R(1.0e-9),
    );
    let schedule = scheduler.mode_schedule.as_ref().unwrap().duplicate();
    let states = StateUpdater::new(
        &scheduler.x0,
        &schedule,
        &scheduler.mode_dynamics_map,
        &scheduler.propagator,
        scheduler.dt,
    );
    let adjoints = AdjointVariableUpdater::new(
        &states,
        &schedule,
        &scheduler.mode_dynamics_map,
        scheduler.dt,
    );
    let (d, optimal) = InsertionGradientCalculator::compute(
        &schedule,
        &states,
        &adjoints,
        &scheduler.mode_dynamics_map,
        0,
        100,
    );
    let d_min = d.data.iter().map(|v| v.0).fold(f64::INFINITY, f64::min);

    // The optimisation drives the terminal cost down by orders of
    // magnitude from the free-drift value.
    let free = ModeSchedule::new_from_mode0(0, 100, ModeId::new(0));
    let free_states = StateUpdater::new(
        &scheduler.x0,
        &free,
        &scheduler.mode_dynamics_map,
        &scheduler.propagator,
        scheduler.dt,
    );
    let j_free = scheduler.evaluate_cost(&free, &free_states, &scheduler.mode_dynamics_map).0;
    let j_opt = scheduler.evaluate_cost(&schedule, &states, &scheduler.mode_dynamics_map).0;
    assert!(j_opt < 0.01 * j_free, "J {} vs free-drift {}", j_opt, j_free);

    // The first-order certificate: either the insertion gradient is
    // nonnegative within tolerance, or — as happens with a quantised mode
    // set — the subset line search can find no further decreasing step, so
    // another search leaves the schedule unchanged.
    if d_min < -1.0e-6 {
        let retried = scheduler.apply_armijo(
            &d,
            &optimal,
            &schedule,
            &states,
            &scheduler.mode_dynamics_map,
            &scheduler.x0,
            &scheduler.propagator,
            scheduler.dt,
        );
        for k in 0..100 {
            assert_eq!(retried.get(k), schedule.get(k));
        }
    }
}

#[test]
fn inertial_to_local_rotation_rows_are_unit_directions() {
    let position = rvec(&[2.0, 0.0, 0.0]);
    let velocity = rvec(&[0.0, 3.0, 0.0]);
    let rot = Math::mat_eci2lvlh(&position, &velocity);
    assert_eq!(rot.rows, 3);
    assert_eq!(rot.cols, 3);
    assert_close(
        &fvec(&rot.data),
        &[1.0, 0.0, 0.0, 0.0, 1.0, 0.0, 0.0, 0.0, 1.0],
        1e-12,
    );
}

#[test]
fn extended_state_integrates_the_stage_cost() {
    // The extended state prepends a running cost; one Euler step advances
    // it by exactly h * l(x, u).
    let hcw = HcwDynamics::new(R(7.0e6), R(MU));
    let base = LinearDynamics::new(hcw.system_matrix(), hcw.input_matrix());
    let cost = QuadraticCost::new(eye(6), eye(3), eye(6), R(100.0));
    let wrapped = ModeDynamics::new(cost, base);
    let x0 = PositionVelocityStateLvlh::form_from_list(r3(1.0, 2.0, 3.0), r3(0.0, 0.1, 0.0));
    let u = Force3dLvlh::form_from_list(r3(0.5, 0.0, 0.0));
    let extended = ModeState::new(R(0.0), x0.duplicate());
    assert_eq!(extended.get_cost_values().0, 0.0);
    assert_eq!(
        fvec(extended.get_original_state().get_vector()),
        fvec(x0.get_vector())
    );

    let h = 0.125;
    let stepped = EulerPropagator.propagate_continuous(&extended, &u, &wrapped, R(h));
    let stage = fvec(x0.get_vector()).iter().map(|v| v * v).sum::<f64>()
        + fvec(u.get_vector()).iter().map(|v| v * v).sum::<f64>();
    let cost_component = fvec(stepped.get_vector())[0];
    assert!((cost_component - h * stage).abs() < 1e-12);
}

// ---------------------------------------------------------------------------
// End-to-end plant scenarios.
// ---------------------------------------------------------------------------

#[test]
fn hcw_free_drift_returns_after_one_period() {
    // A periodic relative orbit of the linearised dynamics: the along-track
    // rate is chosen as -2 n x0, which removes the secular drift term.
    let a_ref = 7.0e6;
    let n = (MU / (a_ref * a_ref * a_ref)).sqrt();
    let model = {
        let hcw = HcwDynamics::new(R(a_ref), R(MU));
        LinearDynamics::new(hcw.system_matrix(), hcw.input_matrix())
    };
    let x0 = PositionVelocityStateLvlh::form_from_list(
        r3(10.0, 10.0, 10.0),
        r3(0.0, -2.0 * n * 10.0, 0.0),
    );
    let u = Force3dLvlh::form_from_list(r3(0.0, 0.0, 0.0));
    let period = 2.0 * std::f64::consts::PI / n;
    let whole_steps = period.floor() as usize;
    let h = R(1.0);
    let mut state = x0.duplicate();
    let mut step = 0usize;
    while step < whole_steps {
        state = RungeKutta4Propagator.propagate_continuous(&state, &u, &model, h);
        step += 1;
    }
    let rest = period - whole_steps as f64;
    state = RungeKutta4Propagator.propagate_continuous(&state, &u, &model, R(rest));
    assert_close(&fvec(state.get_vector()), &fvec(x0.get_vector()), 1.0e-3);
}

/// Orbital elements to an inertial position/velocity state.
fn oe_to_eci(a: f64, e: f64, i: f64, omega: f64, raan: f64, nu: f64) -> Vec<f64> {
    let p = a * (1.0 - e * e);
    let r = p / (1.0 + e * nu.cos());
    let r_pqw = [r * nu.cos(), r * nu.sin(), 0.0];
    let sp = (MU / p).sqrt();
    let v_pqw = [-sp * nu.sin(), sp * (e + nu.cos()), 0.0];
    let (so, co) = (raan.sin(), raan.cos());
    let (si, ci) = (i.sin(), i.cos());
    let (sw, cw) = (omega.sin(), omega.cos());
    let rot = [
        [co * cw - so * sw * ci, -co * sw - so * cw * ci, so * si],
        [so * cw + co * sw * ci, -so * sw + co * cw * ci, -co * si],
        [sw * si, cw * si, ci],
    ];
    let mut out = vec![0.0; 6];
    for row in 0..3 {
        out[row] = rot[row][0] * r_pqw[0] + rot[row][1] * r_pqw[1] + rot[row][2] * r_pqw[2];
        out[3 + row] = rot[row][0] * v_pqw[0] + rot[row][1] * v_pqw[1] + rot[row][2] * v_pqw[2];
    }
    out
}

#[test]
fn two_body_single_satellite_conserves_energy_and_momentum() {
    let start = oe_to_eci(6.928e6, 0.001, std::f64::consts::FRAC_PI_2, 0.0, 0.28869219, 0.0);
    let model = TwoBodyDynamics::new(R(MU));
    let u = Force3dEci::form_from_list(r3(0.0, 0.0, 0.0));
    let mut state = PositionVelocityStateEci::form_from_array(rvec(&start));
    let invariants = |s: &PositionVelocityStateEci<R>| {
        let v = fvec(s.get_vector());
        let r = (v[0] * v[0] + v[1] * v[1] + v[2] * v[2]).sqrt();
        let speed2 = v[3] * v[3] + v[4] * v[4] + v[5] * v[5];
        let energy = speed2 / 2.0 - MU / r;
        let hx = v[1] * v[5] - v[2] * v[4];
        let hy = v[2] * v[3] - v[0] * v[5];
        let hz = v[0] * v[4] - v[1] * v[3];
        let h = (hx * hx + hy * hy + hz * hz).sqrt();
        (energy, h)
    };
    let (e0, h0) = invariants(&state);
    let mut step = 0usize;
    while step < 10000 {
        state = RungeKutta4Propagator.propagate_continuous(&state, &u, &model, R(1.0));
        step += 1;
    }
    let (e1, h1) = invariants(&state);
    assert!(((e1 - e0) / e0).abs() <= 1.0e-6, "energy drift {}", ((e1 - e0) / e0).abs());
    assert!(((h1 - h0) / h0).abs() <= 1.0e-6, "momentum drift {}", ((h1 - h0) / h0).abs());
}

#[test]
fn pair_two_body_relative_motion_stays_bounded() {
    let chief = oe_to_eci(6.928e6, 0.001, std::f64::consts::FRAC_PI_2, 0.0, 0.28869219, 0.0);
    let deputy = oe_to_eci(6.928e6, 0.001, std::f64::consts::FRAC_PI_2, 0.0, 0.28869219, 8.0e-7);
    let mut flat = chief.clone();
    flat.extend_from_slice(&deputy);
    let mut state = PositionVelocityPairStateEci::form_from_array(rvec(&flat));
    let model = PairTwoBodyDynamics::new(R(MU));
    let u = Force6dEci::form_from_array(rvec(&[0.0; 6]));
    let mut max_sep = 0.0f64;
    let mut step = 0usize;
    while step < 100000 {
        state = RungeKutta4Propagator.propagate_continuous(&state, &u, &model, R(0.1));
        let v = fvec(state.get_vector());
        let dx = v[6] - v[0];
        let dy = v[7] - v[1];
        let dz = v[8] - v[2];
        let sep = (dx * dx + dy * dy + dz * dz).sqrt();
        assert!(sep.is_finite(), "relative motion blew up at step {}", step);
        max_sep = max_sep.max(sep);
        step += 1;
    }
    // A true-anomaly offset of 8e-7 on a ~6.93e6 m orbit is a few-metre
    // along-track separation; it must stay of that order.
    assert!(max_sep < 100.0, "relative separation unbounded: {}", max_sep);
}

