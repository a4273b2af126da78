//! The configuration surfaces of the simulator and the schedule optimiser.

use vstd::prelude::*;

use crate::algebra::DenseMatrix;

verus! {

/// How the initial plant state is given.
#[derive(PartialEq, Eq, Structural, Clone, Copy, Debug)]
pub enum InitializationTypeEnum {
    /// A Cartesian position/velocity pair.
    PositionVelocity,
    /// Keplerian orbital elements.
    OrbitalElements,
    /// A relative Cartesian state.
    RelativePositionVelocity,
}

/// A disturbance model the driver may enable.
#[derive(PartialEq, Eq, Structural, Clone, Copy, Debug)]
pub enum DisturbanceEnum {
    /// The oblateness perturbation.
    J2,
    /// Rarefied-atmosphere drag.
    AirDrag,
}

/// One exposed surface of a spacecraft, for the drag model.
#[derive(Clone)]
pub struct Surface<S> {
    /// The outward normal.
    pub normal_direction: Vec<S>,
    /// The surface area.
    pub area_m2: S,
    /// The accommodation (specularity) coefficient.
    pub air_specularity: S,
}

/// Timing, reference-orbit and per-spacecraft physical parameters.
#[derive(Clone)]
pub struct SimulationConstants<S> {
    /// Step width.
    pub dt: S,
    /// Number of steps.
    pub step: usize,
    /// Start time.
    pub t0: S,
    /// Reference semi-major axis.
    pub a: S,
    /// Molecular weight at the chief's surfaces.
    pub molecular_weight_chief: S,
    /// Wall temperature of the chief.
    pub wall_temperature_chief: S,
    /// Temperature of the incident molecules.
    pub molecular_temperature: S,
    /// Mass of the chief.
    pub mass_chief: S,
    /// Exposed surfaces of the chief.
    pub surfaces_chief: Vec<Surface<S>>,
    /// Molecular weight at the deputy's surfaces.
    pub molecular_weight_deputy: S,
    /// Wall temperature of the deputy.
    pub wall_temperature_deputy: S,
    /// Mass of the deputy.
    pub mass_deputy: S,
    /// Exposed surfaces of the deputy.
    pub surfaces_deputy: Vec<Surface<S>>,
}

/// The plant-side configuration.
#[derive(Clone)]
pub struct SimulationConfig<S> {
    /// How the initial state is given.
    pub initialization: InitializationTypeEnum,
    /// The flat initialisation data; its length depends on the kind and on
    /// whether one or two spacecraft are simulated.
    pub init_data: Vec<S>,
    /// Timing and physical parameters.
    pub constants: SimulationConstants<S>,
    /// The enabled disturbances.
    pub disturbances: Vec<DisturbanceEnum>,
}

/// The controller-side configuration: the line-search parameters and the
/// matrices of the controller's internal model.
#[derive(Clone)]
pub struct ModeSchedulerConfig<S> {
    /// Acceptance band for eligible time indices.
    pub eta: S,
    /// Sufficient-decrease constant.
    pub alpha: S,
    /// Step-length contraction factor.
    pub beta: S,
    /// Hard bound on outer iterations.
    pub max_iterations: usize,
    /// Hard bound on step-length contractions within one line search.
    pub max_line_search_steps: usize,
    /// Outer-loop stopping tolerance on the cost improvement.
    pub improvement_tolerance: S,
    /// Magnitude of one thrust component.
    pub u_max: S,
    /// Terminal time handed to the quadratic cost.
    pub t_last: S,
    /// State weight of the stage cost.
    pub q_matrix: DenseMatrix<S>,
    /// Input weight of the stage cost.
    pub r_matrix: DenseMatrix<S>,
    /// Terminal state weight.
    pub qf_matrix: DenseMatrix<S>,
    /// System matrix of the internal linear model.
    pub a_matrix: DenseMatrix<S>,
    /// Input matrix of the internal linear model.
    pub b_matrix: DenseMatrix<S>,
    /// Observation matrix of the estimator.
    pub c_matrix: DenseMatrix<S>,
    /// Observation-noise shaping matrix of the estimator.
    pub d_matrix: DenseMatrix<S>,
    /// The precomputed inverse of `D * D^T`.  Configuration happens with
    /// full number types, so the inversion is done there; a singular
    /// `D * D^T` makes the configuration invalid.
    pub ddt_inv_matrix: DenseMatrix<S>,
    /// Step width of the central-difference Jacobian of the augmented
    /// model.
    pub jacobian_epsilon: S,
    /// State-noise shaping matrix.
    pub f1_matrix: DenseMatrix<S>,
    /// Input-noise shaping matrix.
    pub f2_matrix: DenseMatrix<S>,
}

} // verus!
