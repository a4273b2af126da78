//! A spacecraft relative-motion simulator core: a switched-mode schedule
//! optimiser (forward state sweep, backward adjoint sweep, insertion
//! gradient, Armijo subset line search) together with the fixed-step
//! propagators, dynamics models, quadratic costs and dense linear algebra
//! it is built from.
//!
//! Every algorithm is generic over an abstract scalar ring ([`scalar::Scalar`]),
//! so the whole control core carries exact contracts; a caller instantiates
//! the scalar with the number type of its choice.

pub mod algebra;
pub mod catalogue;
pub mod config;
pub mod controller;
pub mod cost;
pub mod covariance_dynamics;
pub mod differentiable;
pub mod disturbance;
pub mod dynamics;
pub mod factory;
pub mod force;
pub mod forces;
pub mod insertion;
pub mod loggable;
pub mod math;
pub mod matrix_ops;
pub mod models;
pub mod propagator;
pub mod quadric_cost;
pub mod scalar;
pub mod schedule;
pub mod scheduler;
pub mod state;
pub mod state_converter;
pub mod states;
pub mod sweep;
pub mod wrapper;
