//! The continuous-dynamics interface `x' = f(x, u, t)` and the
//! differentiability interfaces the adjoint sweep relies on.

use vstd::prelude::*;

use crate::algebra::DenseMatrix;
use crate::force::Force;
use crate::scalar::Scalar;
use crate::state::StateVector;

verus! {

/// A continuous-time dynamics model.
///
/// `deriv_spec` fixes, per implementation, the derivative as a function of
/// the state and input views; the executable entry point is pinned to it.
pub trait ContinuousDynamics<S: Scalar, T: StateVector<S>, U: Force<S>> {
    /// Internal consistency of the model (its matrices have the declared
    /// shapes, and so on).
    spec fn dyn_wf(&self) -> bool;

    /// What `compute_derivative` returns, on the flat views.
    spec fn deriv_spec(&self, x: Seq<S>, u: Seq<S>) -> Seq<S>;

    /// The derivative of the state under this model.
    fn compute_derivative(&self, state: &T, input: &U) -> (r: T)
        requires
            self.dyn_wf(),
            state.view_spec().len() == T::dim_spec(),
            input.view_spec().len() == U::dim_spec(),
        ensures
            r.view_spec() == self.deriv_spec(state.view_spec(), input.view_spec()),
            r.view_spec().len() == T::dim_spec(),
    ;
}

/// A discrete-time dynamics model: one step of width `dt`.
pub trait DiscreteDynamics<S: Scalar, T: StateVector<S>, U: Force<S>> {
    /// Internal consistency of the model.
    spec fn step_wf(&self) -> bool;

    /// What `step` returns, on the flat view.
    spec fn step_spec(&self, x: Seq<S>, dt: S) -> Seq<S>;

    /// One discrete step from `state`.
    fn step(&self, state: &T, dt: S) -> (r: T)
        requires
            self.step_wf(),
            state.view_spec().len() == T::dim_spec(),
        ensures
            r.view_spec() == self.step_spec(state.view_spec(), dt),
            r.view_spec().len() == T::dim_spec(),
    ;
}

/// A dynamics model that carries its mode's constant control input.
pub trait InputDefinedDynamics<S: Scalar, T: StateVector<S>, U: Force<S>> {
    /// The baked-in input has the force type's dimension.
    spec fn input_wf(&self) -> bool;

    /// The constant input baked into this model.
    spec fn input_spec(&self) -> Seq<S>;

    /// The input this model applies at state `state` and time `t`: always
    /// the baked-in constant.
    fn get_input(&self, state: &T, t: S) -> (r: U)
        requires
            self.input_wf(),
        ensures
            r.view_spec() == self.input_spec(),
            r.view_spec().len() == U::dim_spec(),
    ;
}

/// A model whose Jacobian with respect to the state is available, either in
/// closed form or by central differences.
pub trait Differentiable2d<S: Scalar, T: StateVector<S>, U: Force<S>> {
    /// Internal consistency of the differentiated model.
    spec fn jac_wf(&self) -> bool;

    /// What `differentiate` returns: the row-major data of the n-by-n
    /// Jacobian at `(x, u, t)`.
    spec fn jac_spec(&self, x: Seq<S>, u: Seq<S>, t: S) -> Seq<S>;

    /// The Jacobian of the derivative with respect to the state.
    fn differentiate(&self, x: &T, v: &U, t: S) -> (r: DenseMatrix<S>)
        requires
            self.jac_wf(),
            x.view_spec().len() == T::dim_spec(),
            v.view_spec().len() == U::dim_spec(),
        ensures
            r.wf(),
            r.rows == T::dim_spec(),
            r.cols == T::dim_spec(),
            r.data@ == self.jac_spec(x.view_spec(), v.view_spec(), t),
    ;
}

/// A cost whose gradient with respect to the state is available.  The flag
/// selects the terminal branch explicitly.
pub trait Differentiable1d<S: Scalar, T: StateVector<S>, U: Force<S>> {
    /// Internal consistency of the differentiated cost.
    spec fn grad_wf(&self) -> bool;

    /// What `differentiate` returns: the gradient at `(x, u)`, terminal or
    /// stage branch.
    spec fn grad_spec(&self, x: Seq<S>, u: Seq<S>, terminal: bool) -> Seq<S>;

    /// The gradient of the cost with respect to the state.
    fn differentiate(&self, x: &T, v: &U, terminal: bool) -> (r: Vec<S>)
        requires
            self.grad_wf(),
            x.view_spec().len() == T::dim_spec(),
            v.view_spec().len() == U::dim_spec(),
        ensures
            r@ == self.grad_spec(x.view_spec(), v.view_spec(), terminal),
            r@.len() == T::dim_spec(),
    ;
}

} // verus!
