//! Central-difference differentiation, usable as an oracle against any
//! analytic Jacobian and as a fallback where no closed form is available.

use vstd::prelude::*;

use crate::cost::Cost;
use crate::dynamics::ContinuousDynamics;
use crate::force::Force;
use crate::scalar::Scalar;
use crate::state::StateVector;
use crate::algebra::{vec_copy, vec_div_scalar, vec_sub, DenseMatrix};

verus! {

/// Column `j`, row `i` of the central-difference Jacobian of `d` at
/// `(x, u)`: `(f(x + eps e_j) - f(x - eps e_j))[i] / (2 eps)`.
pub open spec fn central_jacobian_entry_spec<
    S: Scalar,
    T: StateVector<S>,
    U: Force<S>,
    D: ContinuousDynamics<S, T, U>,
>(d: D, x: Seq<S>, u: Seq<S>, epsilon: S, i: int, j: int) -> S {
    let x_plus = x.update(j, x[j].add_spec(epsilon));
    let x_minus = x.update(j, x[j].sub_spec(epsilon));
    (d.deriv_spec(x_plus, u)[i].sub_spec(d.deriv_spec(x_minus, u)[i])).div_spec(
        S::from_usize_spec(2).mul_spec(epsilon),
    )
}

/// Component `i` of the central-difference gradient of the stage cost of
/// `c` at `(x, u)`: `(l(x + eps e_i, u) - l(x - eps e_i, u)) / (2 eps)`.
pub open spec fn central_gradient_entry_spec<
    S: Scalar,
    T: StateVector<S>,
    U: Force<S>,
    C: Cost<S, T, U>,
>(c: C, x: Seq<S>, u: Seq<S>, epsilon: S, i: int) -> S {
    let x_plus = x.update(i, x[i].add_spec(epsilon));
    let x_minus = x.update(i, x[i].sub_spec(epsilon));
    c.stage_cost_spec(x_plus, u).sub_spec(c.stage_cost_spec(x_minus, u)).div_spec(
        S::from_usize_spec(2).mul_spec(epsilon),
    )
}

/// Numerical differentiation by central differences.
pub struct NumericalDefferential<T, U> {
    /// Marks the state and force types differentiated over.
    pub marker: core::marker::PhantomData<(T, U)>,
}

impl<T, U> NumericalDefferential<T, U> {
    /// The `n`-by-`n` central-difference Jacobian of a dynamics model with
    /// respect to the state: column `j` is
    /// `(f(x + eps e_j, u) - f(x - eps e_j, u)) / (2 eps)`.
    pub fn differentiate_numeric<S: Scalar, D: ContinuousDynamics<S, T, U>>(
        dynamics: &D,
        x: &T,
        v: &U,
        epsilon: S,
    ) -> (r: DenseMatrix<S>) where T: StateVector<S>, U: Force<S>
        requires
            dynamics.dyn_wf(),
            x.view_spec().len() == T::dim_spec(),
            v.view_spec().len() == U::dim_spec(),
            T::dim_spec() * T::dim_spec() <= usize::MAX,
        ensures
            r.wf(),
            r.rows == T::dim_spec(),
            r.cols == T::dim_spec(),
            forall|i: int, j: int|
                0 <= i < T::dim_spec() && 0 <= j < T::dim_spec() ==> #[trigger] r.entry_spec(i, j)
                    == central_jacobian_entry_spec(
                    *dynamics,
                    x.view_spec(),
                    v.view_spec(),
                    epsilon,
                    i,
                    j,
                ),
    {
        let dim = T::dim();
        let two_eps = S::from_usize(2).mul(epsilon);
        let mut jacobian = DenseMatrix::<S>::zeros(dim, dim);
        let mut j: usize = 0;
        while j < dim
            invariant
                dynamics.dyn_wf(),
                x.view_spec().len() == T::dim_spec(),
                v.view_spec().len() == U::dim_spec(),
                dim == T::dim_spec(),
                two_eps == S::from_usize_spec(2).mul_spec(epsilon),
                j <= dim,
                jacobian.wf(),
                jacobian.rows == dim,
                jacobian.cols == dim,
                forall|i2: int, j2: int|
                    0 <= i2 < dim && 0 <= j2 < j ==> #[trigger] jacobian.entry_spec(i2, j2)
                        == central_jacobian_entry_spec(
                        *dynamics,
                        x.view_spec(),
                        v.view_spec(),
                        epsilon,
                        i2,
                        j2,
                    ),
            decreases dim - j,
        {
            let mut perturbed_plus = vec_copy(x.get_vector());
            let base = perturbed_plus[j];
            perturbed_plus.set(j, base.add(epsilon));
            let mut perturbed_minus = vec_copy(x.get_vector());
            perturbed_minus.set(j, base.sub(epsilon));
            let state_plus = T::form_from_array(perturbed_plus);
            let state_minus = T::form_from_array(perturbed_minus);
            let f_plus = dynamics.compute_derivative(&state_plus, v);
            let f_minus = dynamics.compute_derivative(&state_minus, v);
            let column = vec_div_scalar(
                &vec_sub(f_plus.get_vector(), f_minus.get_vector()),
                two_eps,
            );
            let mut i: usize = 0;
            while i < dim
                invariant
                    dynamics.dyn_wf(),
                    x.view_spec().len() == T::dim_spec(),
                    v.view_spec().len() == U::dim_spec(),
                    dim == T::dim_spec(),
                    two_eps == S::from_usize_spec(2).mul_spec(epsilon),
                    j < dim,
                    i <= dim,
                    column@.len() == dim,
                    forall|i2: int|
                        0 <= i2 < dim ==> column@[i2] == central_jacobian_entry_spec(
                            *dynamics,
                            x.view_spec(),
                            v.view_spec(),
                            epsilon,
                            i2,
                            j as int,
                        ),
                    jacobian.wf(),
                    jacobian.rows == dim,
                    jacobian.cols == dim,
                    forall|i2: int, j2: int|
                        0 <= i2 < dim && 0 <= j2 < j ==> #[trigger] jacobian.entry_spec(i2, j2)
                            == central_jacobian_entry_spec(
                            *dynamics,
                            x.view_spec(),
                            v.view_spec(),
                            epsilon,
                            i2,
                            j2,
                        ),
                    forall|i2: int|
                        0 <= i2 < i ==> #[trigger] jacobian.entry_spec(i2, j as int)
                            == central_jacobian_entry_spec(
                            *dynamics,
                            x.view_spec(),
                            v.view_spec(),
                            epsilon,
                            i2,
                            j as int,
                        ),
                decreases dim - i,
            {
                jacobian.set(i, j, column[i]);
                i = i + 1;
            }
            j = j + 1;
        }
        jacobian
    }

    /// The central-difference gradient of a cost's stage term with respect
    /// to the state.
    pub fn differential_numeric_scalar<S: Scalar, C: Cost<S, T, U>>(
        cost: &C,
        x: &T,
        v: &U,
        epsilon: S,
    ) -> (r: Vec<S>) where T: StateVector<S>, U: Force<S>
        requires
            cost.cost_wf(),
            x.view_spec().len() == T::dim_spec(),
            v.view_spec().len() == U::dim_spec(),
        ensures
            r@.len() == T::dim_spec(),
            forall|i: int|
                0 <= i < T::dim_spec() ==> r@[i] == central_gradient_entry_spec(
                    *cost,
                    x.view_spec(),
                    v.view_spec(),
                    epsilon,
                    i,
                ),
    {
        let dim = T::dim();
        let two_eps = S::from_usize(2).mul(epsilon);
        let mut gradient: Vec<S> = Vec::new();
        let mut i: usize = 0;
        while i < dim
            invariant
                cost.cost_wf(),
                x.view_spec().len() == T::dim_spec(),
                v.view_spec().len() == U::dim_spec(),
                dim == T::dim_spec(),
                two_eps == S::from_usize_spec(2).mul_spec(epsilon),
                i <= dim,
                gradient@.len() == i,
                forall|i2: int|
                    0 <= i2 < i ==> gradient@[i2] == central_gradient_entry_spec(
                        *cost,
                        x.view_spec(),
                        v.view_spec(),
                        epsilon,
                        i2,
                    ),
            decreases dim - i,
        {
            let mut perturbed_plus = vec_copy(x.get_vector());
            let base = perturbed_plus[i];
            perturbed_plus.set(i, base.add(epsilon));
            let mut perturbed_minus = vec_copy(x.get_vector());
            perturbed_minus.set(i, base.sub(epsilon));
            let state_plus = T::form_from_array(perturbed_plus);
            let state_minus = T::form_from_array(perturbed_minus);
            let f_plus = cost.stage_cost(&state_plus, v);
            let f_minus = cost.stage_cost(&state_minus, v);
            gradient.push(f_plus.sub(f_minus).div(two_eps));
            i = i + 1;
        }
        gradient
    }
}

} // verus!
