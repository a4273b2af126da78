//! The quadratic cost `l(x, u) = x^T Q x + u^T R u` with terminal cost
//! `Phi(x) = x^T Qf x`, and its analytic state gradient.

use vstd::prelude::*;

use crate::algebra::{dot_spec, vec_dot, DenseMatrix};
use crate::cost::Cost;
use crate::dynamics::Differentiable1d;
use crate::force::Force;
use crate::scalar::Scalar;
use crate::state::StateVector;

verus! {

/// A quadratic stage-plus-terminal cost.  The caller provides symmetric
/// weight matrices; the kernel evaluates the quadratic forms as given.
pub struct QuadraticCost<S> {
    /// The state weight `Q`.
    pub q_matrix: DenseMatrix<S>,
    /// The input weight `R`.
    pub r_matrix: DenseMatrix<S>,
    /// The terminal weight `Qf`.
    pub qf_matrix: DenseMatrix<S>,
    /// The terminal time.
    pub t_last: S,
}

impl<S: Scalar> QuadraticCost<S> {
    /// Wraps the weight matrices and the terminal time.
    pub fn new(
        q_matrix: DenseMatrix<S>,
        r_matrix: DenseMatrix<S>,
        qf_matrix: DenseMatrix<S>,
        t_last: S,
    ) -> (r: Self)
        ensures
            r.q_matrix == q_matrix,
            r.r_matrix == r_matrix,
            r.qf_matrix == qf_matrix,
            r.t_last == t_last,
    {
        QuadraticCost { q_matrix, r_matrix, qf_matrix, t_last }
    }

    /// A copy whose matrices and terminal time provably equal this cost's.
    pub fn duplicate(&self) -> (r: Self)
        ensures
            r.q_matrix.rows == self.q_matrix.rows,
            r.q_matrix.cols == self.q_matrix.cols,
            r.q_matrix.data@ == self.q_matrix.data@,
            r.r_matrix.rows == self.r_matrix.rows,
            r.r_matrix.cols == self.r_matrix.cols,
            r.r_matrix.data@ == self.r_matrix.data@,
            r.qf_matrix.rows == self.qf_matrix.rows,
            r.qf_matrix.cols == self.qf_matrix.cols,
            r.qf_matrix.data@ == self.qf_matrix.data@,
            r.t_last == self.t_last,
    {
        QuadraticCost {
            q_matrix: self.q_matrix.duplicate(),
            r_matrix: self.r_matrix.duplicate(),
            qf_matrix: self.qf_matrix.duplicate(),
            t_last: self.t_last,
        }
    }
}

impl<S: Scalar, T: StateVector<S>, U: Force<S>> Cost<S, T, U> for QuadraticCost<S> {
    /// The weights have the dimensions of the state and input.
    open spec fn cost_wf(&self) -> bool {
        &&& self.q_matrix.wf()
        &&& self.q_matrix.rows == T::dim_spec()
        &&& self.q_matrix.cols == T::dim_spec()
        &&& self.r_matrix.wf()
        &&& self.r_matrix.rows == U::dim_spec()
        &&& self.r_matrix.cols == U::dim_spec()
        &&& self.qf_matrix.wf()
        &&& self.qf_matrix.rows == T::dim_spec()
        &&& self.qf_matrix.cols == T::dim_spec()
    }

    /// `x^T Q x + u^T R u`.
    open spec fn stage_cost_spec(&self, x: Seq<S>, u: Seq<S>) -> S {
        dot_spec(x, self.q_matrix.matvec_spec(x)).add_spec(
            dot_spec(u, self.r_matrix.matvec_spec(u)),
        )
    }

    /// `x^T Qf x`.
    open spec fn terminal_cost_spec(&self, x: Seq<S>) -> S {
        dot_spec(x, self.qf_matrix.matvec_spec(x))
    }

    fn stage_cost(&self, x: &T, v: &U) -> (r: S) {
        let x_cost = vec_dot(x.get_vector(), &self.q_matrix.matvec(x.get_vector()));
        let v_cost = vec_dot(v.get_vector(), &self.r_matrix.matvec(v.get_vector()));
        x_cost.add(v_cost)
    }

    fn terminal_cost(&self, x: &T) -> (r: S) {
        vec_dot(x.get_vector(), &self.qf_matrix.matvec(x.get_vector()))
    }
}

impl<S: Scalar, T: StateVector<S>, U: Force<S>> Differentiable1d<S, T, U> for QuadraticCost<S> {
    open spec fn grad_wf(&self) -> bool {
        <Self as Cost<S, T, U>>::cost_wf(self)
    }

    /// `Qf x` on the terminal branch, `Q x` on the stage branch.
    open spec fn grad_spec(&self, x: Seq<S>, u: Seq<S>, terminal: bool) -> Seq<S> {
        if terminal {
            self.qf_matrix.matvec_spec(x)
        } else {
            self.q_matrix.matvec_spec(x)
        }
    }

    fn differentiate(&self, x: &T, v: &U, terminal: bool) -> (r: Vec<S>) {
        if terminal {
            self.qf_matrix.matvec(x.get_vector())
        } else {
            self.q_matrix.matvec(x.get_vector())
        }
    }
}

} // verus!
