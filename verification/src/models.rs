//! The concrete dynamics models the core supports: a general linear
//! time-invariant model, the Hill-Clohessy-Wiltshire relative dynamics, the
//! two-body problem for one satellite and for a chief/deputy pair, and a
//! linear model with its mode's constant input baked in.

use vstd::prelude::*;

use crate::algebra::{dot_spec, matvec_data_spec, seq_add, seq_scale, seq_zero, vec_add, vec_scale,
    vec_slice, DenseMatrix};
use crate::dynamics::{ContinuousDynamics, Differentiable2d, InputDefinedDynamics};
use crate::force::Force;
use crate::forces::{Force3dEci, Force3dLvlh, Force6dEci};
use crate::scalar::Scalar;
use crate::state::StateVector;
use crate::states::{PositionVelocityPairStateEci, PositionVelocityStateEci,
    PositionVelocityStateLvlh};

verus! {

/// A linear time-invariant model `x' = A x + B u`, driven by the external
/// input.
pub struct LinearDynamics<S> {
    /// The system matrix `A`.
    pub a_matrix: DenseMatrix<S>,
    /// The input matrix `B`.
    pub b_matrix: DenseMatrix<S>,
}

impl<S: Scalar> LinearDynamics<S> {
    /// Wraps the system and input matrices.
    pub fn new(a_matrix: DenseMatrix<S>, b_matrix: DenseMatrix<S>) -> (r: Self)
        ensures
            r.a_matrix == a_matrix,
            r.b_matrix == b_matrix,
    {
        LinearDynamics { a_matrix, b_matrix }
    }
}

impl<S: Scalar, T: StateVector<S>, U: Force<S>> ContinuousDynamics<S, T, U> for LinearDynamics<
    S,
> {
    /// `A` is square on the state, `B` maps the input into the state.
    open spec fn dyn_wf(&self) -> bool {
        &&& self.a_matrix.wf()
        &&& self.a_matrix.rows == T::dim_spec()
        &&& self.a_matrix.cols == T::dim_spec()
        &&& self.b_matrix.wf()
        &&& self.b_matrix.rows == T::dim_spec()
        &&& self.b_matrix.cols == U::dim_spec()
    }

    /// `A x + B u`.
    open spec fn deriv_spec(&self, x: Seq<S>, u: Seq<S>) -> Seq<S> {
        seq_add(self.a_matrix.matvec_spec(x), self.b_matrix.matvec_spec(u))
    }

    fn compute_derivative(&self, state: &T, input: &U) -> (r: T) {
        let dx = vec_add(
            &self.a_matrix.matvec(state.get_vector()),
            &self.b_matrix.matvec(input.get_vector()),
        );
        T::form_from_array(dx)
    }
}

impl<S: Scalar, T: StateVector<S>, U: Force<S>> Differentiable2d<S, T, U> for LinearDynamics<S> {
    open spec fn jac_wf(&self) -> bool {
        <Self as ContinuousDynamics<S, T, U>>::dyn_wf(self)
    }

    /// The state Jacobian of a linear model is `A` itself.
    open spec fn jac_spec(&self, x: Seq<S>, u: Seq<S>, t: S) -> Seq<S> {
        self.a_matrix.data@
    }

    fn differentiate(&self, x: &T, v: &U, t: S) -> (r: DenseMatrix<S>) {
        self.a_matrix.duplicate()
    }
}

/// The row-major system matrix of the Hill-Clohessy-Wiltshire relative
/// dynamics for mean motion `n`.
pub open spec fn hcw_system_data_spec<S: Scalar>(n: S) -> Seq<S> {
    let z = S::zero_spec();
    let l = S::one_spec();
    let two = S::from_usize_spec(2);
    let three = S::from_usize_spec(3);
    seq![
        z, z, z, l, z, z,
        z, z, z, z, l, z,
        z, z, z, z, z, l,
        three.mul_spec(n.mul_spec(n)), z, z, z, two.mul_spec(n), z,
        z, z, z, z.sub_spec(two.mul_spec(n)), z, z,
        z, z, z.sub_spec(n.mul_spec(n)), z, z, z,
    ]
}

/// The row-major input matrix of the Hill-Clohessy-Wiltshire dynamics:
/// accelerations enter the velocity components.
pub open spec fn hcw_input_data_spec<S: Scalar>() -> Seq<S> {
    let z = S::zero_spec();
    let l = S::one_spec();
    seq![
        z, z, z,
        z, z, z,
        z, z, z,
        l, z, z,
        z, l, z,
        z, z, l,
    ]
}

/// The Hill-Clohessy-Wiltshire relative dynamics for a reference orbit of
/// semi-major axis `a`: `x' = A x + B u` with the standard six-by-six `A`
/// for mean motion `n = sqrt(mu / a^3)`.
pub struct HcwDynamics<S> {
    /// The mean motion of the reference orbit.
    pub n: S,
}

impl<S: Scalar> HcwDynamics<S> {
    /// Builds the model from the reference semi-major axis and the
    /// gravitational parameter.
    pub fn new(a: S, mu: S) -> (r: Self)
        ensures
            r.n == mu.div_spec(a.mul_spec(a).mul_spec(a)).sqrt_spec(),
    {
        HcwDynamics { n: mu.div(a.mul(a).mul(a)).sqrt() }
    }

    /// The system matrix for this mean motion.
    pub fn system_matrix(&self) -> (r: DenseMatrix<S>)
        ensures
            r.wf(),
            r.rows == 6,
            r.cols == 6,
            r.data@ == hcw_system_data_spec(self.n),
    {
        let z = S::zero();
        let l = S::one();
        let two = S::from_usize(2);
        let three = S::from_usize(3);
        let mut data: Vec<S> = Vec::new();
        data.push(z);
        data.push(z);
        data.push(z);
        data.push(l);
        data.push(z);
        data.push(z);
        data.push(z);
        data.push(z);
        data.push(z);
        data.push(z);
        data.push(l);
        data.push(z);
        data.push(z);
        data.push(z);
        data.push(z);
        data.push(z);
        data.push(z);
        data.push(l);
        data.push(three.mul(self.n.mul(self.n)));
        data.push(z);
        data.push(z);
        data.push(z);
        data.push(two.mul(self.n));
        data.push(z);
        data.push(z);
        data.push(z);
        data.push(z);
        data.push(z.sub(two.mul(self.n)));
        data.push(z);
        data.push(z);
        data.push(z);
        data.push(z);
        data.push(z.sub(self.n.mul(self.n)));
        data.push(z);
        data.push(z);
        data.push(z);
        assert(data@ =~= hcw_system_data_spec(self.n));
        DenseMatrix::new(6, 6, data)
    }

    /// The input matrix.
    pub fn input_matrix(&self) -> (r: DenseMatrix<S>)
        ensures
            r.wf(),
            r.rows == 6,
            r.cols == 3,
            r.data@ == hcw_input_data_spec::<S>(),
    {
        let z = S::zero();
        let l = S::one();
        let mut data: Vec<S> = Vec::new();
        let mut i: usize = 0;
        while i < 9
            invariant
                z == S::zero_spec(),
                i <= 9,
                data@.len() == i,
                forall|k: int| 0 <= k < i ==> data@[k] == S::zero_spec(),
            decreases 9 - i,
        {
            data.push(z);
            i = i + 1;
        }
        data.push(l);
        data.push(z);
        data.push(z);
        data.push(z);
        data.push(l);
        data.push(z);
        data.push(z);
        data.push(z);
        data.push(l);
        assert(data@ =~= hcw_input_data_spec::<S>());
        DenseMatrix::new(6, 3, data)
    }
}

impl<S: Scalar> ContinuousDynamics<S, PositionVelocityStateLvlh<S>, Force3dLvlh<S>> for HcwDynamics<
    S,
> {
    open spec fn dyn_wf(&self) -> bool {
        true
    }

    /// `A(n) x + B u` with the standard Hill-Clohessy-Wiltshire matrices.
    open spec fn deriv_spec(&self, x: Seq<S>, u: Seq<S>) -> Seq<S> {
        seq_add(
            matvec_data_spec(hcw_system_data_spec(self.n), 6, 6, x),
            matvec_data_spec(hcw_input_data_spec::<S>(), 6, 3, u),
        )
    }

    fn compute_derivative(
        &self,
        state: &PositionVelocityStateLvlh<S>,
        input: &Force3dLvlh<S>,
    ) -> (r: PositionVelocityStateLvlh<S>) {
        let system_matrix = self.system_matrix();
        let input_matrix = self.input_matrix();
        let dx = vec_add(
            &system_matrix.matvec(state.get_vector()),
            &input_matrix.matvec(input.get_vector()),
        );
        PositionVelocityStateLvlh::form_from_array(dx)
    }
}

/// The derivative of a single two-body state: velocity carried over, and
/// the acceleration `-(mu / |r|^3) r + u`.
pub open spec fn two_body_deriv_spec<S: Scalar>(mu: S, x: Seq<S>, u: Seq<S>) -> Seq<S> {
    let pos = x.subrange(0, 3);
    let vel = x.subrange(3, 6);
    let r_norm = dot_spec(pos, pos).sqrt_spec();
    let factor = S::zero_spec().sub_spec(mu).div_spec(
        r_norm.mul_spec(r_norm).mul_spec(r_norm),
    );
    vel + seq_add(seq_scale(pos, factor), u)
}

/// The two-body problem for one satellite in the inertial frame.
pub struct TwoBodyDynamics<S> {
    /// The gravitational parameter.
    pub mu: S,
}

impl<S: Scalar> TwoBodyDynamics<S> {
    /// Builds the model for a gravitational parameter.
    pub fn new(mu: S) -> (r: Self)
        ensures
            r.mu == mu,
    {
        TwoBodyDynamics { mu }
    }
}

impl<S: Scalar> ContinuousDynamics<S, PositionVelocityStateEci<S>, Force3dEci<S>> for TwoBodyDynamics<
    S,
> {
    open spec fn dyn_wf(&self) -> bool {
        true
    }

    open spec fn deriv_spec(&self, x: Seq<S>, u: Seq<S>) -> Seq<S> {
        two_body_deriv_spec(self.mu, x, u)
    }

    fn compute_derivative(
        &self,
        state: &PositionVelocityStateEci<S>,
        input: &Force3dEci<S>,
    ) -> (r: PositionVelocityStateEci<S>) {
        let r_vec = state.position();
        let mut out = state.velocity();
        let r_norm = state.position_norm();
        let factor = S::zero().sub(self.mu).div(r_norm.mul(r_norm).mul(r_norm));
        let mut a_vec = vec_add(&vec_scale(&r_vec, factor), input.get_vector());
        out.append(&mut a_vec);
        PositionVelocityStateEci::form_from_array(out)
    }
}

/// The derivative of the stacked chief/deputy two-body state: two
/// independent two-body models, with the external force applied only to
/// the deputy (its components are the last three of the input); the chief
/// flies free.
pub open spec fn pair_two_body_deriv_spec<S: Scalar>(mu: S, x: Seq<S>, u: Seq<S>) -> Seq<S> {
    two_body_deriv_spec(mu, x.subrange(0, 6), seq_zero::<S>(3)) + two_body_deriv_spec(
        mu,
        x.subrange(6, 12),
        u.subrange(3, 6),
    )
}

/// Two independent two-body models for a chief/deputy pair.
pub struct PairTwoBodyDynamics<S> {
    /// The gravitational parameter.
    pub mu: S,
}

impl<S: Scalar> PairTwoBodyDynamics<S> {
    /// Builds the model for a gravitational parameter.
    pub fn new(mu: S) -> (r: Self)
        ensures
            r.mu == mu,
    {
        PairTwoBodyDynamics { mu }
    }
}

impl<S: Scalar> ContinuousDynamics<
    S,
    PositionVelocityPairStateEci<S>,
    Force6dEci<S>,
> for PairTwoBodyDynamics<S> {
    open spec fn dyn_wf(&self) -> bool {
        true
    }

    open spec fn deriv_spec(&self, x: Seq<S>, u: Seq<S>) -> Seq<S> {
        pair_two_body_deriv_spec(self.mu, x, u)
    }

    fn compute_derivative(
        &self,
        state: &PositionVelocityPairStateEci<S>,
        input: &Force6dEci<S>,
    ) -> (r: PositionVelocityPairStateEci<S>) {
        let chief = PositionVelocityStateEci::form_from_array(state.chief());
        let deputy = PositionVelocityStateEci::form_from_array(state.deputy());
        let half = TwoBodyDynamics::new(self.mu);
        let u_chief = Force3dEci::zeros();
        let u_deputy = Force3dEci::form_from_array(vec_slice(input.get_vector(), 3, 6));
        let d_chief = half.compute_derivative(&chief, &u_chief);
        let mut out = crate::algebra::vec_copy(d_chief.get_vector());
        let d_deputy = half.compute_derivative(&deputy, &u_deputy);
        let mut tail = crate::algebra::vec_copy(d_deputy.get_vector());
        out.append(&mut tail);
        PositionVelocityPairStateEci::form_from_array(out)
    }
}

/// A linear model with its mode's constant control input baked in: the
/// external input is ignored and `x' = A x + B u_mode`.
pub struct LinearControlledDynamics<S, U> {
    /// The system matrix `A`.
    pub a_matrix: DenseMatrix<S>,
    /// The input matrix `B`.
    pub b_matrix: DenseMatrix<S>,
    /// The mode's fixed control input.
    pub control_input: U,
}

impl<S: Scalar, U: Force<S>> LinearControlledDynamics<S, U> {
    /// Wraps the matrices and the fixed input.
    pub fn new(a_matrix: DenseMatrix<S>, b_matrix: DenseMatrix<S>, control_input: U) -> (r: Self)
        ensures
            r.a_matrix == a_matrix,
            r.b_matrix == b_matrix,
            r.control_input == control_input,
    {
        LinearControlledDynamics { a_matrix, b_matrix, control_input }
    }
}

impl<S: Scalar, T: StateVector<S>, U: Force<S>> ContinuousDynamics<S, T, U> for LinearControlledDynamics<
    S,
    U,
> {
    open spec fn dyn_wf(&self) -> bool {
        &&& self.a_matrix.wf()
        &&& self.a_matrix.rows == T::dim_spec()
        &&& self.a_matrix.cols == T::dim_spec()
        &&& self.b_matrix.wf()
        &&& self.b_matrix.rows == T::dim_spec()
        &&& self.b_matrix.cols == U::dim_spec()
        &&& self.control_input.view_spec().len() == U::dim_spec()
    }

    /// `A x + B u_mode`, whatever external input is passed.
    open spec fn deriv_spec(&self, x: Seq<S>, u: Seq<S>) -> Seq<S> {
        seq_add(
            self.a_matrix.matvec_spec(x),
            self.b_matrix.matvec_spec(self.control_input.view_spec()),
        )
    }

    fn compute_derivative(&self, state: &T, input: &U) -> (r: T) {
        let dx = vec_add(
            &self.a_matrix.matvec(state.get_vector()),
            &self.b_matrix.matvec(self.control_input.get_vector()),
        );
        T::form_from_array(dx)
    }
}

impl<S: Scalar, T: StateVector<S>, U: Force<S>> Differentiable2d<S, T, U> for LinearControlledDynamics<
    S,
    U,
> {
    open spec fn jac_wf(&self) -> bool {
        <Self as ContinuousDynamics<S, T, U>>::dyn_wf(self)
    }

    /// The state Jacobian of a linear model is `A` itself.
    open spec fn jac_spec(&self, x: Seq<S>, u: Seq<S>, t: S) -> Seq<S> {
        self.a_matrix.data@
    }

    fn differentiate(&self, x: &T, v: &U, t: S) -> (r: DenseMatrix<S>) {
        self.a_matrix.duplicate()
    }
}

impl<S: Scalar, T: StateVector<S>, U: Force<S>> InputDefinedDynamics<S, T, U> for LinearControlledDynamics<
    S,
    U,
> {
    open spec fn input_wf(&self) -> bool {
        self.control_input.view_spec().len() == U::dim_spec()
    }

    open spec fn input_spec(&self) -> Seq<S> {
        self.control_input.view_spec()
    }

    fn get_input(&self, state: &T, t: S) -> (r: U) {
        self.control_input.duplicate()
    }
}

} // verus!
