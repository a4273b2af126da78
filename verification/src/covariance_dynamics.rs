//! The augmented estimator dynamics over the 33-component state
//! `(mu, est, P)`:
//!
//! - `mu' = A mu + B u`
//! - `est' = A est + B u + K C (mu - est)` with Kalman gain
//!   `K = P C^T (D D^T)^{-1}`
//! - `P' = A P + P A^T - K C P + F1 P F1^T + (F1 est + F2 u)(F1 est + F2 u)^T`
//!
//! The mode's constant input `u` is baked into the model; the Jacobian is
//! taken by central differences.

use vstd::prelude::*;

use crate::algebra::{seq_add, seq_sub, vec_add, vec_sub, DenseMatrix};
use crate::config::{ModeSchedulerConfig, SimulationConfig};
use crate::differentiable::{central_jacobian_entry_spec, NumericalDefferential};
use crate::dynamics::{ContinuousDynamics, Differentiable2d, InputDefinedDynamics};
use crate::factory::CreateInputDefinedDynamics;
use crate::force::Force;
use crate::matrix_ops::{smat_add, smat_matvec, smat_mul, smat_outer, smat_sub, smat_transpose};
use crate::scalar::Scalar;
use crate::state::StateVector;
use crate::states::{upper_offset_spec, upper_row_base_spec, PositionVelocityCovarianceStateLvlh,
    PositionVelocityStateLvlh};

verus! {

/// The symmetric covariance, unpacked from the upper triangle stored in
/// the last 21 components of the augmented state.
pub open spec fn cov_rows_spec<S: Scalar>(x: Seq<S>) -> Seq<Seq<S>> {
    Seq::new(
        6,
        |i: int| Seq::new(
            6,
            |j: int| if i <= j {
                x[12 + upper_offset_spec(i, j)]
            } else {
                x[12 + upper_offset_spec(j, i)]
            },
        ),
    )
}

/// The packed upper triangle of a six-by-six row-sequence matrix, rows
/// concatenated from the diagonal rightwards.
pub open spec fn pack_upper_rows_spec<S>(p: Seq<Seq<S>>, i: int) -> Seq<S>
    decreases 6 - i,
{
    if i >= 6 {
        Seq::empty()
    } else {
        p[i].subrange(i, 6) + pack_upper_rows_spec(p, i + 1)
    }
}

/// The length of the packed tail from row `i` on.
proof fn lemma_pack_upper_len<S>(p: Seq<Seq<S>>, i: int)
    requires
        0 <= i <= 6,
        forall|k: int| 0 <= k < 6 ==> (#[trigger] p[k]).len() == 6,
    ensures
        pack_upper_rows_spec(p, i).len() == 21 - upper_row_base_spec(i),
    decreases 6 - i,
{
    crate::states::lemma_upper_row_base_values();
    if i < 6 {
        lemma_pack_upper_len(p, i + 1);
    }
}

/// An element of the packed tail, located by row and column.
proof fn lemma_pack_upper_entry<S>(p: Seq<Seq<S>>, i: int, i2: int, j2: int)
    requires
        0 <= i <= i2 <= j2 < 6,
        forall|k: int| 0 <= k < 6 ==> (#[trigger] p[k]).len() == 6,
    ensures
        pack_upper_rows_spec(p, i)[upper_offset_spec(i2, j2) - upper_row_base_spec(i)]
            == p[i2][j2],
    decreases 6 - i,
{
    crate::states::lemma_upper_row_base_values();
    lemma_pack_upper_len(p, i + 1);
    if i == i2 {
        assert(upper_offset_spec(i2, j2) - upper_row_base_spec(i) == j2 - i2);
        assert(p[i].subrange(i, 6)[j2 - i2] == p[i2][j2]);
    } else {
        lemma_pack_upper_entry(p, i + 1, i2, j2);
        assert(pack_upper_rows_spec(p, i)[(6 - i) + (upper_offset_spec(i2, j2)
            - upper_row_base_spec(i + 1))] == pack_upper_rows_spec(p, i + 1)[upper_offset_spec(
            i2,
            j2,
        ) - upper_row_base_spec(i + 1)]);
    }
}

/// A 21-component sequence whose entries match a row-sequence matrix
/// through the packed-offset map equals the packed upper triangle.
proof fn lemma_packed_matches<S>(t: Seq<S>, p: Seq<Seq<S>>)
    requires
        t.len() == 21,
        forall|k: int| 0 <= k < 6 ==> (#[trigger] p[k]).len() == 6,
        forall|i: int, j: int|
            0 <= i <= j < 6 ==> t[#[trigger] upper_offset_spec(i, j)] == p[i][j],
    ensures
        t == pack_upper_rows_spec(p, 0),
{
    crate::states::lemma_upper_row_base_values();
    lemma_pack_upper_len(p, 0);
    assert forall|off: int| 0 <= off < 21 implies t[off] == pack_upper_rows_spec(p, 0)[off] by {
        let i = packed_row_of_spec(off, 0);
        lemma_packed_row_of(off, 0);
        let j = i + (off - upper_row_base_spec(i));
        assert(off == upper_offset_spec(i, j));
        lemma_pack_upper_entry(p, 0, i, j);
    }
    assert(t =~= pack_upper_rows_spec(p, 0));
}

/// The row that owns packed offset `t`, searching from row `i`.
pub open spec fn packed_row_of_spec(t: int, i: int) -> int
    decreases 6 - i,
{
    if i >= 5 {
        5
    } else if t < upper_row_base_spec(i + 1) {
        i
    } else {
        packed_row_of_spec(t, i + 1)
    }
}

proof fn lemma_packed_row_of(t: int, i: int)
    requires
        0 <= i <= 5,
        upper_row_base_spec(i) <= t < 21,
    ensures
        i <= packed_row_of_spec(t, i) < 6,
        upper_row_base_spec(packed_row_of_spec(t, i)) <= t,
        t < upper_row_base_spec(packed_row_of_spec(t, i)) + (6 - packed_row_of_spec(t, i)),
    decreases 6 - i,
{
    crate::states::lemma_upper_row_base_values();
    if !(i >= 5) && !(t < upper_row_base_spec(i + 1)) {
        lemma_packed_row_of(t, i + 1);
    }
}

/// The augmented estimator model with its mode's constant input.
pub struct PositionVelocityCovarianceDynamics<S, U> {
    /// System matrix of the internal linear model.
    pub a_mat: DenseMatrix<S>,
    /// Input matrix of the internal linear model.
    pub b_mat: DenseMatrix<S>,
    /// Observation matrix.
    pub c_mat: DenseMatrix<S>,
    /// Observation-noise shaping matrix.
    pub d_mat: DenseMatrix<S>,
    /// The precomputed inverse of `D * D^T`.
    pub ddt_inv: DenseMatrix<S>,
    /// State-noise shaping matrix.
    pub f1_mat: DenseMatrix<S>,
    /// Input-noise shaping matrix.
    pub f2_mat: DenseMatrix<S>,
    /// The mode's fixed control input.
    pub control_input: U,
    /// Step width of the central-difference Jacobian.
    pub epsilon: S,
}

/// The derivative of the augmented state, written over the row-sequence
/// matrix operations.
pub open spec fn covariance_deriv_spec<S: Scalar, U: Force<S>>(
    d: PositionVelocityCovarianceDynamics<S, U>,
    x: Seq<S>,
) -> Seq<S> {
    let mu = x.subrange(0, 6);
    let est = x.subrange(6, 12);
    let p = cov_rows_spec(x);
    let a = d.a_mat.srows_spec();
    let b = d.b_mat.srows_spec();
    let c = d.c_mat.srows_spec();
    let f1 = d.f1_mat.srows_spec();
    let f2 = d.f2_mat.srows_spec();
    let u_mode = d.control_input.view_spec();
    let obs = d.c_mat.rows as int;
    let k_gain = smat_mul(smat_mul(p, smat_transpose(c, 6), obs), d.ddt_inv.srows_spec(), obs);
    let mu_dot = seq_add(smat_matvec(a, mu), smat_matvec(b, u_mode));
    let est_dot = seq_add(
        seq_add(smat_matvec(a, est), smat_matvec(b, u_mode)),
        smat_matvec(k_gain, smat_matvec(c, seq_sub(mu, est))),
    );
    let shaped = seq_add(smat_matvec(f1, est), smat_matvec(f2, u_mode));
    let noise = smat_add(
        smat_mul(smat_mul(f1, p, 6), smat_transpose(f1, 6), 6),
        smat_outer(shaped, shaped),
    );
    let p_dot = smat_add(
        smat_sub(
            smat_add(smat_mul(a, p, 6), smat_mul(p, smat_transpose(a, 6), 6)),
            smat_mul(k_gain, smat_mul(c, p, 6), 6),
        ),
        noise,
    );
    mu_dot + est_dot + pack_upper_rows_spec(p_dot, 0)
}

impl<S: Scalar, U: Force<S>> ContinuousDynamics<
    S,
    PositionVelocityCovarianceStateLvlh<S>,
    U,
> for PositionVelocityCovarianceDynamics<S, U> {
    /// The matrices have the estimator's shapes and the baked-in input has
    /// the force dimension.
    open spec fn dyn_wf(&self) -> bool {
        &&& self.a_mat.wf() && self.a_mat.rows == 6 && self.a_mat.cols == 6
        &&& self.b_mat.wf() && self.b_mat.rows == 6 && self.b_mat.cols == U::dim_spec()
        &&& self.c_mat.wf() && self.c_mat.cols == 6 && self.c_mat.rows >= 1
        &&& self.ddt_inv.wf() && self.ddt_inv.rows == self.c_mat.rows && self.ddt_inv.cols
            == self.c_mat.rows
        &&& self.f1_mat.wf() && self.f1_mat.rows == 6 && self.f1_mat.cols == 6
        &&& self.f2_mat.wf() && self.f2_mat.rows == 6 && self.f2_mat.cols == U::dim_spec()
        &&& self.control_input.view_spec().len() == U::dim_spec()
    }

    open spec fn deriv_spec(&self, x: Seq<S>, u: Seq<S>) -> Seq<S> {
        covariance_deriv_spec(*self, x)
    }

    fn compute_derivative(
        &self,
        state: &PositionVelocityCovarianceStateLvlh<S>,
        input: &U,
    ) -> (r: PositionVelocityCovarianceStateLvlh<S>) {
        let mu_x = state.get_mu_x();
        let est_x = state.get_est_x();
        let p = state.get_covariance_matrix();
        proof {
            assert forall|i: int| 0 <= i < 6 implies #[trigger] p.srows_spec()[i]
                == cov_rows_spec(state.view_spec())[i] by {
                assert forall|j: int| 0 <= j < 6 implies p.row_spec(i)[j] == cov_rows_spec(
                    state.view_spec(),
                )[i][j] by {
                    if i <= j {
                        assert(p.entry_spec(i, j) == state.view_spec()[12 + upper_offset_spec(
                            i,
                            j,
                        )]);
                    } else {
                        assert(p.entry_spec(i, j) == state.view_spec()[12 + upper_offset_spec(
                            j,
                            i,
                        )]);
                    }
                }
                assert(p.srows_spec()[i] =~= cov_rows_spec(state.view_spec())[i]);
            }
            assert(p.srows_spec() =~= cov_rows_spec(state.view_spec()));
        }

        // Kalman gain K = P C^T (D D^T)^{-1}.
        let c_t = self.c_mat.transpose();
        let k_gain = p.mat_mul(&c_t).mat_mul(&self.ddt_inv);

        // mu' = A mu + B u.
        let mu_dot = vec_add(
            &self.a_mat.matvec(mu_x.get_vector()),
            &self.b_mat.matvec(self.control_input.get_vector()),
        );

        // est' = A est + B u + K C (mu - est).
        let innovation = vec_sub(mu_x.get_vector(), est_x.get_vector());
        let est_dot = vec_add(
            &vec_add(
                &self.a_mat.matvec(est_x.get_vector()),
                &self.b_mat.matvec(self.control_input.get_vector()),
            ),
            &k_gain.matvec(&self.c_mat.matvec(&innovation)),
        );

        // P' = A P + P A^T - K C P + F1 P F1^T + (F1 est + F2 u)(..)^T.
        let shaped = vec_add(
            &self.f1_mat.matvec(est_x.get_vector()),
            &self.f2_mat.matvec(self.control_input.get_vector()),
        );
        let noise = self.f1_mat.mat_mul(&p).mat_mul(&self.f1_mat.transpose()).mat_add(
            &DenseMatrix::outer(&shaped, &shaped),
        );
        let p_dot = self.a_mat.mat_mul(&p).mat_add(&p.mat_mul(&self.a_mat.transpose())).mat_sub(
            &k_gain.mat_mul(&self.c_mat.mat_mul(&p)),
        ).mat_add(&noise);

        let mu_dot_state = PositionVelocityStateLvlh::form_from_array(mu_dot);
        let est_dot_state = PositionVelocityStateLvlh::form_from_array(est_dot);
        let out = PositionVelocityCovarianceStateLvlh::from_from_states(
            &mu_dot_state,
            &est_dot_state,
            p_dot,
        );
        proof {
            let xv = state.view_spec();
            let spec_result = covariance_deriv_spec(*self, xv);
            let u_mode = self.control_input.view_spec();

            crate::matrix_ops::lemma_matvec_srows(&self.a_mat, mu_x.view_spec());
            crate::matrix_ops::lemma_matvec_srows(&self.a_mat, est_x.view_spec());
            crate::matrix_ops::lemma_matvec_srows(&self.b_mat, u_mode);
            crate::matrix_ops::lemma_matvec_srows(&self.c_mat, innovation@);
            crate::matrix_ops::lemma_matvec_srows(&k_gain, self.c_mat.matvec_spec(innovation@));
            crate::matrix_ops::lemma_matvec_srows(&self.f1_mat, est_x.view_spec());
            crate::matrix_ops::lemma_matvec_srows(&self.f2_mat, u_mode);

            assert(p_dot.srows_spec().len() == 6);
            assert forall|kr: int| 0 <= kr < 6 implies (#[trigger] p_dot.srows_spec()[kr]).len()
                == 6 by {
            }
            assert forall|i2: int, j2: int|
                0 <= i2 <= j2 < 6 implies out.view_spec().subrange(12, 33)[
            #[trigger] upper_offset_spec(i2, j2)] == p_dot.srows_spec()[i2][j2] by {
                crate::states::lemma_upper_row_base_values();
                assert(0 <= upper_offset_spec(i2, j2) < 21);
                assert(out.view_spec()[12 + upper_offset_spec(i2, j2)] == p_dot.entry_spec(
                    i2,
                    j2,
                ));
                assert(p_dot.srows_spec()[i2][j2] == p_dot.entry_spec(i2, j2));
            }
            lemma_packed_matches(
                out.view_spec().subrange(12, 33),
                p_dot.srows_spec(),
            );
            assert(out.view_spec() =~= out.view_spec().subrange(0, 6) + out.view_spec().subrange(
                6,
                12,
            ) + out.view_spec().subrange(12, 33));
            assert(out.view_spec() == spec_result);
        }
        out
    }
}

impl<S: Scalar, U: Force<S>> Differentiable2d<
    S,
    PositionVelocityCovarianceStateLvlh<S>,
    U,
> for PositionVelocityCovarianceDynamics<S, U> {
    open spec fn jac_wf(&self) -> bool {
        <Self as ContinuousDynamics<S, PositionVelocityCovarianceStateLvlh<S>, U>>::dyn_wf(self)
    }

    /// The central-difference Jacobian, entry by entry.
    open spec fn jac_spec(&self, x: Seq<S>, u: Seq<S>, t: S) -> Seq<S> {
        Seq::new(
            33 * 33,
            |idx: int| central_jacobian_entry_spec(*self, x, u, self.epsilon, idx / 33, idx % 33),
        )
    }

    fn differentiate(
        &self,
        x: &PositionVelocityCovarianceStateLvlh<S>,
        v: &U,
        t: S,
    ) -> (r: DenseMatrix<S>) {
        let r = NumericalDefferential::<PositionVelocityCovarianceStateLvlh<S>, U>::differentiate_numeric(
            self,
            x,
            v,
            self.epsilon,
        );
        proof {
            assert forall|idx: int|
                0 <= idx < 33 * 33 implies r.data@[idx] == central_jacobian_entry_spec(
                *self,
                x.view_spec(),
                v.view_spec(),
                self.epsilon,
                idx / 33,
                idx % 33,
            ) by {
                let i = idx / 33;
                let j = idx % 33;
                assert(idx == i * 33 + j);
                assert(r.entry_spec(i, j) == r.data@[i * 33 + j]);
            }
            assert(r.data@ =~= <Self as Differentiable2d<
                S,
                PositionVelocityCovarianceStateLvlh<S>,
                U,
            >>::jac_spec(self, x.view_spec(), v.view_spec(), t));
        }
        r
    }
}

impl<S: Scalar, U: Force<S>> InputDefinedDynamics<
    S,
    PositionVelocityCovarianceStateLvlh<S>,
    U,
> for PositionVelocityCovarianceDynamics<S, U> {
    open spec fn input_wf(&self) -> bool {
        self.control_input.view_spec().len() == U::dim_spec()
    }

    open spec fn input_spec(&self) -> Seq<S> {
        self.control_input.view_spec()
    }

    fn get_input(&self, state: &PositionVelocityCovarianceStateLvlh<S>, t: S) -> (r: U) {
        self.control_input.duplicate()
    }
}

impl<S: Scalar, U: Force<S>> CreateInputDefinedDynamics<
    S,
    PositionVelocityCovarianceStateLvlh<S>,
    U,
> for PositionVelocityCovarianceDynamics<S, U> {
    /// The configuration's estimator matrices have the shapes this model
    /// needs.
    open spec fn config_ok(
        config: ModeSchedulerConfig<S>,
        simulation_config: SimulationConfig<S>,
    ) -> bool {
        &&& config.a_matrix.wf() && config.a_matrix.rows == 6 && config.a_matrix.cols == 6
        &&& config.b_matrix.wf() && config.b_matrix.rows == 6 && config.b_matrix.cols
            == U::dim_spec()
        &&& config.c_matrix.wf() && config.c_matrix.cols == 6 && config.c_matrix.rows >= 1
        &&& config.ddt_inv_matrix.wf() && config.ddt_inv_matrix.rows == config.c_matrix.rows
            && config.ddt_inv_matrix.cols == config.c_matrix.rows
        &&& config.d_matrix.wf()
        &&& config.f1_matrix.wf() && config.f1_matrix.rows == 6 && config.f1_matrix.cols == 6
        &&& config.f2_matrix.wf() && config.f2_matrix.rows == 6 && config.f2_matrix.cols
            == U::dim_spec()
    }

    fn new(
        control_input: U,
        config: &ModeSchedulerConfig<S>,
        simulation_config: &SimulationConfig<S>,
    ) -> (r: Self) {
        PositionVelocityCovarianceDynamics {
            a_mat: config.a_matrix.duplicate(),
            b_mat: config.b_matrix.duplicate(),
            c_mat: config.c_matrix.duplicate(),
            d_mat: config.d_matrix.duplicate(),
            ddt_inv: config.ddt_inv_matrix.duplicate(),
            f1_mat: config.f1_matrix.duplicate(),
            f2_mat: config.f2_matrix.duplicate(),
            control_input,
            epsilon: config.jacobian_epsilon,
        }
    }
}

} // verus!
