//! Shared vector formulas: the cross product, normalisation by the squared
//! length, and the inertial-to-local rotation built from a position and a
//! velocity.

use vstd::prelude::*;

use crate::algebra::{dot_spec, seq_div_scalar, vec_div_scalar, vec_dot, DenseMatrix};
use crate::scalar::Scalar;

verus! {

/// The cross product of two three-component sequences.
pub open spec fn cross_spec<S: Scalar>(a: Seq<S>, b: Seq<S>) -> Seq<S> {
    seq![
        a[1].mul_spec(b[2]).sub_spec(a[2].mul_spec(b[1])),
        a[2].mul_spec(b[0]).sub_spec(a[0].mul_spec(b[2])),
        a[0].mul_spec(b[1]).sub_spec(a[1].mul_spec(b[0])),
    ]
}

/// Shared vector formulas.
pub struct Math;

impl Math {
    /// The cross product of two three-component vectors.
    pub fn cross_product<S: Scalar>(v1: &Vec<S>, v2: &Vec<S>) -> (r: Vec<S>)
        requires
            v1@.len() == 3,
            v2@.len() == 3,
        ensures
            r@ == cross_spec(v1@, v2@),
    {
        let mut out: Vec<S> = Vec::new();
        out.push(v1[1].mul(v2[2]).sub(v1[2].mul(v2[1])));
        out.push(v1[2].mul(v2[0]).sub(v1[0].mul(v2[2])));
        out.push(v1[0].mul(v2[1]).sub(v1[1].mul(v2[0])));
        assert(out@ =~= cross_spec(v1@, v2@));
        out
    }

    /// Division of a three-component vector by its squared length (the
    /// components summed as `v0*v0 + v1*v1 + v2*v2`).
    pub fn normalize<S: Scalar>(v: &Vec<S>) -> (r: Vec<S>)
        requires
            v@.len() == 3,
        ensures
            r@ == seq_div_scalar(
                v@,
                v@[0].mul_spec(v@[0]).add_spec(v@[1].mul_spec(v@[1])).add_spec(
                    v@[2].mul_spec(v@[2]),
                ),
            ),
    {
        let norm = v[0].mul(v[0]).add(v[1].mul(v[1])).add(v[2].mul(v[2]));
        vec_div_scalar(v, norm)
    }

    /// The rotation from the inertial frame into the local
    /// vertical/horizontal frame of a spacecraft at `position` with
    /// `velocity`: rows are the radial, along-track and cross-track unit
    /// directions.
    pub fn mat_eci2lvlh<S: Scalar>(position: &Vec<S>, velocity: &Vec<S>) -> (r: DenseMatrix<S>)
        requires
            position@.len() == 3,
            velocity@.len() == 3,
        ensures
            r.wf(),
            r.rows == 3,
            r.cols == 3,
            ({
                let r_norm = dot_spec(position@, position@).sqrt_spec();
                let h = cross_spec(position@, velocity@);
                let h_norm = dot_spec(h, h).sqrt_spec();
                let r_hat = seq_div_scalar(position@, r_norm);
                let h_hat = seq_div_scalar(h, h_norm);
                let v_hat = cross_spec(h_hat, r_hat);
                r.data@ == r_hat + v_hat + h_hat
            }),
    {
        let r_norm = vec_dot(position, position).sqrt();
        let h = Self::cross_product(position, velocity);
        let h_norm = vec_dot(&h, &h).sqrt();
        let r_hat = vec_div_scalar(position, r_norm);
        let h_hat = vec_div_scalar(&h, h_norm);
        let v_hat = Self::cross_product(&h_hat, &r_hat);

        let mut data: Vec<S> = Vec::new();
        data.push(r_hat[0]);
        data.push(r_hat[1]);
        data.push(r_hat[2]);
        data.push(v_hat[0]);
        data.push(v_hat[1]);
        data.push(v_hat[2]);
        data.push(h_hat[0]);
        data.push(h_hat[1]);
        data.push(h_hat[2]);
        proof {
            assert(data@ =~= r_hat@ + v_hat@ + h_hat@);
        }
        DenseMatrix::new(3, 3, data)
    }
}

} // verus!
