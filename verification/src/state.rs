//! The semantic state-vector abstraction.
//!
//! A state is a fixed-dimension dense vector with a semantic identity (an
//! inertial position/velocity, a relative state in a local frame, orbital
//! elements, an augmented estimator state).  Arithmetic preserves the type,
//! and construction from a flat array of matching length is lossless: the
//! contracts of [`StateVector::form_from_array`] and
//! [`StateVector::get_vector`] together make the round trip the identity.

use vstd::prelude::*;

use crate::algebra::{seq_add, seq_div_scalar, seq_scale, seq_sub, vec_add, vec_copy,
    vec_div_scalar, vec_scale, vec_sub, DenseMatrix};
use crate::scalar::Scalar;

verus! {

/// A fixed-dimension semantic vector over the abstract scalar.
///
/// Implementations fix the dimension (`dim_spec`) and the view
/// (`view_spec`); the arithmetic comes with the trait and is pinned
/// elementwise.
pub trait StateVector<S: Scalar>: Sized + Clone {
    /// The mathematical contents: the flat sequence of scalar components.
    spec fn view_spec(&self) -> Seq<S>;

    /// The dimension this concrete state type declares.
    spec fn dim_spec() -> nat;

    /// The declared dimension, as a runtime value.
    fn dim() -> (n: usize)
        ensures
            n as nat == Self::dim_spec(),
    ;

    /// Extraction of the underlying flat array.
    fn get_vector(&self) -> (r: &Vec<S>)
        ensures
            r@ == self.view_spec(),
    ;

    /// Lossless construction from a flat array of matching length.
    fn form_from_array(vec: Vec<S>) -> (r: Self)
        requires
            vec@.len() == Self::dim_spec(),
        ensures
            r.view_spec() == vec@,
    ;

    /// A copy whose view provably equals this state's view (`Clone` says
    /// nothing to the verifier).
    fn duplicate(&self) -> (r: Self)
        requires
            self.view_spec().len() == Self::dim_spec(),
        ensures
            r.view_spec() == self.view_spec(),
    {
        Self::form_from_array(vec_copy(self.get_vector()))
    }

    /// Elementwise sum of two states of this type.
    fn add_vec(&self, rhs: &Self) -> (r: Self)
        requires
            self.view_spec().len() == Self::dim_spec(),
            rhs.view_spec().len() == Self::dim_spec(),
        ensures
            r.view_spec() == seq_add(self.view_spec(), rhs.view_spec()),
    {
        Self::form_from_array(vec_add(self.get_vector(), rhs.get_vector()))
    }

    /// Elementwise difference of two states of this type.
    fn sub_vec(&self, rhs: &Self) -> (r: Self)
        requires
            self.view_spec().len() == Self::dim_spec(),
            rhs.view_spec().len() == Self::dim_spec(),
        ensures
            r.view_spec() == seq_sub(self.view_spec(), rhs.view_spec()),
    {
        Self::form_from_array(vec_sub(self.get_vector(), rhs.get_vector()))
    }

    /// The state scaled by a scalar.
    fn mul_scalar(&self, scalar: S) -> (r: Self)
        requires
            self.view_spec().len() == Self::dim_spec(),
        ensures
            r.view_spec() == seq_scale(self.view_spec(), scalar),
    {
        Self::form_from_array(vec_scale(self.get_vector(), scalar))
    }

    /// The state divided elementwise by a scalar.
    fn div_scalar(&self, scalar: S) -> (r: Self)
        requires
            self.view_spec().len() == Self::dim_spec(),
        ensures
            r.view_spec() == seq_div_scalar(self.view_spec(), scalar),
    {
        Self::form_from_array(vec_div_scalar(self.get_vector(), scalar))
    }

    /// The row-vector product `self^T * mat`, used by the adjoint sweep to
    /// apply a transposed Jacobian.
    fn mul_mat(&self, mat: &DenseMatrix<S>) -> (r: Self)
        requires
            self.view_spec().len() == Self::dim_spec(),
            mat.wf(),
            mat.rows == Self::dim_spec(),
            mat.cols == Self::dim_spec(),
        ensures
            r.view_spec() == mat.vecmat_spec(self.view_spec()),
    {
        Self::form_from_array(mat.vecmat(self.get_vector()))
    }
}

} // verus!
