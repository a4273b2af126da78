//! The control-input (and disturbance) abstraction: the same shape as a
//! state vector, with a distinguished zero element.

use vstd::prelude::*;

use crate::algebra::{seq_add, seq_div_scalar, seq_scale, seq_sub, seq_zero, vec_add, vec_copy,
    vec_div_scalar, vec_scale, vec_sub, vec_zeros};
use crate::scalar::Scalar;

verus! {

/// A fixed-dimension control input over the abstract scalar.
pub trait Force<S: Scalar>: Sized + Clone {
    /// The mathematical contents: the flat sequence of scalar components.
    spec fn view_spec(&self) -> Seq<S>;

    /// The dimension this concrete force type declares.
    spec fn dim_spec() -> nat;

    /// The declared dimension, as a runtime value.
    fn dim() -> (n: usize)
        ensures
            n as nat == Self::dim_spec(),
    ;

    /// Extraction of the underlying flat array.
    fn get_vector(&self) -> (r: &Vec<S>)
        ensures
            r@ == self.view_spec(),
    ;

    /// Lossless construction from a flat array of matching length.
    fn form_from_array(vec: Vec<S>) -> (r: Self)
        requires
            vec@.len() == Self::dim_spec(),
        ensures
            r.view_spec() == vec@,
    ;

    /// The zero input.
    fn zeros() -> (r: Self)
        ensures
            r.view_spec() == seq_zero::<S>(Self::dim_spec()),
    {
        Self::form_from_array(vec_zeros(Self::dim()))
    }

    /// A copy whose view provably equals this input's view.
    fn duplicate(&self) -> (r: Self)
        requires
            self.view_spec().len() == Self::dim_spec(),
        ensures
            r.view_spec() == self.view_spec(),
    {
        Self::form_from_array(vec_copy(self.get_vector()))
    }

    /// Elementwise sum of two inputs of this type.
    fn add_vec(&self, rhs: &Self) -> (r: Self)
        requires
            self.view_spec().len() == Self::dim_spec(),
            rhs.view_spec().len() == Self::dim_spec(),
        ensures
            r.view_spec() == seq_add(self.view_spec(), rhs.view_spec()),
    {
        Self::form_from_array(vec_add(self.get_vector(), rhs.get_vector()))
    }

    /// Elementwise difference of two inputs of this type.
    fn sub_vec(&self, rhs: &Self) -> (r: Self)
        requires
            self.view_spec().len() == Self::dim_spec(),
            rhs.view_spec().len() == Self::dim_spec(),
        ensures
            r.view_spec() == seq_sub(self.view_spec(), rhs.view_spec()),
    {
        Self::form_from_array(vec_sub(self.get_vector(), rhs.get_vector()))
    }

    /// The input scaled by a scalar.
    fn mul_scalar(&self, scalar: S) -> (r: Self)
        requires
            self.view_spec().len() == Self::dim_spec(),
        ensures
            r.view_spec() == seq_scale(self.view_spec(), scalar),
    {
        Self::form_from_array(vec_scale(self.get_vector(), scalar))
    }

    /// The input divided elementwise by a scalar.
    fn div_scalar(&self, scalar: S) -> (r: Self)
        requires
            self.view_spec().len() == Self::dim_spec(),
        ensures
            r.view_spec() == seq_div_scalar(self.view_spec(), scalar),
    {
        Self::form_from_array(vec_div_scalar(self.get_vector(), scalar))
    }
}

} // verus!
