//! Conversions between state representations.  The structural conversions
//! (splitting and stacking a chief/deputy pair) live here with exact
//! contracts; conversions through trigonometric frame rotations are left
//! to the caller, which owns the number type that can compute them.

use vstd::prelude::*;

use crate::algebra::{vec_copy, vec_slice};
use crate::scalar::Scalar;
use crate::state::StateVector;
use crate::states::{PositionVelocityPairStateEci, PositionVelocityStateEci};

verus! {

/// A state that can be converted into another representation.
/// `convert_wf` names, per implementation, the shape the source must have;
/// `convert_view_spec` pins the flat contents of the result.
pub trait StateConverter<S: Scalar, TOut: StateVector<S>>: Sized {
    /// The source is shaped so that the conversion is defined.
    spec fn convert_wf(&self) -> bool;

    /// The flat contents of the converted state.
    spec fn convert_view_spec(&self) -> Seq<S>;

    /// The converted state.
    fn convert(&self) -> (r: TOut)
        requires
            self.convert_wf(),
        ensures
            r.view_spec() == self.convert_view_spec(),
    ;
}

impl<S: Scalar> StateConverter<S, PositionVelocityStateEci<S>> for PositionVelocityStateEci<S> {
    open spec fn convert_wf(&self) -> bool {
        true
    }

    open spec fn convert_view_spec(&self) -> Seq<S> {
        self.view_spec()
    }

    /// The identity conversion.
    fn convert(&self) -> (r: PositionVelocityStateEci<S>) {
        PositionVelocityStateEci { state: vec_copy(&self.state) }
    }
}

impl<S: Scalar> StateConverter<
    S,
    PositionVelocityPairStateEci<S>,
> for PositionVelocityPairStateEci<S> {
    open spec fn convert_wf(&self) -> bool {
        true
    }

    open spec fn convert_view_spec(&self) -> Seq<S> {
        self.view_spec()
    }

    /// The identity conversion.
    fn convert(&self) -> (r: PositionVelocityPairStateEci<S>) {
        PositionVelocityPairStateEci { state: vec_copy(&self.state) }
    }
}

impl<S: Scalar> PositionVelocityPairStateEci<S> {
    /// Splits the pair into the chief's and the deputy's states.
    pub fn split(&self) -> (r: (PositionVelocityStateEci<S>, PositionVelocityStateEci<S>))
        requires
            self.view_spec().len() == 12,
        ensures
            r.0.view_spec() == self.view_spec().subrange(0, 6),
            r.1.view_spec() == self.view_spec().subrange(6, 12),
    {
        let chief = PositionVelocityStateEci::form_from_array(self.chief());
        let deputy = PositionVelocityStateEci::form_from_array(self.deputy());
        (chief, deputy)
    }

    /// Stacks a chief and a deputy state into one pair state.
    pub fn join(
        chief: &PositionVelocityStateEci<S>,
        deputy: &PositionVelocityStateEci<S>,
    ) -> (r: Self)
        requires
            chief.view_spec().len() == 6,
            deputy.view_spec().len() == 6,
        ensures
            r.view_spec() == chief.view_spec() + deputy.view_spec(),
    {
        let mut state = vec_slice(chief.get_vector(), 0, 6);
        let mut tail = vec_slice(deputy.get_vector(), 0, 6);
        state.append(&mut tail);
        proof {
            assert(chief.view_spec().subrange(0, 6) =~= chief.view_spec());
            assert(deputy.view_spec().subrange(0, 6) =~= deputy.view_spec());
        }
        PositionVelocityPairStateEci { state }
    }
}

} // verus!
