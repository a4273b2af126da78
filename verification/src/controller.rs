//! The controller surface the simulation driver talks to.

use vstd::prelude::*;

use crate::force::Force;
use crate::scalar::Scalar;
use crate::state::StateVector;

verus! {

/// A controller maps the current state and discrete time index to a control
/// input.  `control_spec` fixes, per implementation, which input comes
/// back.
pub trait Controller<S: Scalar, T: StateVector<S>, U: Force<S>> {
    /// The controller is ready to be queried (for a planning controller:
    /// its schedule has been computed).
    spec fn controller_wf(&self) -> bool;

    /// What `compute_control_input` returns, on the flat state view.
    spec fn control_spec(&self, x: Seq<S>, t_index: int) -> Seq<S>;

    /// The input to apply at `state` during step `t_index`.
    fn compute_control_input(&self, state: &T, t_index: usize) -> (r: U)
        requires
            self.controller_wf(),
            state.view_spec().len() == T::dim_spec(),
        ensures
            r.view_spec() == self.control_spec(state.view_spec(), t_index as int),
            r.view_spec().len() == U::dim_spec(),
    ;
}

} // verus!
