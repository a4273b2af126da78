//! The cost interface: a stage cost, a terminal cost, and a convenience
//! total over a trajectory.

use vstd::prelude::*;

use crate::algebra::{lemma_sum_extend, sum_spec};
use crate::force::Force;
use crate::scalar::Scalar;
use crate::state::StateVector;

verus! {

/// A running-plus-terminal cost.
pub trait Cost<S: Scalar, T: StateVector<S>, U: Force<S>>: Sized {
    /// Internal consistency of the cost (its matrices have the declared
    /// shapes, and so on).
    spec fn cost_wf(&self) -> bool;

    /// What `stage_cost` returns, on the flat views.
    spec fn stage_cost_spec(&self, x: Seq<S>, u: Seq<S>) -> S;

    /// What `terminal_cost` returns, on the flat view.
    spec fn terminal_cost_spec(&self, x: Seq<S>) -> S;

    /// The cost of one stage at state `x` under input `v`.
    fn stage_cost(&self, x: &T, v: &U) -> (r: S)
        requires
            self.cost_wf(),
            x.view_spec().len() == T::dim_spec(),
            v.view_spec().len() == U::dim_spec(),
        ensures
            r == self.stage_cost_spec(x.view_spec(), v.view_spec()),
    ;

    /// The cost charged at the end of the horizon.
    fn terminal_cost(&self, x: &T) -> (r: S)
        requires
            self.cost_wf(),
            x.view_spec().len() == T::dim_spec(),
        ensures
            r == self.terminal_cost_spec(x.view_spec()),
    ;

    /// The total over a trajectory: every stage cost summed from the left,
    /// then the terminal cost of the last state added on.
    fn evaluate(&self, x: &Vec<T>, v: &Vec<U>) -> (r: S)
        requires
            self.cost_wf(),
            x@.len() >= 1,
            x@.len() == v@.len(),
            forall|i: int| 0 <= i < x@.len() ==> (#[trigger] x@[i].view_spec()).len()
                == T::dim_spec(),
            forall|i: int| 0 <= i < v@.len() ==> (#[trigger] v@[i].view_spec()).len()
                == U::dim_spec(),
        ensures
            r == sum_spec(
                Seq::new(x@.len(), |i: int| self.stage_cost_spec(x@[i].view_spec(), v@[i].view_spec())),
            ).add_spec(self.terminal_cost_spec(x@.last().view_spec())),
    {
        let ghost costs = Seq::new(
            x@.len(),
            |i: int| self.stage_cost_spec(x@[i].view_spec(), v@[i].view_spec()),
        );
        let n = x.len();
        let mut acc = S::zero();
        let mut i: usize = 0;
        while i < n
            invariant
                self.cost_wf(),
                n == x@.len() == v@.len(),
                i <= n,
                costs == Seq::new(
                    x@.len(),
                    |k: int| self.stage_cost_spec(x@[k].view_spec(), v@[k].view_spec()),
                ),
                forall|k: int| 0 <= k < x@.len() ==> (#[trigger] x@[k].view_spec()).len()
                    == T::dim_spec(),
                forall|k: int| 0 <= k < v@.len() ==> (#[trigger] v@[k].view_spec()).len()
                    == U::dim_spec(),
                acc == sum_spec(costs.subrange(0, i as int)),
            decreases n - i,
        {
            proof {
                lemma_sum_extend(costs, i as int);
            }
            acc = acc.add(self.stage_cost(&x[i], &v[i]));
            i = i + 1;
        }
        assert(costs.subrange(0, n as int) =~= costs);
        acc.add(self.terminal_cost(&x[n - 1]))
    }
}

} // verus!
