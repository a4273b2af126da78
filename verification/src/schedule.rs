//! Mode identifiers and the schedules the optimiser works on.
//!
//! A mode schedule maps every discrete time index of its window
//! `[t_index0, t_index_last)` to a mode; it is stored densely, so totality
//! on the window holds by construction.  State and adjoint schedules map
//! time indices to states and are produced by the sweeps.

use vstd::prelude::*;

verus! {

/// An opaque index into the catalogue of (dynamics, cost) pairs.
#[derive(PartialEq, Eq, Structural, Clone, Copy, Hash, Debug)]
pub struct ModeId {
    pub id: usize,
}

impl ModeId {
    /// Wraps a catalogue index.
    pub fn new(id: usize) -> (r: Self)
        ensures
            r.id == id,
    {
        ModeId { id }
    }

    /// The catalogue index this identifier stands for.
    pub fn value(&self) -> (r: usize)
        ensures
            r == self.id,
    {
        self.id
    }
}

/// A total map from the time indices of a window to modes.
#[derive(Clone)]
pub struct ModeSchedule {
    /// The first index of the window.
    pub t_index0: usize,
    /// The mode of index `t_index0 + k` is `modes[k]`.
    pub modes: Vec<ModeId>,
}

impl ModeSchedule {
    /// The first index of the window.
    pub open spec fn start_spec(&self) -> int {
        self.t_index0 as int
    }

    /// One past the last index of the window.
    pub open spec fn end_spec(&self) -> int {
        self.t_index0 + self.modes@.len()
    }

    /// The modes over the window, in time order.
    pub open spec fn modes_spec(&self) -> Seq<ModeId> {
        self.modes@
    }

    /// The mode at an absolute time index inside the window.
    pub open spec fn mode_at_spec(&self, time: int) -> ModeId {
        self.modes@[time - self.t_index0]
    }

    /// Every mode's catalogue index is below `num_modes`.
    pub open spec fn in_catalogue_spec(&self, num_modes: int) -> bool {
        forall|k: int|
            0 <= k < self.modes@.len() ==> (#[trigger] self.modes@[k]).id < num_modes
    }

    /// Wraps a dense assignment that is total on the declared window.
    pub fn new(t_index0: usize, t_index_last: usize, schedule: &Vec<ModeId>) -> (r: Self)
        requires
            t_index0 <= t_index_last,
            schedule@.len() == t_index_last - t_index0,
        ensures
            r.start_spec() == t_index0,
            r.end_spec() == t_index_last,
            r.modes_spec() == schedule@,
    {
        let modes = schedule.clone();
        assert(modes@ =~= schedule@);
        ModeSchedule { t_index0, modes }
    }

    /// The trivial schedule: every index of the window gets `mode0`.
    pub fn new_from_mode0(t_index0: usize, t_index_last: usize, mode0: ModeId) -> (r: Self)
        requires
            t_index0 <= t_index_last,
        ensures
            r.start_spec() == t_index0,
            r.end_spec() == t_index_last,
            forall|k: int| 0 <= k < r.modes_spec().len() ==> r.modes_spec()[k] == mode0,
    {
        let n = t_index_last - t_index0;
        let mut modes: Vec<ModeId> = Vec::new();
        let mut i: usize = 0;
        while i < n
            invariant
                i <= n,
                modes@.len() == i,
                forall|k: int| 0 <= k < i ==> modes@[k] == mode0,
            decreases n - i,
        {
            modes.push(mode0);
            i = i + 1;
        }
        ModeSchedule { t_index0, modes }
    }

    /// A copy whose window and modes provably equal this schedule's
    /// (`Clone` says nothing to the verifier).
    pub fn duplicate(&self) -> (r: Self)
        ensures
            r.start_spec() == self.start_spec(),
            r.modes_spec() == self.modes_spec(),
    {
        ModeSchedule { t_index0: self.t_index0, modes: crate::algebra::vec_copy(&self.modes) }
    }

    /// The number of indices in the window.
    pub fn len(&self) -> (r: usize)
        ensures
            r == self.modes_spec().len(),
    {
        self.modes.len()
    }

    /// The mode at `time`: defined exactly on the window.
    pub fn get(&self, time: usize) -> (r: Option<ModeId>)
        ensures
            match r {
                Some(m) => self.start_spec() <= time < self.end_spec() && m == self.mode_at_spec(
                    time as int,
                ),
                None => !(self.start_spec() <= time < self.end_spec()),
            },
    {
        if time >= self.t_index0 && time - self.t_index0 < self.modes.len() {
            Some(self.modes[time - self.t_index0])
        } else {
            None
        }
    }

    /// Replaces the mode at an index of the window.
    pub fn insert(&mut self, time: usize, mode: ModeId)
        requires
            old(self).start_spec() <= time < old(self).end_spec(),
        ensures
            final(self).start_spec() == old(self).start_spec(),
            final(self).modes_spec() == old(self).modes_spec().update(
                time - old(self).start_spec(),
                mode,
            ),
    {
        let k = time - self.t_index0;
        self.modes.set(k, mode);
    }

    /// Replaces the mode at an index of the window (the name `insert` keeps
    /// the map view; this one keeps the assignment view).
    pub fn update(&mut self, time: usize, mode: ModeId)
        requires
            old(self).start_spec() <= time < old(self).end_spec(),
        ensures
            final(self).start_spec() == old(self).start_spec(),
            final(self).modes_spec() == old(self).modes_spec().update(
                time - old(self).start_spec(),
                mode,
            ),
    {
        self.insert(time, mode);
    }
}

/// A total map from the time indices `[t_index0, t_index0 + len)` to
/// states, produced by the forward sweep and immutable afterwards.
pub struct StateSchedule<T> {
    /// The first index of the window.
    pub t_index0: usize,
    /// The state at index `t_index0 + k` is `states[k]`.
    pub states: Vec<T>,
}

impl<T: Clone> StateSchedule<T> {
    /// The states over the window, in time order.
    pub open spec fn states_spec(&self) -> Seq<T> {
        self.states@
    }

    /// The first index of the window.
    pub open spec fn start_spec(&self) -> int {
        self.t_index0 as int
    }

    /// Wraps a dense assignment of states to the window starting at
    /// `t_index0`.
    pub fn new(t_index0: usize, t_index_last: usize, state_schedule: Vec<T>) -> (r: Self)
        requires
            t_index0 <= t_index_last,
            state_schedule@.len() >= t_index_last - t_index0,
        ensures
            r.start_spec() == t_index0,
            r.states_spec() == state_schedule@,
    {
        StateSchedule { t_index0, states: state_schedule }
    }

    /// The state at `time`: defined exactly on the window.
    pub fn get(&self, time: usize) -> (r: Option<&T>)
        ensures
            match r {
                Some(x) => self.start_spec() <= time && time - self.start_spec()
                    < self.states_spec().len() && *x == self.states_spec()[time
                    - self.start_spec()],
                None => !(self.start_spec() <= time && time - self.start_spec()
                    < self.states_spec().len()),
            },
    {
        if time >= self.t_index0 && time - self.t_index0 < self.states.len() {
            Some(&self.states[time - self.t_index0])
        } else {
            None
        }
    }

    /// All states in time order, each copy pinned to its source's view.
    pub fn to_vec<S: crate::scalar::Scalar>(&self) -> (r: Vec<T>) where T: crate::state::StateVector<S>
        requires
            forall|k: int| 0 <= k < self.states_spec().len() ==> (#[trigger] self.states_spec()[k].view_spec()).len() == T::dim_spec(),
        ensures
            r@.len() == self.states_spec().len(),
            forall|k: int| 0 <= k < r@.len() ==> (#[trigger] r@[k].view_spec()) == self.states_spec()[k].view_spec(),
    {
        let mut out: Vec<T> = Vec::new();
        let mut i: usize = 0;
        let n = self.states.len();
        while i < n
            invariant
                i <= n,
                n == self.states@.len(),
                forall|k: int| 0 <= k < n ==> (#[trigger] self.states_spec()[k].view_spec()).len() == T::dim_spec(),
                out@.len() == i,
                forall|k: int| 0 <= k < i ==> (#[trigger] out@[k].view_spec()) == self.states@[k].view_spec(),
            decreases n - i,
        {
            assert(self.states_spec()[i as int].view_spec().len() == T::dim_spec());
            out.push(self.states[i].duplicate());
            i = i + 1;
        }
        out
    }
}

/// A total map from time indices to adjoint (costate) vectors, produced by
/// the backward sweep.
pub struct AdjointVariableSchedule<T> {
    /// The first index of the window.
    pub t_index0: usize,
    /// The adjoint at index `t_index0 + k` is `adjoints[k]`.
    pub adjoints: Vec<T>,
}

impl<T: Clone> AdjointVariableSchedule<T> {
    /// The adjoints over the window, in time order.
    pub open spec fn adjoints_spec(&self) -> Seq<T> {
        self.adjoints@
    }

    /// The first index of the window.
    pub open spec fn start_spec(&self) -> int {
        self.t_index0 as int
    }

    /// Wraps a dense assignment of adjoints to the window starting at
    /// `t_index0`.
    pub fn new(t_index0: usize, t_index_last: usize, adjoint_schedule: Vec<T>) -> (r: Self)
        requires
            t_index0 <= t_index_last,
            adjoint_schedule@.len() >= t_index_last - t_index0,
        ensures
            r.start_spec() == t_index0,
            r.adjoints_spec() == adjoint_schedule@,
    {
        AdjointVariableSchedule { t_index0, adjoints: adjoint_schedule }
    }

    /// The adjoint at `time`: defined exactly on the window.
    pub fn get(&self, time: usize) -> (r: Option<&T>)
        ensures
            match r {
                Some(x) => self.start_spec() <= time && time - self.start_spec()
                    < self.adjoints_spec().len() && *x == self.adjoints_spec()[time
                    - self.start_spec()],
                None => !(self.start_spec() <= time && time - self.start_spec()
                    < self.adjoints_spec().len()),
            },
    {
        if time >= self.t_index0 && time - self.t_index0 < self.adjoints.len() {
            Some(&self.adjoints[time - self.t_index0])
        } else {
            None
        }
    }

    /// All adjoints in time order, each copy pinned to its source's view.
    pub fn to_vec<S: crate::scalar::Scalar>(&self) -> (r: Vec<T>) where T: crate::state::StateVector<S>
        requires
            forall|k: int| 0 <= k < self.adjoints_spec().len() ==> (#[trigger] self.adjoints_spec()[k].view_spec()).len() == T::dim_spec(),
        ensures
            r@.len() == self.adjoints_spec().len(),
            forall|k: int| 0 <= k < r@.len() ==> (#[trigger] r@[k].view_spec()) == self.adjoints_spec()[k].view_spec(),
    {
        let mut out: Vec<T> = Vec::new();
        let mut i: usize = 0;
        let n = self.adjoints.len();
        while i < n
            invariant
                i <= n,
                n == self.adjoints@.len(),
                forall|k: int| 0 <= k < n ==> (#[trigger] self.adjoints_spec()[k].view_spec()).len() == T::dim_spec(),
                out@.len() == i,
                forall|k: int| 0 <= k < i ==> (#[trigger] out@[k].view_spec()) == self.adjoints@[k].view_spec(),
            decreases n - i,
        {
            assert(self.adjoints_spec()[i as int].view_spec().len() == T::dim_spec());
            out.push(self.adjoints[i].duplicate());
            i = i + 1;
        }
        out
    }
}

} // verus!
