//! The concrete control-input types: three-component and six-component
//! inputs, tagged by the frame they live in.

use vstd::prelude::*;

use crate::force::Force;
use crate::scalar::Scalar;

verus! {

/// A plain three-component input.
#[derive(Clone)]
pub struct Force3D<S> {
    /// The flat components.
    pub force: Vec<S>,
}

impl<S: Scalar> Force3D<S> {
    /// Builds the input from its three components.
    pub fn form_from_list(force_list: [S; 3]) -> (r: Self)
        ensures
            r.view_spec() == seq![force_list[0], force_list[1], force_list[2]],
    {
        let mut force: Vec<S> = Vec::new();
        force.push(force_list[0]);
        force.push(force_list[1]);
        force.push(force_list[2]);
        assert(force@ =~= seq![force_list[0], force_list[1], force_list[2]]);
        Force3D { force }
    }
}

impl<S: Scalar> Force<S> for Force3D<S> {
    open spec fn view_spec(&self) -> Seq<S> {
        self.force@
    }

    open spec fn dim_spec() -> nat {
        3
    }

    fn dim() -> (n: usize) {
        3
    }

    fn get_vector(&self) -> (r: &Vec<S>) {
        &self.force
    }

    fn form_from_array(vec: Vec<S>) -> (r: Self) {
        Force3D { force: vec }
    }
}

/// A three-component acceleration in the Earth-centred inertial frame.
#[derive(Clone)]
pub struct Force3dEci<S> {
    /// The flat components.
    pub force: Vec<S>,
}

impl<S: Scalar> Force3dEci<S> {
    /// Builds the input from its three components.
    pub fn form_from_list(force_list: [S; 3]) -> (r: Self)
        ensures
            r.view_spec() == seq![force_list[0], force_list[1], force_list[2]],
    {
        let mut force: Vec<S> = Vec::new();
        force.push(force_list[0]);
        force.push(force_list[1]);
        force.push(force_list[2]);
        assert(force@ =~= seq![force_list[0], force_list[1], force_list[2]]);
        Force3dEci { force }
    }
}

impl<S: Scalar> Force<S> for Force3dEci<S> {
    open spec fn view_spec(&self) -> Seq<S> {
        self.force@
    }

    open spec fn dim_spec() -> nat {
        3
    }

    fn dim() -> (n: usize) {
        3
    }

    fn get_vector(&self) -> (r: &Vec<S>) {
        &self.force
    }

    fn form_from_array(vec: Vec<S>) -> (r: Self) {
        Force3dEci { force: vec }
    }
}

/// A three-component acceleration in the local-vertical/local-horizontal
/// frame of the reference spacecraft.
#[derive(Clone)]
pub struct Force3dLvlh<S> {
    /// The flat components.
    pub force: Vec<S>,
}

impl<S: Scalar> Force3dLvlh<S> {
    /// Builds the input from its three components.
    pub fn form_from_list(force_list: [S; 3]) -> (r: Self)
        ensures
            r.view_spec() == seq![force_list[0], force_list[1], force_list[2]],
    {
        let mut force: Vec<S> = Vec::new();
        force.push(force_list[0]);
        force.push(force_list[1]);
        force.push(force_list[2]);
        assert(force@ =~= seq![force_list[0], force_list[1], force_list[2]]);
        Force3dLvlh { force }
    }
}

impl<S: Scalar> Force<S> for Force3dLvlh<S> {
    open spec fn view_spec(&self) -> Seq<S> {
        self.force@
    }

    open spec fn dim_spec() -> nat {
        3
    }

    fn dim() -> (n: usize) {
        3
    }

    fn get_vector(&self) -> (r: &Vec<S>) {
        &self.force
    }

    fn form_from_array(vec: Vec<S>) -> (r: Self) {
        Force3dLvlh { force: vec }
    }
}

/// A six-component input for a chief/deputy pair in the inertial frame:
/// the first three components act on the chief, the last three on the
/// deputy.
#[derive(Clone)]
pub struct Force6dEci<S> {
    /// The flat components.
    pub force: Vec<S>,
}

impl<S: Scalar> Force<S> for Force6dEci<S> {
    open spec fn view_spec(&self) -> Seq<S> {
        self.force@
    }

    open spec fn dim_spec() -> nat {
        6
    }

    fn dim() -> (n: usize) {
        6
    }

    fn get_vector(&self) -> (r: &Vec<S>) {
        &self.force
    }

    fn form_from_array(vec: Vec<S>) -> (r: Self) {
        Force6dEci { force: vec }
    }
}

/// A six-component input in the local frame.
#[derive(Clone)]
pub struct Force6dLvlh<S> {
    /// The flat components.
    pub force: Vec<S>,
}

impl<S: Scalar> Force6dLvlh<S> {
    /// Builds the input from its six components.
    pub fn form_from_list(force_list: [S; 6]) -> (r: Self)
        ensures
            r.view_spec() == seq![
                force_list[0],
                force_list[1],
                force_list[2],
                force_list[3],
                force_list[4],
                force_list[5],
            ],
    {
        let mut force: Vec<S> = Vec::new();
        force.push(force_list[0]);
        force.push(force_list[1]);
        force.push(force_list[2]);
        force.push(force_list[3]);
        force.push(force_list[4]);
        force.push(force_list[5]);
        assert(force@ =~= seq![
            force_list[0],
            force_list[1],
            force_list[2],
            force_list[3],
            force_list[4],
            force_list[5],
        ]);
        Force6dLvlh { force }
    }
}

impl<S: Scalar> Force<S> for Force6dLvlh<S> {
    open spec fn view_spec(&self) -> Seq<S> {
        self.force@
    }

    open spec fn dim_spec() -> nat {
        6
    }

    fn dim() -> (n: usize) {
        6
    }

    fn get_vector(&self) -> (r: &Vec<S>) {
        &self.force
    }

    fn form_from_array(vec: Vec<S>) -> (r: Self) {
        Force6dLvlh { force: vec }
    }
}

} // verus!
