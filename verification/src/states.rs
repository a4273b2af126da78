//! The concrete state types: inertial and local position/velocity states,
//! the chief/deputy pair state, orbital elements with their domain checks,
//! and the augmented estimator state.

use vstd::prelude::*;

use crate::algebra::{dot_spec, seq_sub, vec_dot, vec_sub, DenseMatrix};
use crate::scalar::Scalar;
use crate::state::StateVector;

verus! {

/// A position/velocity state `[p0 p1 p2 v0 v1 v2]` in the Earth-centred
/// inertial frame.
#[derive(Clone)]
pub struct PositionVelocityStateEci<S> {
    /// The flat components.
    pub state: Vec<S>,
}

impl<S: Scalar> PositionVelocityStateEci<S> {
    /// Builds the state from its position and velocity halves.
    pub fn form_from_list(position: [S; 3], velocity: [S; 3]) -> (r: Self)
        ensures
            r.view_spec() == seq![
                position[0],
                position[1],
                position[2],
                velocity[0],
                velocity[1],
                velocity[2],
            ],
    {
        let mut state: Vec<S> = Vec::new();
        state.push(position[0]);
        state.push(position[1]);
        state.push(position[2]);
        state.push(velocity[0]);
        state.push(velocity[1]);
        state.push(velocity[2]);
        assert(state@ =~= seq![
            position[0],
            position[1],
            position[2],
            velocity[0],
            velocity[1],
            velocity[2],
        ]);
        PositionVelocityStateEci { state }
    }

    /// The position half.
    pub fn position(&self) -> (r: Vec<S>)
        requires
            self.view_spec().len() == 6,
        ensures
            r@ == self.view_spec().subrange(0, 3),
    {
        let mut out: Vec<S> = Vec::new();
        out.push(self.state[0]);
        out.push(self.state[1]);
        out.push(self.state[2]);
        assert(out@ =~= self.view_spec().subrange(0, 3));
        out
    }

    /// The velocity half.
    pub fn velocity(&self) -> (r: Vec<S>)
        requires
            self.view_spec().len() == 6,
        ensures
            r@ == self.view_spec().subrange(3, 6),
    {
        let mut out: Vec<S> = Vec::new();
        out.push(self.state[3]);
        out.push(self.state[4]);
        out.push(self.state[5]);
        assert(out@ =~= self.view_spec().subrange(3, 6));
        out
    }

    /// The scalar-square-root of the position's squared length.
    pub fn position_norm(&self) -> (r: S)
        requires
            self.view_spec().len() == 6,
        ensures
            r == dot_spec(
                self.view_spec().subrange(0, 3),
                self.view_spec().subrange(0, 3),
            ).sqrt_spec(),
    {
        let p = self.position();
        vec_dot(&p, &p).sqrt()
    }

    /// The scalar-square-root of the velocity's squared length.
    pub fn velocity_norm(&self) -> (r: S)
        requires
            self.view_spec().len() == 6,
        ensures
            r == dot_spec(
                self.view_spec().subrange(3, 6),
                self.view_spec().subrange(3, 6),
            ).sqrt_spec(),
    {
        let v = self.velocity();
        vec_dot(&v, &v).sqrt()
    }
}

impl<S: Scalar> StateVector<S> for PositionVelocityStateEci<S> {
    open spec fn view_spec(&self) -> Seq<S> {
        self.state@
    }

    open spec fn dim_spec() -> nat {
        6
    }

    fn dim() -> (n: usize) {
        6
    }

    fn get_vector(&self) -> (r: &Vec<S>) {
        &self.state
    }

    fn form_from_array(vec: Vec<S>) -> (r: Self) {
        PositionVelocityStateEci { state: vec }
    }
}

/// A relative position/velocity state in the local-vertical /
/// local-horizontal frame of the reference spacecraft.
#[derive(Clone)]
pub struct PositionVelocityStateLvlh<S> {
    /// The flat components.
    pub state: Vec<S>,
}

impl<S: Scalar> PositionVelocityStateLvlh<S> {
    /// Builds the state from its position and velocity halves.
    pub fn form_from_list(position: [S; 3], velocity: [S; 3]) -> (r: Self)
        ensures
            r.view_spec() == seq![
                position[0],
                position[1],
                position[2],
                velocity[0],
                velocity[1],
                velocity[2],
            ],
    {
        let mut state: Vec<S> = Vec::new();
        state.push(position[0]);
        state.push(position[1]);
        state.push(position[2]);
        state.push(velocity[0]);
        state.push(velocity[1]);
        state.push(velocity[2]);
        assert(state@ =~= seq![
            position[0],
            position[1],
            position[2],
            velocity[0],
            velocity[1],
            velocity[2],
        ]);
        PositionVelocityStateLvlh { state }
    }

    /// The position half.
    pub fn position(&self) -> (r: Vec<S>)
        requires
            self.view_spec().len() == 6,
        ensures
            r@ == self.view_spec().subrange(0, 3),
    {
        let mut out: Vec<S> = Vec::new();
        out.push(self.state[0]);
        out.push(self.state[1]);
        out.push(self.state[2]);
        assert(out@ =~= self.view_spec().subrange(0, 3));
        out
    }

    /// The velocity half.
    pub fn velocity(&self) -> (r: Vec<S>)
        requires
            self.view_spec().len() == 6,
        ensures
            r@ == self.view_spec().subrange(3, 6),
    {
        let mut out: Vec<S> = Vec::new();
        out.push(self.state[3]);
        out.push(self.state[4]);
        out.push(self.state[5]);
        assert(out@ =~= self.view_spec().subrange(3, 6));
        out
    }

    /// The scalar-square-root of the position's squared length.
    pub fn position_norm(&self) -> (r: S)
        requires
            self.view_spec().len() == 6,
        ensures
            r == dot_spec(
                self.view_spec().subrange(0, 3),
                self.view_spec().subrange(0, 3),
            ).sqrt_spec(),
    {
        let p = self.position();
        vec_dot(&p, &p).sqrt()
    }

    /// The scalar-square-root of the velocity's squared length.
    pub fn velocity_norm(&self) -> (r: S)
        requires
            self.view_spec().len() == 6,
        ensures
            r == dot_spec(
                self.view_spec().subrange(3, 6),
                self.view_spec().subrange(3, 6),
            ).sqrt_spec(),
    {
        let v = self.velocity();
        vec_dot(&v, &v).sqrt()
    }

    /// The componentwise difference of two inertial states, reinterpreted
    /// in the local frame.
    pub fn form_from_states(
        state_base: &PositionVelocityStateEci<S>,
        state_target: &PositionVelocityStateEci<S>,
    ) -> (r: Self)
        requires
            state_base.view_spec().len() == 6,
            state_target.view_spec().len() == 6,
        ensures
            r.view_spec() == seq_sub(state_target.view_spec(), state_base.view_spec()),
    {
        PositionVelocityStateLvlh {
            state: vec_sub(state_target.get_vector(), state_base.get_vector()),
        }
    }
}

impl<S: Scalar> StateVector<S> for PositionVelocityStateLvlh<S> {
    open spec fn view_spec(&self) -> Seq<S> {
        self.state@
    }

    open spec fn dim_spec() -> nat {
        6
    }

    fn dim() -> (n: usize) {
        6
    }

    fn get_vector(&self) -> (r: &Vec<S>) {
        &self.state
    }

    fn form_from_array(vec: Vec<S>) -> (r: Self) {
        PositionVelocityStateLvlh { state: vec }
    }
}

/// The stacked state of a chief/deputy pair in the inertial frame: the
/// chief's six components, then the deputy's.
#[derive(Clone)]
pub struct PositionVelocityPairStateEci<S> {
    /// The flat components.
    pub state: Vec<S>,
}

impl<S: Scalar> PositionVelocityPairStateEci<S> {
    /// The chief's six components.
    pub fn chief(&self) -> (r: Vec<S>)
        requires
            self.view_spec().len() == 12,
        ensures
            r@ == self.view_spec().subrange(0, 6),
    {
        let mut out: Vec<S> = Vec::new();
        let mut i: usize = 0;
        while i < 6
            invariant
                self.view_spec().len() == 12,
                i <= 6,
                out@.len() == i,
                forall|k: int| 0 <= k < i ==> out@[k] == self.view_spec()[k],
            decreases 6 - i,
        {
            out.push(self.state[i]);
            i = i + 1;
        }
        assert(out@ =~= self.view_spec().subrange(0, 6));
        out
    }

    /// The deputy's six components.
    pub fn deputy(&self) -> (r: Vec<S>)
        requires
            self.view_spec().len() == 12,
        ensures
            r@ == self.view_spec().subrange(6, 12),
    {
        let mut out: Vec<S> = Vec::new();
        let mut i: usize = 6;
        while i < 12
            invariant
                self.view_spec().len() == 12,
                6 <= i <= 12,
                out@.len() == i - 6,
                forall|k: int| 0 <= k < i - 6 ==> out@[k] == self.view_spec()[k + 6],
            decreases 12 - i,
        {
            out.push(self.state[i]);
            i = i + 1;
        }
        assert(out@ =~= self.view_spec().subrange(6, 12));
        out
    }
}

impl<S: Scalar> StateVector<S> for PositionVelocityPairStateEci<S> {
    open spec fn view_spec(&self) -> Seq<S> {
        self.state@
    }

    open spec fn dim_spec() -> nat {
        12
    }

    fn dim() -> (n: usize) {
        12
    }

    fn get_vector(&self) -> (r: &Vec<S>) {
        &self.state
    }

    fn form_from_array(vec: Vec<S>) -> (r: Self) {
        PositionVelocityPairStateEci { state: vec }
    }
}

/// Why a set of orbital elements was rejected.
#[derive(PartialEq, Eq, Structural, Clone, Copy, Debug)]
pub enum OrbitalElementsError {
    /// The semi-major axis must be positive.
    NonPositiveSemiMajorAxis,
    /// The eccentricity must lie in `[0, 1)`.
    EccentricityOutOfRange,
    /// The inclination must lie in `[0, pi]`.
    InclinationOutOfRange,
}

impl OrbitalElementsError {
    /// A descriptive message for the failed domain check.
    pub fn message(&self) -> &'static str {
        match self {
            OrbitalElementsError::NonPositiveSemiMajorAxis => {
                "the semi-major axis must be positive"
            },
            OrbitalElementsError::EccentricityOutOfRange => {
                "the eccentricity must lie in [0, 1)"
            },
            OrbitalElementsError::InclinationOutOfRange => {
                "the inclination must lie in [0, pi]"
            },
        }
    }
}

/// Keplerian orbital elements
/// `[a e i_rad omega_rad Omega_rad nu_rad]`, also carried as named
/// components.
#[derive(Clone, Debug)]
pub struct OrbitalElements<S> {
    /// The flat components.
    pub state: Vec<S>,
    /// Semi-major axis.
    pub a: S,
    /// Eccentricity.
    pub e: S,
    /// Inclination.
    pub i_rad: S,
    /// Argument of perigee.
    pub omega_rad: S,
    /// Longitude of the ascending node.
    pub upper_omega_rad: S,
    /// True anomaly.
    pub nu_rad: S,
}

impl<S: Scalar> OrbitalElements<S> {
    /// Validated construction: fails with a descriptive error exactly when
    /// a domain precondition is violated, checked in the order semi-major
    /// axis, eccentricity, inclination.
    pub fn form_from_elements(
        a: S,
        e: S,
        i_rad: S,
        omega_rad: S,
        upper_omega_rad: S,
        nu_rad: S,
    ) -> (r: Result<Self, OrbitalElementsError>)
        ensures
            match r {
                Result::Ok(oe) => {
                    &&& S::zero_spec().lt_spec(a)
                    &&& !e.lt_spec(S::zero_spec())
                    &&& e.lt_spec(S::one_spec())
                    &&& !i_rad.lt_spec(S::zero_spec())
                    &&& !S::pi_spec().lt_spec(i_rad)
                    &&& oe.a == a
                    &&& oe.e == e
                    &&& oe.i_rad == i_rad
                    &&& oe.omega_rad == omega_rad
                    &&& oe.upper_omega_rad == upper_omega_rad
                    &&& oe.nu_rad == nu_rad
                    &&& oe.view_spec() == seq![a, e, i_rad, omega_rad, upper_omega_rad, nu_rad]
                },
                Result::Err(err) => {
                    &&& (err == OrbitalElementsError::NonPositiveSemiMajorAxis <==> !S::zero_spec().lt_spec(
                        a,
                    ))
                    &&& (err == OrbitalElementsError::EccentricityOutOfRange <==> S::zero_spec().lt_spec(
                        a,
                    ) && (e.lt_spec(S::zero_spec()) || !e.lt_spec(S::one_spec())))
                    &&& (err == OrbitalElementsError::InclinationOutOfRange <==> S::zero_spec().lt_spec(
                        a,
                    ) && !e.lt_spec(S::zero_spec()) && e.lt_spec(S::one_spec()) && (i_rad.lt_spec(
                        S::zero_spec(),
                    ) || S::pi_spec().lt_spec(i_rad)))
                },
            },
    {
        if !S::zero().lt(a) {
            return Result::Err(OrbitalElementsError::NonPositiveSemiMajorAxis);
        }
        if e.lt(S::zero()) || !e.lt(S::one()) {
            return Result::Err(OrbitalElementsError::EccentricityOutOfRange);
        }
        if i_rad.lt(S::zero()) || S::pi().lt(i_rad) {
            return Result::Err(OrbitalElementsError::InclinationOutOfRange);
        }
        let mut state: Vec<S> = Vec::new();
        state.push(a);
        state.push(e);
        state.push(i_rad);
        state.push(omega_rad);
        state.push(upper_omega_rad);
        state.push(nu_rad);
        assert(state@ =~= seq![a, e, i_rad, omega_rad, upper_omega_rad, nu_rad]);
        Result::Ok(
            OrbitalElements { state, a, e, i_rad, omega_rad, upper_omega_rad, nu_rad },
        )
    }
}

impl<S: Scalar> StateVector<S> for OrbitalElements<S> {
    open spec fn view_spec(&self) -> Seq<S> {
        self.state@
    }

    open spec fn dim_spec() -> nat {
        6
    }

    fn dim() -> (n: usize) {
        6
    }

    fn get_vector(&self) -> (r: &Vec<S>) {
        &self.state
    }

    /// Reconstruction from a flat array keeps the named components in step
    /// with the vector.
    fn form_from_array(vec: Vec<S>) -> (r: Self) {
        let a = vec[0];
        let e = vec[1];
        let i_rad = vec[2];
        let omega_rad = vec[3];
        let upper_omega_rad = vec[4];
        let nu_rad = vec[5];
        OrbitalElements { state: vec, a, e, i_rad, omega_rad, upper_omega_rad, nu_rad }
    }
}

/// How many packed entries the rows before row `i` contribute: row `r`
/// contributes its `6 - r` entries on and right of the diagonal.
pub open spec fn upper_row_base_spec(i: int) -> int
    decreases i,
{
    if i <= 0 {
        0
    } else {
        upper_row_base_spec(i - 1) + (6 - (i - 1))
    }
}

/// Offset of the entry `(i, j)`, `i <= j`, inside the packed upper
/// triangle of a six-by-six matrix.
pub open spec fn upper_offset_spec(i: int, j: int) -> int {
    upper_row_base_spec(i) + (j - i)
}

/// The seven row-base values of the packed upper triangle, spelled out.
pub proof fn lemma_upper_row_base_values()
    ensures
        upper_row_base_spec(0) == 0,
        upper_row_base_spec(1) == 6,
        upper_row_base_spec(2) == 11,
        upper_row_base_spec(3) == 15,
        upper_row_base_spec(4) == 18,
        upper_row_base_spec(5) == 20,
        upper_row_base_spec(6) == 21,
{
    assert(upper_row_base_spec(0) == 0);
    assert(upper_row_base_spec(1) == 6);
    assert(upper_row_base_spec(2) == 11);
    assert(upper_row_base_spec(3) == 15);
    assert(upper_row_base_spec(4) == 18);
    assert(upper_row_base_spec(5) == 20);
    assert(upper_row_base_spec(6) == 21);
}

/// Every packed-upper-triangle offset lies below 21, and offsets of
/// earlier rows stay below the bases of later ones.
proof fn lemma_upper_offset_bound(i: int, j: int)
    requires
        0 <= i <= j < 6,
    ensures
        0 <= upper_offset_spec(i, j) < 21,
        upper_offset_spec(i, j) < upper_row_base_spec(i + 1),
        upper_row_base_spec(i) + (6 - i) <= 21,
{
    lemma_upper_row_base_values();
}

/// The augmented estimator state for the controller's internal model: a
/// nominal trajectory (6), an estimate (6), and the packed upper triangle
/// of a six-by-six covariance (21) — 33 components in all.
#[derive(Clone)]
pub struct PositionVelocityCovarianceStateLvlh<S> {
    /// The flat components `[mu_x (6), est_x (6), packed upper of P (21)]`.
    pub state: Vec<S>,
}

impl<S: Scalar> PositionVelocityCovarianceStateLvlh<S> {
    /// Packs a nominal state, an estimate and a covariance into the flat
    /// augmented vector; every component of the result is pinned.
    pub fn from_from_states(
        mu_x: &PositionVelocityStateLvlh<S>,
        est_x: &PositionVelocityStateLvlh<S>,
        p: DenseMatrix<S>,
    ) -> (r: Self)
        requires
            mu_x.view_spec().len() == 6,
            est_x.view_spec().len() == 6,
            p.wf(),
            p.rows == 6,
            p.cols == 6,
        ensures
            r.view_spec().len() == 33,
            r.view_spec().subrange(0, 6) == mu_x.view_spec(),
            r.view_spec().subrange(6, 12) == est_x.view_spec(),
            forall|i: int, j: int|
                0 <= i <= j < 6 ==> r.view_spec()[12 + #[trigger] upper_offset_spec(i, j)]
                    == p.entry_spec(i, j),
    {
        let mut state: Vec<S> = Vec::new();
        let mut i: usize = 0;
        while i < 6
            invariant
                mu_x.view_spec().len() == 6,
                i <= 6,
                state@.len() == i,
                forall|k: int| 0 <= k < i ==> state@[k] == mu_x.view_spec()[k],
            decreases 6 - i,
        {
            state.push(mu_x.state[i]);
            i = i + 1;
        }
        let mut i2: usize = 0;
        while i2 < 6
            invariant
                mu_x.view_spec().len() == 6,
                est_x.view_spec().len() == 6,
                i2 <= 6,
                state@.len() == 6 + i2,
                forall|k: int| 0 <= k < 6 ==> state@[k] == mu_x.view_spec()[k],
                forall|k: int| 0 <= k < i2 ==> state@[6 + k] == est_x.view_spec()[k],
            decreases 6 - i2,
        {
            state.push(est_x.state[i2]);
            i2 = i2 + 1;
        }
        let mut row: usize = 0;
        while row < 6
            invariant
                mu_x.view_spec().len() == 6,
                est_x.view_spec().len() == 6,
                p.wf(),
                p.rows == 6,
                p.cols == 6,
                row <= 6,
                state@.len() == 12 + upper_offset_spec(row as int, row as int),
                forall|k: int| 0 <= k < 6 ==> state@[k] == mu_x.view_spec()[k],
                forall|k: int| 0 <= k < 6 ==> state@[6 + k] == est_x.view_spec()[k],
                forall|i3: int, j3: int|
                    0 <= i3 <= j3 < 6 && i3 < row ==> state@[12 + #[trigger] upper_offset_spec(
                        i3,
                        j3,
                    )] == p.entry_spec(i3, j3),
            decreases 6 - row,
        {
            let mut col: usize = row;
            while col < 6
                invariant
                    mu_x.view_spec().len() == 6,
                    est_x.view_spec().len() == 6,
                    p.wf(),
                    p.rows == 6,
                    p.cols == 6,
                    row < 6,
                    row <= col <= 6,
                    state@.len() == 12 + upper_offset_spec(row as int, col as int),
                    forall|k: int| 0 <= k < 6 ==> state@[k] == mu_x.view_spec()[k],
                    forall|k: int| 0 <= k < 6 ==> state@[6 + k] == est_x.view_spec()[k],
                    forall|i3: int, j3: int|
                        0 <= i3 <= j3 < 6 && i3 < row ==> state@[12 + #[trigger] upper_offset_spec(
                            i3,
                            j3,
                        )] == p.entry_spec(i3, j3),
                    forall|j3: int|
                        row <= j3 < col ==> state@[12 + #[trigger] upper_offset_spec(
                            row as int,
                            j3,
                        )] == p.entry_spec(row as int, j3),
                decreases 6 - col,
            {
                proof {
                    lemma_upper_row_base_values();
                    assert forall|i3: int, j3: int|
                        0 <= i3 <= j3 < 6 && i3 < row implies 12 + upper_offset_spec(i3, j3)
                        < state@.len() by {
                        lemma_upper_offset_bound(i3, j3);
                        if i3 + 1 < row as int {
                            lemma_upper_offset_bound(i3 + 1, i3 + 1);
                        }
                    }
                }
                state.push(p.get(row, col));
                col = col + 1;
            }
            proof {
                lemma_upper_row_base_values();
            }
            row = row + 1;
        }
        proof {
            lemma_upper_row_base_values();
            assert(state@.subrange(0, 6) =~= mu_x.view_spec());
            assert(state@.subrange(6, 12) =~= est_x.view_spec());
        }
        PositionVelocityCovarianceStateLvlh { state }
    }

    /// Packs two flat six-component halves and a covariance.
    pub fn form_from_list(mu_x: [S; 6], est_x: [S; 6], p: DenseMatrix<S>) -> (r: Self)
        requires
            p.wf(),
            p.rows == 6,
            p.cols == 6,
        ensures
            r.view_spec().len() == 33,
            forall|k: int| 0 <= k < 6 ==> r.view_spec()[k] == mu_x[k],
            forall|k: int| 0 <= k < 6 ==> r.view_spec()[6 + k] == est_x[k],
            forall|i: int, j: int|
                0 <= i <= j < 6 ==> r.view_spec()[12 + #[trigger] upper_offset_spec(i, j)]
                    == p.entry_spec(i, j),
    {
        let mu = PositionVelocityStateLvlh::form_from_list(
            [mu_x[0], mu_x[1], mu_x[2]],
            [mu_x[3], mu_x[4], mu_x[5]],
        );
        let est = PositionVelocityStateLvlh::form_from_list(
            [est_x[0], est_x[1], est_x[2]],
            [est_x[3], est_x[4], est_x[5]],
        );
        Self::from_from_states(&mu, &est, p)
    }

    /// The nominal trajectory half.
    pub fn get_mu_x(&self) -> (r: PositionVelocityStateLvlh<S>)
        requires
            self.view_spec().len() == 33,
        ensures
            r.view_spec() == self.view_spec().subrange(0, 6),
    {
        let mut out: Vec<S> = Vec::new();
        let mut i: usize = 0;
        while i < 6
            invariant
                self.view_spec().len() == 33,
                i <= 6,
                out@.len() == i,
                forall|k: int| 0 <= k < i ==> out@[k] == self.view_spec()[k],
            decreases 6 - i,
        {
            out.push(self.state[i]);
            i = i + 1;
        }
        assert(out@ =~= self.view_spec().subrange(0, 6));
        PositionVelocityStateLvlh { state: out }
    }

    /// The estimate half.
    pub fn get_est_x(&self) -> (r: PositionVelocityStateLvlh<S>)
        requires
            self.view_spec().len() == 33,
        ensures
            r.view_spec() == self.view_spec().subrange(6, 12),
    {
        let mut out: Vec<S> = Vec::new();
        let mut i: usize = 6;
        while i < 12
            invariant
                self.view_spec().len() == 33,
                6 <= i <= 12,
                out@.len() == i - 6,
                forall|k: int| 0 <= k < i - 6 ==> out@[k] == self.view_spec()[k + 6],
            decreases 12 - i,
        {
            out.push(self.state[i]);
            i = i + 1;
        }
        assert(out@ =~= self.view_spec().subrange(6, 12));
        PositionVelocityStateLvlh { state: out }
    }

    /// The covariance, unpacked from its upper triangle and therefore
    /// symmetric by construction.
    pub fn get_covariance_matrix(&self) -> (r: DenseMatrix<S>)
        requires
            self.view_spec().len() == 33,
        ensures
            r.wf(),
            r.rows == 6,
            r.cols == 6,
            forall|i: int, j: int|
                0 <= i <= j < 6 ==> #[trigger] r.entry_spec(i, j) == self.view_spec()[12
                    + upper_offset_spec(i, j)],
            forall|i: int, j: int|
                0 <= j < i < 6 ==> #[trigger] r.entry_spec(i, j) == self.view_spec()[12
                    + upper_offset_spec(j, i)],
    {
        let mut p = DenseMatrix::<S>::zeros(6, 6);
        let mut row: usize = 0;
        let mut row_base: usize = 0;
        while row < 6
            invariant
                self.view_spec().len() == 33,
                row <= 6,
                row_base == upper_row_base_spec(row as int),
                row_base <= 21,
                p.wf(),
                p.rows == 6,
                p.cols == 6,
                forall|i: int, j: int|
                    0 <= i <= j < 6 && i < row ==> #[trigger] p.entry_spec(i, j)
                        == self.view_spec()[12 + upper_offset_spec(i, j)],
                forall|i: int, j: int|
                    0 <= j <= i < 6 && j < row ==> #[trigger] p.entry_spec(i, j)
                        == self.view_spec()[12 + upper_offset_spec(j, i)],
            decreases 6 - row,
        {
            let mut col: usize = row;
            while col < 6
                invariant
                    self.view_spec().len() == 33,
                    row < 6,
                    row <= col <= 6,
                    row_base == upper_row_base_spec(row as int),
                    row_base <= 21,
                    p.wf(),
                    p.rows == 6,
                    p.cols == 6,
                    forall|i: int, j: int|
                        0 <= i <= j < 6 && i < row ==> #[trigger] p.entry_spec(i, j)
                            == self.view_spec()[12 + upper_offset_spec(i, j)],
                    forall|i: int, j: int|
                        0 <= j <= i < 6 && j < row ==> #[trigger] p.entry_spec(i, j)
                            == self.view_spec()[12 + upper_offset_spec(j, i)],
                    forall|j: int|
                        row <= j < col ==> #[trigger] p.entry_spec(row as int, j)
                            == self.view_spec()[12 + upper_offset_spec(row as int, j)],
                    forall|j: int|
                        row <= j < col ==> #[trigger] p.entry_spec(j, row as int)
                            == self.view_spec()[12 + upper_offset_spec(row as int, j)],
                decreases 6 - col,
            {
                let off = row_base + (col - row);
                proof {
                    lemma_upper_row_base_values();
                    lemma_upper_offset_bound(row as int, col as int);
                }
                let v = self.state[12 + off];
                p.set(row, col, v);
                p.set(col, row, v);
                col = col + 1;
            }
            proof {
                lemma_upper_row_base_values();
            }
            row_base = row_base + (6 - row);
            row = row + 1;
        }
        p
    }
}

impl<S: Scalar> StateVector<S> for PositionVelocityCovarianceStateLvlh<S> {
    open spec fn view_spec(&self) -> Seq<S> {
        self.state@
    }

    open spec fn dim_spec() -> nat {
        33
    }

    fn dim() -> (n: usize) {
        33
    }

    fn get_vector(&self) -> (r: &Vec<S>) {
        &self.state
    }

    fn form_from_array(vec: Vec<S>) -> (r: Self) {
        PositionVelocityCovarianceStateLvlh { state: vec }
    }
}

} // verus!
