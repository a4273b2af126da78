//! The abstract scalar that every vector, matrix, dynamics model and cost in
//! this crate is built over.
//!
//! The optimiser never looks inside a scalar: it only adds, subtracts,
//! multiplies, divides, takes square roots and compares.  Each of those
//! operations is paired with a specification-level twin, and the handful of
//! ring laws that the optimiser's proofs actually use are stated as proof
//! obligations on every implementation.  The crate itself provides the
//! saturating-free wrapping semantics on `i64`; a caller may supply any other
//! number type (the laws then become the caller's responsibility).

use vstd::prelude::*;

verus! {

/// An abstract field-like scalar.
///
/// The specification members (`spec_*`) fix, per implementation, what each
/// executable operation returns; the proof members are the algebraic laws the
/// optimiser's contracts rely on (`a - a == 0`, `0` neutral for `+`,
/// absorbing for `*`, and compatibility of the strict order).
pub trait Scalar: Sized + Copy {
    /// What `add` returns.
    spec fn add_spec(self, other: Self) -> Self;

    /// What `sub` returns.
    spec fn sub_spec(self, other: Self) -> Self;

    /// What `mul` returns.
    spec fn mul_spec(self, other: Self) -> Self;

    /// What `div` returns.
    spec fn div_spec(self, other: Self) -> Self;

    /// What `sqrt` returns.
    spec fn sqrt_spec(self) -> Self;

    /// What `lt` returns: the strict order on scalars.
    spec fn lt_spec(self, other: Self) -> bool;

    /// The additive neutral element.
    spec fn zero_spec() -> Self;

    /// The multiplicative neutral element.
    spec fn one_spec() -> Self;

    /// The scalar standing for the circle constant, used by domain checks
    /// on angles.
    spec fn pi_spec() -> Self;

    /// What `from_usize` returns.
    spec fn from_usize_spec(n: usize) -> Self;

    fn add(self, other: Self) -> (r: Self)
        ensures
            r == self.add_spec(other),
    ;

    fn sub(self, other: Self) -> (r: Self)
        ensures
            r == self.sub_spec(other),
    ;

    fn mul(self, other: Self) -> (r: Self)
        ensures
            r == self.mul_spec(other),
    ;

    fn div(self, other: Self) -> (r: Self)
        ensures
            r == self.div_spec(other),
    ;

    fn sqrt(self) -> (r: Self)
        ensures
            r == self.sqrt_spec(),
    ;

    fn lt(self, other: Self) -> (r: bool)
        ensures
            r == self.lt_spec(other),
    ;

    /// `self <= other`, defined as the complement of the reversed strict
    /// order.
    fn le(self, other: Self) -> (r: bool)
        ensures
            r == !other.lt_spec(self),
    {
        !other.lt(self)
    }

    fn zero() -> (r: Self)
        ensures
            r == Self::zero_spec(),
    ;

    fn one() -> (r: Self)
        ensures
            r == Self::one_spec(),
    ;

    fn pi() -> (r: Self)
        ensures
            r == Self::pi_spec(),
    ;

    fn from_usize(n: usize) -> (r: Self)
        ensures
            r == Self::from_usize_spec(n),
    ;

    /// Subtracting a scalar from itself yields the additive neutral element.
    proof fn lemma_sub_self(a: Self)
        ensures
            a.sub_spec(a) == Self::zero_spec(),
    ;

    /// The additive neutral element is neutral on both sides.
    proof fn lemma_add_zero(a: Self)
        ensures
            a.add_spec(Self::zero_spec()) == a,
            Self::zero_spec().add_spec(a) == a,
    ;

    /// The additive neutral element absorbs multiplication on both sides.
    proof fn lemma_mul_zero(a: Self)
        ensures
            a.mul_spec(Self::zero_spec()) == Self::zero_spec(),
            Self::zero_spec().mul_spec(a) == Self::zero_spec(),
    ;

    /// The strict order is irreflexive.
    proof fn lemma_lt_irrefl(a: Self)
        ensures
            !a.lt_spec(a),
    ;

    /// If `a` is not below `b` while `c` is, then `a` is not below `c`.
    /// This is what lets a running minimum stay a lower bound when it
    /// decreases.
    proof fn lemma_lt_compat(a: Self, b: Self, c: Self)
        requires
            !a.lt_spec(b),
            c.lt_spec(b),
        ensures
            !a.lt_spec(c),
    ;

    /// The complement order is transitive: from `a <= b` and `b <= c`
    /// follows `a <= c`.  This is what lets a best-so-far value stay below
    /// its starting point.
    proof fn lemma_le_trans(a: Self, b: Self, c: Self)
        requires
            !b.lt_spec(a),
            !c.lt_spec(b),
        ensures
            !c.lt_spec(a),
    ;
}

/// The magnitude of an `i64`, total on the whole range.
fn magnitude_u64(a: i64) -> (r: u64)
    ensures
        r == vstd::math::abs(a as int),
{
    if a >= 0 {
        a as u64
    } else if a == i64::MIN {
        9223372036854775808u64
    } else {
        (-a) as u64
    }
}

/// What the integer model's division returns: the quotient of the
/// magnitudes, euclidean on naturals, with the sign of the exact quotient,
/// total on the whole range.
pub open spec fn i64_div_spec(a: i64, other: i64) -> i64 {
    if other == 0 || (a == i64::MIN && other == -1) {
        0
    } else {
        let uq = vstd::math::abs(a as int) / vstd::math::abs(other as int);
        if (a < 0) != (other < 0) {
            if uq >= 9223372036854775808 {
                i64::MIN
            } else {
                (-(uq as int)) as i64
            }
        } else {
            if uq > i64::MAX as int {
                i64::MAX
            } else {
                uq as i64
            }
        }
    }
}

impl Scalar for i64 {
    open spec fn add_spec(self, other: Self) -> Self {
        vstd::wrapping::i64_specs::wrapping_add(self, other)
    }

    open spec fn sub_spec(self, other: Self) -> Self {
        vstd::wrapping::i64_specs::wrapping_sub(self, other)
    }

    open spec fn mul_spec(self, other: Self) -> Self {
        vstd::wrapping::i64_specs::wrapping_mul(self, other)
    }

    /// Truncating division, total: division by zero (and the one overflowing
    /// quotient) yields zero.
    open spec fn div_spec(self, other: Self) -> Self {
        i64_div_spec(self, other)
    }

    /// The integer model has no exact square root; the operation is left as
    /// the identity, and no law of this trait constrains it.
    open spec fn sqrt_spec(self) -> Self {
        self
    }

    open spec fn lt_spec(self, other: Self) -> bool {
        self < other
    }

    open spec fn zero_spec() -> Self {
        0
    }

    open spec fn one_spec() -> Self {
        1
    }

    /// The closest the integer model comes to the circle constant.
    open spec fn pi_spec() -> Self {
        3
    }

    open spec fn from_usize_spec(n: usize) -> Self {
        if n <= i64::MAX as usize {
            n as i64
        } else {
            i64::MAX
        }
    }

    fn add(self, other: Self) -> (r: Self) {
        self.wrapping_add(other)
    }

    fn sub(self, other: Self) -> (r: Self) {
        self.wrapping_sub(other)
    }

    fn mul(self, other: Self) -> (r: Self) {
        self.wrapping_mul(other)
    }

    fn div(self, other: Self) -> (r: Self) {
        if other == 0 || (self == i64::MIN && other == -1) {
            0
        } else {
            let ua = magnitude_u64(self);
            let ub = magnitude_u64(other);
            let uq = ua / ub;
            if (self < 0) != (other < 0) {
                if uq >= 9223372036854775808u64 {
                    i64::MIN
                } else {
                    -(uq as i64)
                }
            } else {
                if uq > i64::MAX as u64 {
                    i64::MAX
                } else {
                    uq as i64
                }
            }
        }
    }

    fn sqrt(self) -> (r: Self) {
        self
    }

    fn lt(self, other: Self) -> (r: bool) {
        self < other
    }

    fn zero() -> (r: Self) {
        0
    }

    fn one() -> (r: Self) {
        1
    }

    fn pi() -> (r: Self) {
        3
    }

    fn from_usize(n: usize) -> (r: Self) {
        if n <= i64::MAX as usize {
            n as i64
        } else {
            i64::MAX
        }
    }

    proof fn lemma_sub_self(a: Self) {
    }

    proof fn lemma_add_zero(a: Self) {
    }

    proof fn lemma_mul_zero(a: Self) {
    }

    proof fn lemma_lt_irrefl(a: Self) {
    }

    proof fn lemma_lt_compat(a: Self, b: Self, c: Self) {
    }

    proof fn lemma_le_trans(a: Self, b: Self, c: Self) {
    }
}

} // verus!
