//! Matrix-level operations over the abstract scalar: transpose, sum,
//! difference, product and outer product, with row-level specification
//! twins for composing whole-matrix formulas.

use vstd::prelude::*;

use crate::algebra::{dot_spec, seq_add, seq_scale, seq_sub, vec_add, vec_scale, vec_sub,
    DenseMatrix};
use crate::scalar::Scalar;

verus! {

/// The row-major position of `(i, j)` in a matrix of width `cols`.
pub open spec fn rm_index_spec(cols: int, i: int, j: int) -> int {
    i * cols + j
}

proof fn lemma_rm_distribute(cols: int, i: int)
    ensures
        (i + 1) * cols == i * cols + cols,
{
    assert((i + 1) * cols == i * cols + cols) by (nonlinear_arith);
}

proof fn lemma_rm_index_in_row_block(cols: int, i: int, j: int)
    requires
        0 <= j < cols,
        0 <= i,
    ensures
        i * cols <= rm_index_spec(cols, i, j) < (i + 1) * cols,
        (i + 1) * cols == i * cols + cols,
{
    lemma_rm_distribute(cols, i);
}

proof fn lemma_rm_index_mono(cols: int, i2: int, j2: int, i: int)
    requires
        0 <= j2 < cols,
        0 <= i2 < i,
    ensures
        rm_index_spec(cols, i2, j2) < i * cols,
{
    assert(i2 * cols + j2 < i * cols) by (nonlinear_arith)
        requires
            0 <= j2 < cols,
            0 <= i2 < i,
    {
    }
}

/// A matrix as its sequence of rows.
pub open spec fn smat_col<S>(m: Seq<Seq<S>>, j: int) -> Seq<S> {
    Seq::new(m.len(), |i: int| m[i][j])
}

/// The transpose of a row-sequence matrix with `cols` columns.
pub open spec fn smat_transpose<S>(m: Seq<Seq<S>>, cols: int) -> Seq<Seq<S>> {
    Seq::new(cols as nat, |j: int| smat_col(m, j))
}

/// Row-sequence matrix sum.
pub open spec fn smat_add<S: Scalar>(a: Seq<Seq<S>>, b: Seq<Seq<S>>) -> Seq<Seq<S>> {
    Seq::new(a.len(), |i: int| seq_add(a[i], b[i]))
}

/// Row-sequence matrix difference.
pub open spec fn smat_sub<S: Scalar>(a: Seq<Seq<S>>, b: Seq<Seq<S>>) -> Seq<Seq<S>> {
    Seq::new(a.len(), |i: int| seq_sub(a[i], b[i]))
}

/// Row-sequence matrix product with `b` of width `b_cols`: the `(i, j)`
/// entry is the inner product of `b`'s column `j` with `a`'s row `i`.
pub open spec fn smat_mul<S: Scalar>(a: Seq<Seq<S>>, b: Seq<Seq<S>>, b_cols: int) -> Seq<Seq<S>> {
    Seq::new(a.len(), |i: int| Seq::new(b_cols as nat, |j: int| dot_spec(smat_col(b, j), a[i])))
}

/// Row-sequence matrix-vector product.
pub open spec fn smat_matvec<S: Scalar>(m: Seq<Seq<S>>, x: Seq<S>) -> Seq<S> {
    Seq::new(m.len(), |i: int| dot_spec(m[i], x))
}

/// The outer product of two vectors: row `i` is `v` scaled by `u[i]`.
pub open spec fn smat_outer<S: Scalar>(u: Seq<S>, v: Seq<S>) -> Seq<Seq<S>> {
    Seq::new(u.len(), |i: int| seq_scale(v, u[i]))
}

impl<S: Scalar> DenseMatrix<S> {
    /// This matrix as its sequence of rows.
    pub open spec fn srows_spec(&self) -> Seq<Seq<S>> {
        Seq::new(self.rows as nat, |i: int| self.row_spec(i))
    }

    /// The transpose.
    pub fn transpose(&self) -> (r: Self)
        requires
            self.wf(),
        ensures
            r.wf(),
            r.rows == self.cols,
            r.cols == self.rows,
            r.srows_spec() == smat_transpose(self.srows_spec(), self.cols as int),
    {
        let mut data: Vec<S> = Vec::new();
        let mut i: usize = 0;
        while i < self.cols
            invariant
                self.wf(),
                i <= self.cols,
                data@.len() == i * self.rows,
                forall|i2: int, j2: int|
                    0 <= i2 < i && 0 <= j2 < self.rows ==> data@[#[trigger] rm_index_spec(
                        self.rows as int,
                        i2,
                        j2,
                    )] == self.entry_spec(j2, i2),
            decreases self.cols - i,
        {
            let mut row = self.col_vec(i);
            proof {
                lemma_rm_distribute(self.rows as int, i as int);
                assert forall|i2: int, j2: int|
                    0 <= i2 < i + 1 && 0 <= j2 < self.rows implies (data@ + row@)[
                #[trigger] rm_index_spec(self.rows as int, i2, j2)] == self.entry_spec(j2, i2) by {
                    if i2 < i as int {
                        lemma_rm_index_mono(self.rows as int, i2, j2, i as int);
                    } else {
                        lemma_rm_index_in_row_block(self.rows as int, i2, j2);
                    }
                }
            }
            data.append(&mut row);
            i = i + 1;
        }
        let r = DenseMatrix::new(self.cols, self.rows, data);
        proof {
            lemma_entrywise_srows(
                &r,
                smat_transpose(self.srows_spec(), self.cols as int),
                self.rows as int,
            );
        }
        r
    }

    /// The entrywise sum of two equally shaped matrices.
    pub fn mat_add(&self, other: &Self) -> (r: Self)
        requires
            self.wf(),
            other.wf(),
            self.rows == other.rows,
            self.cols == other.cols,
        ensures
            r.wf(),
            r.rows == self.rows,
            r.cols == self.cols,
            r.srows_spec() == smat_add(self.srows_spec(), other.srows_spec()),
    {
        let mut data: Vec<S> = Vec::new();
        let mut i: usize = 0;
        while i < self.rows
            invariant
                self.wf(),
                other.wf(),
                self.rows == other.rows,
                self.cols == other.cols,
                i <= self.rows,
                data@.len() == i * self.cols,
                forall|i2: int, j2: int|
                    0 <= i2 < i && 0 <= j2 < self.cols ==> data@[#[trigger] rm_index_spec(
                        self.cols as int,
                        i2,
                        j2,
                    )] == self.entry_spec(i2, j2).add_spec(other.entry_spec(i2, j2)),
            decreases self.rows - i,
        {
            let mut row = vec_add(&self.row_vec(i), &other.row_vec(i));
            proof {
                lemma_rm_distribute(self.cols as int, i as int);
                assert forall|i2: int, j2: int|
                    0 <= i2 < i + 1 && 0 <= j2 < self.cols implies (data@ + row@)[
                #[trigger] rm_index_spec(self.cols as int, i2, j2)] == self.entry_spec(
                    i2,
                    j2,
                ).add_spec(other.entry_spec(i2, j2)) by {
                    if i2 < i as int {
                        lemma_rm_index_mono(self.cols as int, i2, j2, i as int);
                    } else {
                        lemma_rm_index_in_row_block(self.cols as int, i2, j2);
                    }
                }
            }
            data.append(&mut row);
            i = i + 1;
        }
        let r = DenseMatrix::new(self.rows, self.cols, data);
        proof {
            lemma_entrywise_srows(
                &r,
                smat_add(self.srows_spec(), other.srows_spec()),
                self.cols as int,
            );
        }
        r
    }

    /// The entrywise difference of two equally shaped matrices.
    pub fn mat_sub(&self, other: &Self) -> (r: Self)
        requires
            self.wf(),
            other.wf(),
            self.rows == other.rows,
            self.cols == other.cols,
        ensures
            r.wf(),
            r.rows == self.rows,
            r.cols == self.cols,
            r.srows_spec() == smat_sub(self.srows_spec(), other.srows_spec()),
    {
        let mut data: Vec<S> = Vec::new();
        let mut i: usize = 0;
        while i < self.rows
            invariant
                self.wf(),
                other.wf(),
                self.rows == other.rows,
                self.cols == other.cols,
                i <= self.rows,
                data@.len() == i * self.cols,
                forall|i2: int, j2: int|
                    0 <= i2 < i && 0 <= j2 < self.cols ==> data@[#[trigger] rm_index_spec(
                        self.cols as int,
                        i2,
                        j2,
                    )] == self.entry_spec(i2, j2).sub_spec(other.entry_spec(i2, j2)),
            decreases self.rows - i,
        {
            let mut row = vec_sub(&self.row_vec(i), &other.row_vec(i));
            proof {
                lemma_rm_distribute(self.cols as int, i as int);
                assert forall|i2: int, j2: int|
                    0 <= i2 < i + 1 && 0 <= j2 < self.cols implies (data@ + row@)[
                #[trigger] rm_index_spec(self.cols as int, i2, j2)] == self.entry_spec(
                    i2,
                    j2,
                ).sub_spec(other.entry_spec(i2, j2)) by {
                    if i2 < i as int {
                        lemma_rm_index_mono(self.cols as int, i2, j2, i as int);
                    } else {
                        lemma_rm_index_in_row_block(self.cols as int, i2, j2);
                    }
                }
            }
            data.append(&mut row);
            i = i + 1;
        }
        let r = DenseMatrix::new(self.rows, self.cols, data);
        proof {
            lemma_entrywise_srows(
                &r,
                smat_sub(self.srows_spec(), other.srows_spec()),
                self.cols as int,
            );
        }
        r
    }

    /// The matrix product `self * other`.
    pub fn mat_mul(&self, other: &Self) -> (r: Self)
        requires
            self.wf(),
            other.wf(),
            self.cols == other.rows,
        ensures
            r.wf(),
            r.rows == self.rows,
            r.cols == other.cols,
            r.srows_spec() == smat_mul(self.srows_spec(), other.srows_spec(), other.cols as int),
    {
        let mut data: Vec<S> = Vec::new();
        let mut i: usize = 0;
        while i < self.rows
            invariant
                self.wf(),
                other.wf(),
                self.cols == other.rows,
                i <= self.rows,
                data@.len() == i * other.cols,
                forall|i2: int, j2: int|
                    0 <= i2 < i && 0 <= j2 < other.cols ==> data@[#[trigger] rm_index_spec(
                        other.cols as int,
                        i2,
                        j2,
                    )] == dot_spec(other.col_spec(j2), self.row_spec(i2)),
            decreases self.rows - i,
        {
            let row_i = self.row_vec(i);
            let mut row = other.vecmat(&row_i);
            proof {
                lemma_rm_distribute(other.cols as int, i as int);
                assert forall|i2: int, j2: int|
                    0 <= i2 < i + 1 && 0 <= j2 < other.cols implies (data@ + row@)[
                #[trigger] rm_index_spec(other.cols as int, i2, j2)] == dot_spec(
                    other.col_spec(j2),
                    self.row_spec(i2),
                ) by {
                    if i2 < i as int {
                        lemma_rm_index_mono(other.cols as int, i2, j2, i as int);
                    } else {
                        lemma_rm_index_in_row_block(other.cols as int, i2, j2);
                    }
                }
            }
            data.append(&mut row);
            i = i + 1;
        }
        let r = DenseMatrix::new(self.rows, other.cols, data);
        proof {
            assert forall|i: int, j: int|
                0 <= i < r.rows && 0 <= j < r.cols implies #[trigger] r.entry_spec(i, j)
                == dot_spec(smat_col(other.srows_spec(), j), self.srows_spec()[i]) by {
                assert(r.entry_spec(i, j) == r.data@[rm_index_spec(r.cols as int, i, j)]);
                assert(smat_col(other.srows_spec(), j) =~= other.col_spec(j));
            }
            assert forall|i: int|
                0 <= i < r.rows implies #[trigger] r.srows_spec()[i] == smat_mul(
                self.srows_spec(),
                other.srows_spec(),
                other.cols as int,
            )[i] by {
                let target = smat_mul(self.srows_spec(), other.srows_spec(), other.cols as int);
                assert forall|j: int| 0 <= j < other.cols implies r.row_spec(i)[j]
                    == target[i][j] by {
                    assert(r.entry_spec(i, j) == dot_spec(
                        smat_col(other.srows_spec(), j),
                        self.srows_spec()[i],
                    ));
                }
                assert(r.srows_spec()[i] =~= target[i]);
            }
            assert(r.srows_spec() =~= smat_mul(
                self.srows_spec(),
                other.srows_spec(),
                other.cols as int,
            ));
        }
        r
    }

    /// The outer product of two vectors.
    pub fn outer(u: &Vec<S>, v: &Vec<S>) -> (r: Self)
        ensures
            r.wf(),
            r.rows == u@.len(),
            r.cols == v@.len(),
            r.srows_spec() == smat_outer(u@, v@),
    {
        let rows = u.len();
        let cols = v.len();
        let mut data: Vec<S> = Vec::new();
        let mut i: usize = 0;
        while i < rows
            invariant
                rows == u@.len(),
                cols == v@.len(),
                i <= rows,
                data@.len() == i * cols,
                forall|i2: int, j2: int|
                    0 <= i2 < i && 0 <= j2 < cols ==> data@[#[trigger] rm_index_spec(
                        cols as int,
                        i2,
                        j2,
                    )] == v@[j2].mul_spec(u@[i2]),
            decreases rows - i,
        {
            let mut row = vec_scale(v, u[i]);
            proof {
                lemma_rm_distribute(cols as int, i as int);
                assert forall|i2: int, j2: int|
                    0 <= i2 < i + 1 && 0 <= j2 < cols implies (data@ + row@)[
                #[trigger] rm_index_spec(cols as int, i2, j2)] == v@[j2].mul_spec(u@[i2]) by {
                    if i2 < i as int {
                        lemma_rm_index_mono(cols as int, i2, j2, i as int);
                    } else {
                        lemma_rm_index_in_row_block(cols as int, i2, j2);
                    }
                }
            }
            data.append(&mut row);
            i = i + 1;
        }
        let r = DenseMatrix::new(rows, cols, data);
        proof {
            assert forall|i: int|
                0 <= i < r.rows implies #[trigger] r.srows_spec()[i] == smat_outer(u@, v@)[i] by {
                assert forall|j: int| 0 <= j < cols implies r.row_spec(i)[j] == seq_scale(
                    v@,
                    u@[i],
                )[j] by {
                    assert(r.entry_spec(i, j) == r.data@[rm_index_spec(cols as int, i, j)]);
                }
                assert(r.srows_spec()[i] =~= smat_outer(u@, v@)[i]);
            }
            assert(r.srows_spec() =~= smat_outer(u@, v@));
        }
        r
    }
}

/// The two matrix-vector product views agree: the row-major product
/// equals the row-sequence product.
pub proof fn lemma_matvec_srows<S: Scalar>(m: &DenseMatrix<S>, x: Seq<S>)
    ensures
        m.matvec_spec(x) == smat_matvec(m.srows_spec(), x),
{
    assert(m.matvec_spec(x) =~= smat_matvec(m.srows_spec(), x));
}

/// A matrix whose entries match a row-sequence matrix of the same width,
/// rowwise, equals it as a row sequence.
proof fn lemma_entrywise_srows<S: Scalar>(r: &DenseMatrix<S>, target: Seq<Seq<S>>, cols: int)
    requires
        r.wf(),
        r.cols == cols,
        target.len() == r.rows,
        forall|i: int| 0 <= i < target.len() ==> (#[trigger] target[i]).len() == cols,
        forall|i: int, j: int|
            0 <= i < r.rows && 0 <= j < cols ==> r.data@[#[trigger] rm_index_spec(cols, i, j)]
                == target[i][j],
    ensures
        r.srows_spec() == target,
{
    assert forall|i: int| 0 <= i < r.rows implies #[trigger] r.srows_spec()[i] == target[i] by {
        assert forall|j: int| 0 <= j < cols implies r.row_spec(i)[j] == target[i][j] by {
            assert(r.data@[rm_index_spec(cols, i, j)] == target[i][j]);
        }
        assert(r.srows_spec()[i] =~= target[i]);
    }
    assert(r.srows_spec() =~= target);
}

} // verus!
