//! Dense vector and matrix algebra over an abstract scalar.
//!
//! Vectors are plain `Vec<S>`; matrices are row-major [`DenseMatrix`].  Every
//! operation carries an exact elementwise contract phrased over the
//! specification twins of the scalar operations.

use vstd::prelude::*;

use crate::scalar::Scalar;

verus! {

/// Elementwise sum of two equally long sequences.
pub open spec fn seq_add<S: Scalar>(a: Seq<S>, b: Seq<S>) -> Seq<S> {
    Seq::new(a.len(), |i: int| a[i].add_spec(b[i]))
}

/// Elementwise difference of two equally long sequences.
pub open spec fn seq_sub<S: Scalar>(a: Seq<S>, b: Seq<S>) -> Seq<S> {
    Seq::new(a.len(), |i: int| a[i].sub_spec(b[i]))
}

/// Every element multiplied by `c`.
pub open spec fn seq_scale<S: Scalar>(a: Seq<S>, c: S) -> Seq<S> {
    Seq::new(a.len(), |i: int| a[i].mul_spec(c))
}

/// Every element divided by `c`.
pub open spec fn seq_div_scalar<S: Scalar>(a: Seq<S>, c: S) -> Seq<S> {
    Seq::new(a.len(), |i: int| a[i].div_spec(c))
}

/// `n` copies of the additive neutral element.
pub open spec fn seq_zero<S: Scalar>(n: nat) -> Seq<S> {
    Seq::new(n, |i: int| S::zero_spec())
}

/// The sum of a sequence of scalars, folded from the left exactly as the
/// executable loops accumulate it.
pub open spec fn sum_spec<S: Scalar>(s: Seq<S>) -> S
    decreases s.len(),
{
    if s.len() == 0 {
        S::zero_spec()
    } else {
        sum_spec(s.drop_last()).add_spec(s.last())
    }
}

/// Extending the summed prefix by one element adds that element on the
/// right.
pub proof fn lemma_sum_extend<S: Scalar>(s: Seq<S>, i: int)
    requires
        0 <= i < s.len(),
    ensures
        sum_spec(s.subrange(0, i + 1)) == sum_spec(s.subrange(0, i)).add_spec(s[i]),
{
    let s1 = s.subrange(0, i + 1);
    assert(s1.drop_last() =~= s.subrange(0, i));
}

/// The running minimum of a nonempty sequence under the scalar's strict
/// order, folded exactly as the executable loops fold it: a later element
/// replaces the minimum only when strictly below it.
pub open spec fn seq_min_spec<S: Scalar>(s: Seq<S>) -> S
    decreases s.len(),
{
    if s.len() <= 1 {
        s[0]
    } else {
        let m = seq_min_spec(s.drop_last());
        if s.last().lt_spec(m) {
            s.last()
        } else {
            m
        }
    }
}

/// Extending the folded prefix by one element keeps the fold shape.
pub proof fn lemma_seq_min_extend<S: Scalar>(s: Seq<S>, i: int)
    requires
        1 <= i < s.len(),
    ensures
        seq_min_spec(s.subrange(0, i + 1)) == (if s[i].lt_spec(seq_min_spec(s.subrange(0, i))) {
            s[i]
        } else {
            seq_min_spec(s.subrange(0, i))
        }),
{
    let s1 = s.subrange(0, i + 1);
    assert(s1.drop_last() =~= s.subrange(0, i));
}

/// No element of the sequence is strictly below the folded minimum.
pub proof fn lemma_seq_min_bound<S: Scalar>(s: Seq<S>)
    requires
        s.len() >= 1,
    ensures
        forall|i: int| 0 <= i < s.len() ==> !(#[trigger] s[i]).lt_spec(seq_min_spec(s)),
    decreases s.len(),
{
    if s.len() == 1 {
        S::lemma_lt_irrefl(s[0]);
    } else {
        let prefix = s.drop_last();
        lemma_seq_min_bound(prefix);
        let m = seq_min_spec(prefix);
        let whole = seq_min_spec(s);
        if s.last().lt_spec(m) {
            assert(whole == s.last());
            S::lemma_lt_irrefl(s.last());
            assert forall|i: int| 0 <= i < s.len() - 1 implies !(#[trigger] s[i]).lt_spec(
                whole,
            ) by {
                assert(s[i] == prefix[i]);
                S::lemma_lt_compat(s[i], m, s.last());
            }
        } else {
            assert(whole == m);
            assert forall|i: int| 0 <= i < s.len() implies !(#[trigger] s[i]).lt_spec(whole) by {
                if i < s.len() - 1 {
                    assert(s[i] == prefix[i]);
                }
            }
        }
    }
}

/// The minimum of a nonempty vector under the scalar's strict order.
pub fn vec_min<S: Scalar>(a: &Vec<S>) -> (r: S)
    requires
        a@.len() >= 1,
    ensures
        r == seq_min_spec(a@),
{
    let n = a.len();
    let mut min_value = a[0];
    let mut i: usize = 1;
    while i < n
        invariant
            n == a@.len(),
            1 <= i <= n,
            min_value == seq_min_spec(a@.subrange(0, i as int)),
        decreases n - i,
    {
        proof {
            lemma_seq_min_extend(a@, i as int);
        }
        if a[i].lt(min_value) {
            min_value = a[i];
        }
        i = i + 1;
    }
    assert(a@.subrange(0, n as int) =~= a@);
    min_value
}

/// A lower bound on every element is a lower bound on the folded minimum.
pub proof fn lemma_seq_min_lower_bound<S: Scalar>(s: Seq<S>, c: S)
    requires
        s.len() >= 1,
        forall|i: int| 0 <= i < s.len() ==> !(#[trigger] s[i]).lt_spec(c),
    ensures
        !seq_min_spec(s).lt_spec(c),
    decreases s.len(),
{
    if s.len() > 1 {
        let prefix = s.drop_last();
        assert forall|i: int| 0 <= i < prefix.len() implies !(#[trigger] prefix[i]).lt_spec(
            c,
        ) by {
            assert(prefix[i] == s[i]);
        }
        lemma_seq_min_lower_bound(prefix, c);
    }
}

/// A flat row-major position splits into its row and column.
pub proof fn lemma_flat_index_decompose(idx: int, rows: int, cols: int)
    requires
        cols >= 1,
        0 <= idx < rows * cols,
    ensures
        0 <= idx / cols < rows,
        0 <= idx % cols < cols,
        idx == (idx / cols) * cols + (idx % cols),
{
    vstd::arithmetic::div_mod::lemma_fundamental_div_mod(idx, cols);
    vstd::arithmetic::div_mod::lemma_mod_bound(idx, cols);
    let q = idx / cols;
    let r = idx % cols;
    assert(cols * q == q * cols) by (nonlinear_arith);
    assert(0 <= q && q < rows) by (nonlinear_arith)
        requires
            idx == cols * q + r,
            0 <= r < cols,
            0 <= idx < rows * cols,
            cols >= 1,
    {
    }
}

/// The inner product, folded from the left exactly as the executable loop
/// accumulates it.
pub open spec fn dot_spec<S: Scalar>(a: Seq<S>, b: Seq<S>) -> S
    decreases a.len(),
{
    if a.len() == 0 || b.len() == 0 {
        S::zero_spec()
    } else {
        dot_spec(a.drop_last(), b.drop_last()).add_spec(a.last().mul_spec(b.last()))
    }
}

proof fn lemma_dot_extend<S: Scalar>(a: Seq<S>, b: Seq<S>, i: int)
    requires
        0 <= i < a.len(),
        i < b.len(),
    ensures
        dot_spec(a.subrange(0, i + 1), b.subrange(0, i + 1)) == dot_spec(
            a.subrange(0, i),
            b.subrange(0, i),
        ).add_spec(a[i].mul_spec(b[i])),
{
    let a1 = a.subrange(0, i + 1);
    let b1 = b.subrange(0, i + 1);
    assert(a1.drop_last() =~= a.subrange(0, i));
    assert(b1.drop_last() =~= b.subrange(0, i));
}

/// The inner product with a sequence of zeros is zero.
pub proof fn lemma_dot_zero_right<S: Scalar>(a: Seq<S>, b: Seq<S>)
    requires
        a.len() == b.len(),
        forall|i: int| 0 <= i < b.len() ==> b[i] == S::zero_spec(),
    ensures
        dot_spec(a, b) == S::zero_spec(),
    decreases a.len(),
{
    if a.len() == 0 {
    } else {
        lemma_dot_zero_right(a.drop_last(), b.drop_last());
        S::lemma_mul_zero(a.last());
        S::lemma_add_zero(S::zero_spec());
    }
}

/// Elementwise sum; the contract pins every element.
pub fn vec_add<S: Scalar>(a: &Vec<S>, b: &Vec<S>) -> (r: Vec<S>)
    requires
        a@.len() == b@.len(),
    ensures
        r@ == seq_add(a@, b@),
{
    let n = a.len();
    let mut out: Vec<S> = Vec::new();
    let mut i: usize = 0;
    while i < n
        invariant
            n == a@.len() == b@.len(),
            i <= n,
            out@.len() == i,
            forall|k: int| 0 <= k < i ==> out@[k] == a@[k].add_spec(b@[k]),
        decreases n - i,
    {
        out.push(a[i].add(b[i]));
        i = i + 1;
    }
    assert(out@ =~= seq_add(a@, b@));
    out
}

/// Elementwise difference.
pub fn vec_sub<S: Scalar>(a: &Vec<S>, b: &Vec<S>) -> (r: Vec<S>)
    requires
        a@.len() == b@.len(),
    ensures
        r@ == seq_sub(a@, b@),
{
    let n = a.len();
    let mut out: Vec<S> = Vec::new();
    let mut i: usize = 0;
    while i < n
        invariant
            n == a@.len() == b@.len(),
            i <= n,
            out@.len() == i,
            forall|k: int| 0 <= k < i ==> out@[k] == a@[k].sub_spec(b@[k]),
        decreases n - i,
    {
        out.push(a[i].sub(b[i]));
        i = i + 1;
    }
    assert(out@ =~= seq_sub(a@, b@));
    out
}

/// Every element multiplied by `c`.
pub fn vec_scale<S: Scalar>(a: &Vec<S>, c: S) -> (r: Vec<S>)
    ensures
        r@ == seq_scale(a@, c),
{
    let n = a.len();
    let mut out: Vec<S> = Vec::new();
    let mut i: usize = 0;
    while i < n
        invariant
            n == a@.len(),
            i <= n,
            out@.len() == i,
            forall|k: int| 0 <= k < i ==> out@[k] == a@[k].mul_spec(c),
        decreases n - i,
    {
        out.push(a[i].mul(c));
        i = i + 1;
    }
    assert(out@ =~= seq_scale(a@, c));
    out
}

/// Every element divided by `c`.
pub fn vec_div_scalar<S: Scalar>(a: &Vec<S>, c: S) -> (r: Vec<S>)
    ensures
        r@ == seq_div_scalar(a@, c),
{
    let n = a.len();
    let mut out: Vec<S> = Vec::new();
    let mut i: usize = 0;
    while i < n
        invariant
            n == a@.len(),
            i <= n,
            out@.len() == i,
            forall|k: int| 0 <= k < i ==> out@[k] == a@[k].div_spec(c),
        decreases n - i,
    {
        out.push(a[i].div(c));
        i = i + 1;
    }
    assert(out@ =~= seq_div_scalar(a@, c));
    out
}

/// A vector of `n` zeros.
pub fn vec_zeros<S: Scalar>(n: usize) -> (r: Vec<S>)
    ensures
        r@ == seq_zero::<S>(n as nat),
{
    let mut out: Vec<S> = Vec::new();
    let mut i: usize = 0;
    while i < n
        invariant
            i <= n,
            out@.len() == i,
            forall|k: int| 0 <= k < i ==> out@[k] == S::zero_spec(),
        decreases n - i,
    {
        out.push(S::zero());
        i = i + 1;
    }
    assert(out@ =~= seq_zero::<S>(n as nat));
    out
}

/// An elementwise copy; exact because the scalar is `Copy`.
pub fn vec_copy<S: Copy>(a: &Vec<S>) -> (r: Vec<S>)
    ensures
        r@ == a@,
{
    let n = a.len();
    let mut out: Vec<S> = Vec::new();
    let mut i: usize = 0;
    while i < n
        invariant
            n == a@.len(),
            i <= n,
            out@.len() == i,
            forall|k: int| 0 <= k < i ==> out@[k] == a@[k],
        decreases n - i,
    {
        out.push(a[i]);
        i = i + 1;
    }
    assert(out@ =~= a@);
    out
}

/// A copy of the window `[start, end)` of a vector.
pub fn vec_slice<S: Copy>(a: &Vec<S>, start: usize, end: usize) -> (r: Vec<S>)
    requires
        start <= end,
        end <= a@.len(),
    ensures
        r@ == a@.subrange(start as int, end as int),
{
    let mut out: Vec<S> = Vec::new();
    let mut i: usize = start;
    while i < end
        invariant
            start <= i <= end,
            end <= a@.len(),
            out@.len() == i - start,
            forall|k: int| 0 <= k < i - start ==> out@[k] == a@[k + start],
        decreases end - i,
    {
        out.push(a[i]);
        i = i + 1;
    }
    assert(out@ =~= a@.subrange(start as int, end as int));
    out
}

/// The inner product of two equally long vectors.
pub fn vec_dot<S: Scalar>(a: &Vec<S>, b: &Vec<S>) -> (r: S)
    requires
        a@.len() == b@.len(),
    ensures
        r == dot_spec(a@, b@),
{
    let n = a.len();
    let mut acc = S::zero();
    let mut i: usize = 0;
    while i < n
        invariant
            n == a@.len() == b@.len(),
            i <= n,
            acc == dot_spec(a@.subrange(0, i as int), b@.subrange(0, i as int)),
        decreases n - i,
    {
        proof {
            lemma_dot_extend(a@, b@, i as int);
        }
        acc = acc.add(a[i].mul(b[i]));
        i = i + 1;
    }
    assert(a@.subrange(0, n as int) =~= a@);
    assert(b@.subrange(0, n as int) =~= b@);
    acc
}

/// Row `i` of a row-major `rows`-by-`cols` data block.
pub open spec fn row_data_spec<S: Scalar>(data: Seq<S>, cols: int, i: int) -> Seq<S> {
    Seq::new(cols as nat, |j: int| data[i * cols + j])
}

/// Column `j` of a row-major `rows`-by-`cols` data block.
pub open spec fn col_data_spec<S: Scalar>(data: Seq<S>, rows: int, cols: int, j: int) -> Seq<S> {
    Seq::new(rows as nat, |i: int| data[i * cols + j])
}

/// The matrix-vector product of a row-major data block with `x`.
pub open spec fn matvec_data_spec<S: Scalar>(data: Seq<S>, rows: int, cols: int, x: Seq<S>) -> Seq<
    S,
> {
    Seq::new(rows as nat, |i: int| dot_spec(row_data_spec(data, cols, i), x))
}

/// The vector-matrix product `x^T * m` of a row-major data block with `x`.
pub open spec fn vecmat_data_spec<S: Scalar>(data: Seq<S>, rows: int, cols: int, x: Seq<S>) -> Seq<
    S,
> {
    Seq::new(cols as nat, |j: int| dot_spec(col_data_spec(data, rows, cols, j), x))
}

/// A dense row-major matrix over the abstract scalar.
#[derive(Clone)]
pub struct DenseMatrix<S> {
    pub rows: usize,
    pub cols: usize,
    pub data: Vec<S>,
}

impl<S: Scalar> DenseMatrix<S> {
    /// Shape consistency: the backing vector holds exactly `rows * cols`
    /// entries.
    pub open spec fn wf(&self) -> bool {
        self.data@.len() == self.rows * self.cols
    }

    /// The entry in row `i`, column `j`.
    pub open spec fn entry_spec(&self, i: int, j: int) -> S {
        self.data@[i * self.cols + j]
    }

    /// Row `i` as a sequence.
    pub open spec fn row_spec(&self, i: int) -> Seq<S> {
        row_data_spec(self.data@, self.cols as int, i)
    }

    /// Column `j` as a sequence.
    pub open spec fn col_spec(&self, j: int) -> Seq<S> {
        col_data_spec(self.data@, self.rows as int, self.cols as int, j)
    }

    /// What `matvec` returns.
    pub open spec fn matvec_spec(&self, x: Seq<S>) -> Seq<S> {
        matvec_data_spec(self.data@, self.rows as int, self.cols as int, x)
    }

    /// What `vecmat` returns.
    pub open spec fn vecmat_spec(&self, x: Seq<S>) -> Seq<S> {
        vecmat_data_spec(self.data@, self.rows as int, self.cols as int, x)
    }

    /// Wraps a row-major backing vector.
    pub fn new(rows: usize, cols: usize, data: Vec<S>) -> (r: Self)
        requires
            data@.len() == rows * cols,
        ensures
            r.wf(),
            r.rows == rows,
            r.cols == cols,
            r.data == data,
    {
        DenseMatrix { rows, cols, data }
    }

    /// The all-zero matrix of the given shape.
    pub fn zeros(rows: usize, cols: usize) -> (r: Self)
        requires
            rows * cols <= usize::MAX,
        ensures
            r.wf(),
            r.rows == rows,
            r.cols == cols,
            forall|i: int, j: int|
                0 <= i < rows && 0 <= j < cols ==> r.entry_spec(i, j) == S::zero_spec(),
    {
        let n = rows * cols;
        let data = vec_zeros::<S>(n);
        let r = DenseMatrix { rows, cols, data };
        proof {
            assert forall|i: int, j: int|
                0 <= i < rows && 0 <= j < cols implies r.entry_spec(i, j) == S::zero_spec() by {
                lemma_row_major_index(i, j, rows as int, cols as int);
            }
        }
        r
    }

    /// Reads one entry.
    pub fn get(&self, i: usize, j: usize) -> (r: S)
        requires
            self.wf(),
            i < self.rows,
            j < self.cols,
        ensures
            r == self.entry_spec(i as int, j as int),
    {
        let n = self.data.len();
        proof {
            lemma_row_major_index(i as int, j as int, self.rows as int, self.cols as int);
        }
        let idx = i * self.cols + j;
        self.data[idx]
    }

    /// Overwrites one entry, leaving every other entry as it was.
    pub fn set(&mut self, i: usize, j: usize, v: S)
        requires
            old(self).wf(),
            i < old(self).rows,
            j < old(self).cols,
        ensures
            final(self).wf(),
            final(self).rows == old(self).rows,
            final(self).cols == old(self).cols,
            final(self).entry_spec(i as int, j as int) == v,
            forall|i2: int, j2: int|
                0 <= i2 < old(self).rows && 0 <= j2 < old(self).cols && !(i2 == i as int && j2
                    == j as int) ==> final(self).entry_spec(i2, j2) == old(self).entry_spec(i2, j2),
    {
        let n = self.data.len();
        proof {
            lemma_row_major_index(i as int, j as int, self.rows as int, self.cols as int);
        }
        let idx = i * self.cols + j;
        self.data.set(idx, v);
        proof {
            assert forall|i2: int, j2: int|
                0 <= i2 < self.rows && 0 <= j2 < self.cols && !(i2 == i as int && j2
                    == j as int) implies self.entry_spec(i2, j2) == old(self).entry_spec(
                i2,
                j2,
            ) by {
                lemma_row_major_index(i2, j2, self.rows as int, self.cols as int);
                lemma_row_major_distinct(i2, j2, i as int, j as int, self.cols as int);
            }
        }
    }

    /// The matrix-vector product `self * x`.
    pub fn matvec(&self, x: &Vec<S>) -> (r: Vec<S>)
        requires
            self.wf(),
            x@.len() == self.cols,
        ensures
            r@ == self.matvec_spec(x@),
            r@.len() == self.rows,
    {
        let mut out: Vec<S> = Vec::new();
        let mut i: usize = 0;
        while i < self.rows
            invariant
                self.wf(),
                x@.len() == self.cols,
                i <= self.rows,
                out@.len() == i,
                forall|k: int| 0 <= k < i ==> out@[k] == dot_spec(#[trigger] self.row_spec(k), x@),
            decreases self.rows - i,
        {
            let row = self.row_vec(i);
            out.push(vec_dot(&row, x));
            i = i + 1;
        }
        proof {
            assert(self.matvec_spec(x@).len() == self.rows);
            assert forall|k: int| 0 <= k < self.rows implies out@[k] == self.matvec_spec(x@)[k] by {
                assert(out@[k] == dot_spec(self.row_spec(k), x@));
            }
            assert(out@ =~= self.matvec_spec(x@));
        }
        out
    }

    /// The vector-matrix product `x^T * self`, i.e. the image of `x` under
    /// the transpose.
    pub fn vecmat(&self, x: &Vec<S>) -> (r: Vec<S>)
        requires
            self.wf(),
            x@.len() == self.rows,
        ensures
            r@ == self.vecmat_spec(x@),
            r@.len() == self.cols,
    {
        let mut out: Vec<S> = Vec::new();
        let mut j: usize = 0;
        while j < self.cols
            invariant
                self.wf(),
                x@.len() == self.rows,
                j <= self.cols,
                out@.len() == j,
                forall|k: int| 0 <= k < j ==> out@[k] == dot_spec(#[trigger] self.col_spec(k), x@),
            decreases self.cols - j,
        {
            let col = self.col_vec(j);
            out.push(vec_dot(&col, x));
            j = j + 1;
        }
        proof {
            assert(self.vecmat_spec(x@).len() == self.cols);
            assert forall|k: int| 0 <= k < self.cols implies out@[k] == self.vecmat_spec(x@)[k] by {
                assert(out@[k] == dot_spec(self.col_spec(k), x@));
            }
            assert(out@ =~= self.vecmat_spec(x@));
        }
        out
    }

    /// Row `i` copied out as a vector.
    pub fn row_vec(&self, i: usize) -> (r: Vec<S>)
        requires
            self.wf(),
            i < self.rows,
        ensures
            r@ == self.row_spec(i as int),
    {
        let mut out: Vec<S> = Vec::new();
        let mut j: usize = 0;
        while j < self.cols
            invariant
                self.wf(),
                i < self.rows,
                j <= self.cols,
                out@.len() == j,
                forall|k: int| 0 <= k < j ==> out@[k] == self.entry_spec(i as int, k),
            decreases self.cols - j,
        {
            out.push(self.get(i, j));
            j = j + 1;
        }
        proof {
            assert(self.row_spec(i as int).len() == self.cols);
            assert forall|k: int| 0 <= k < self.cols implies out@[k] == self.row_spec(
                i as int,
            )[k] by {
                assert(out@[k] == self.entry_spec(i as int, k));
            }
            assert(out@ =~= self.row_spec(i as int));
        }
        out
    }

    /// Column `j` copied out as a vector.
    pub fn col_vec(&self, j: usize) -> (r: Vec<S>)
        requires
            self.wf(),
            j < self.cols,
        ensures
            r@ == self.col_spec(j as int),
    {
        let mut out: Vec<S> = Vec::new();
        let mut i: usize = 0;
        while i < self.rows
            invariant
                self.wf(),
                j < self.cols,
                i <= self.rows,
                out@.len() == i,
                forall|k: int| 0 <= k < i ==> out@[k] == self.entry_spec(k, j as int),
            decreases self.rows - i,
        {
            out.push(self.get(i, j));
            i = i + 1;
        }
        proof {
            assert(self.col_spec(j as int).len() == self.rows);
            assert forall|k: int| 0 <= k < self.rows implies out@[k] == self.col_spec(
                j as int,
            )[k] by {
                assert(out@[k] == self.entry_spec(k, j as int));
            }
            assert(out@ =~= self.col_spec(j as int));
        }
        out
    }
}

impl<S: Scalar> DenseMatrix<S> {
    /// A copy whose shape and entries provably equal this matrix's
    /// (`Clone` says nothing to the verifier).
    pub fn duplicate(&self) -> (r: Self)
        ensures
            r.rows == self.rows,
            r.cols == self.cols,
            r.data@ == self.data@,
    {
        DenseMatrix { rows: self.rows, cols: self.cols, data: vec_copy(&self.data) }
    }

    /// The smallest entry of a nonempty matrix, folded in row-major order.
    pub fn min_entry(&self) -> (r: S)
        requires
            self.wf(),
            self.rows >= 1,
            self.cols >= 1,
        ensures
            r == seq_min_spec(self.data@),
            forall|i: int, j: int|
                0 <= i < self.rows && 0 <= j < self.cols ==> !(#[trigger] self.entry_spec(
                    i,
                    j,
                )).lt_spec(r),
    {
        proof {
            lemma_row_major_index(0, 0, self.rows as int, self.cols as int);
        }
        let r = vec_min(&self.data);
        proof {
            lemma_seq_min_bound(self.data@);
            assert forall|i: int, j: int|
                0 <= i < self.rows && 0 <= j < self.cols implies !(#[trigger] self.entry_spec(
                i,
                j,
            )).lt_spec(r) by {
                lemma_row_major_index(i, j, self.rows as int, self.cols as int);
            }
        }
        r
    }

    /// A lower bound on every entry is a lower bound on the row-major
    /// fold of the whole matrix.
    pub proof fn lemma_min_entry_lower_bound(&self, c: S)
        requires
            self.wf(),
            self.rows >= 1,
            self.cols >= 1,
            forall|i: int, j: int|
                0 <= i < self.rows && 0 <= j < self.cols ==> !(#[trigger] self.entry_spec(
                    i,
                    j,
                )).lt_spec(c),
        ensures
            !seq_min_spec(self.data@).lt_spec(c),
    {
        assert(self.rows * self.cols >= 1) by (nonlinear_arith)
            requires
                self.rows >= 1,
                self.cols >= 1,
        {
        }
        assert forall|idx: int| 0 <= idx < self.data@.len() implies !(
        #[trigger] self.data@[idx]).lt_spec(c) by {
            lemma_flat_index_decompose(idx, self.rows as int, self.cols as int);
            let i = idx / (self.cols as int);
            let j = idx % (self.cols as int);
            assert(self.data@[idx] == self.entry_spec(i, j));
        }
        lemma_seq_min_lower_bound(self.data@, c);
    }

    /// The smallest entry of one row of a nonempty-width matrix.
    pub fn row_min(&self, i: usize) -> (r: S)
        requires
            self.wf(),
            i < self.rows,
            self.cols >= 1,
        ensures
            r == seq_min_spec(self.row_spec(i as int)),
            forall|j: int| 0 <= j < self.cols ==> !(#[trigger] self.entry_spec(i as int, j)).lt_spec(
                r,
            ),
    {
        let row = self.row_vec(i);
        let r = vec_min(&row);
        proof {
            lemma_seq_min_bound(row@);
            assert forall|j: int| 0 <= j < self.cols implies !(#[trigger] self.entry_spec(
                i as int,
                j,
            )).lt_spec(r) by {
                assert(row@[j] == self.entry_spec(i as int, j));
            }
        }
        r
    }
}

/// For `i < rows` and `j < cols`, the row-major index stays inside the
/// backing vector.
proof fn lemma_row_major_index(i: int, j: int, rows: int, cols: int)
    requires
        0 <= i < rows,
        0 <= j < cols,
    ensures
        0 <= i * cols + j,
        i * cols + j < rows * cols,
{
    assert(0 <= i * cols + j && i * cols + j < rows * cols) by (nonlinear_arith)
        requires
            0 <= i < rows,
            0 <= j < cols,
    {
    }
}

/// Distinct coordinates have distinct row-major indices.
proof fn lemma_row_major_distinct(i1: int, j1: int, i2: int, j2: int, cols: int)
    requires
        0 <= j1 < cols,
        0 <= j2 < cols,
        0 <= i1,
        0 <= i2,
        !(i1 == i2 && j1 == j2),
    ensures
        i1 * cols + j1 != i2 * cols + j2,
{
    assert(i1 * cols + j1 != i2 * cols + j2) by (nonlinear_arith)
        requires
            0 <= j1 < cols,
            0 <= j2 < cols,
            0 <= i1,
            0 <= i2,
            !(i1 == i2 && j1 == j2),
    {
    }
}

} // verus!
