//! The flat-backed matrix container and its element-wise arithmetic.
//!
//! A [`VecMatrix`] wraps a flat `Vec` of elements together with a stored
//! `row_len` attribute.  The derived extent is `column_len = len / row_len`
//! (integer division, truncating).  The cell at `(i, j)` lives at flat index
//! `i * column_len + j`; every accessor uses exactly this mapping.

use vstd::prelude::*;

verus! {

/// Length of the derived extent: total element count divided by the stored
/// row length, truncating when the division is not exact.
pub open spec fn spec_column_len(len: int, row_len: int) -> int {
    len / row_len
}

/// Row-major mapping from a cell address to the flat backing index.
pub open spec fn flat_index(i: int, j: int, column_len: int) -> int {
    i * column_len + j
}

/// Shape-aware operations shared by matrix containers.
pub trait Matrix<Inner>: Sized {
    /// The flat row-major element sequence of the container.
    spec fn elems(&self) -> Seq<Inner>;

    /// The stored row-length attribute.
    spec fn spec_row_len(&self) -> usize;

    /// Get the row length.
    fn row_len(&self) -> (r: usize)
        ensures
            r == self.spec_row_len(),
    ;

    /// Get the column length, derived by truncating integer division.
    fn column_len(&self) -> (r: usize)
        requires
            self.spec_row_len() > 0,
        ensures
            r == spec_column_len(self.elems().len() as int, self.spec_row_len() as int),
    ;

    /// Swaps two elements in a matrix.  Each address is mapped through the
    /// row-major formula; both resulting flat indices must be in bounds.
    fn swap(&mut self, a: (usize, usize), b: (usize, usize))
        requires
            old(self).spec_row_len() > 0,
            flat_index(
                a.0 as int,
                a.1 as int,
                spec_column_len(old(self).elems().len() as int, old(self).spec_row_len() as int),
            ) < old(self).elems().len(),
            flat_index(
                b.0 as int,
                b.1 as int,
                spec_column_len(old(self).elems().len() as int, old(self).spec_row_len() as int),
            ) < old(self).elems().len(),
        ensures
            final(self).spec_row_len() == old(self).spec_row_len(),
            ({
                let cols = spec_column_len(
                    old(self).elems().len() as int,
                    old(self).spec_row_len() as int,
                );
                let fa = flat_index(a.0 as int, a.1 as int, cols);
                let fb = flat_index(b.0 as int, b.1 as int, cols);
                final(self).elems() == old(self).elems().update(fa, old(self).elems()[fb]).update(
                    fb,
                    old(self).elems()[fa],
                )
            }),
    ;
}

/// Any cell address accepted by indexed access maps to a flat position inside
/// the backing sequence: with `cols == len / row_len`, indices `i < row_len`
/// and `j < cols` give `i * cols + j < len`.
pub proof fn lemma_flat_index_in_bounds(len: int, row_len: int, i: int, j: int)
    requires
        0 <= len,
        0 < row_len,
        0 <= i < row_len,
        0 <= j < spec_column_len(len, row_len),
    ensures
        0 <= flat_index(i, j, spec_column_len(len, row_len)) < len,
{
    let cols = spec_column_len(len, row_len);
    vstd::arithmetic::mul::lemma_mul_nonnegative(i, cols);
    vstd::arithmetic::div_mod::lemma_fundamental_div_mod(len, row_len);
    vstd::arithmetic::div_mod::lemma_mod_bound(len, row_len);
    assert(row_len * cols <= len);
    vstd::arithmetic::mul::lemma_mul_inequality(i + 1, row_len, cols);
    vstd::arithmetic::mul::lemma_mul_is_distributive_add_other_way(cols, i, 1);
    assert((i + 1) * cols == i * cols + 1 * cols);
}

/// Two matrices are the same matrix when both their element sequences and
/// their stored row lengths agree; equal elements alone are not enough, since
/// a different row length gives the same data another shape.
pub open spec fn matrix_eq<T>(a: VecMatrix<T>, b: VecMatrix<T>) -> bool {
    a@ == b@ && a.spec_row_len() == b.spec_row_len()
}

/// Relies on the standard slice `swap` (reached through `Vec`'s `DerefMut`):
/// it exchanges the elements at the two given positions and leaves every
/// other element unchanged.  Out-of-bounds positions would panic, so they are
/// excluded here.
#[verifier::external_body]
fn vec_swap<T>(v: &mut Vec<T>, a: usize, b: usize)
    requires
        a < old(v)@.len(),
        b < old(v)@.len(),
    ensures
        final(v)@ == old(v)@.update(a as int, old(v)@[b as int]).update(
            b as int,
            old(v)@[a as int],
        ),
{
    v.swap(a, b)
}

/// A matrix backed by a flat `Vec` in row-major order.
///
/// `row_len` is stored verbatim; nothing checks that it divides the element
/// count, so a non-dividing value silently truncates the derived extent.
#[derive(PartialEq, Eq, Debug)]
pub struct VecMatrix<T> {
    inner: Vec<T>,
    row_len: usize,
}

impl<T> View for VecMatrix<T> {
    type V = Seq<T>;

    closed spec fn view(&self) -> Seq<T> {
        self.inner@
    }
}

/// Conversion of a borrowed sequence into an owned matrix.
pub trait IntoVecMatrix: Sized {
    type Item;

    /// The element sequence that the conversion copies.
    spec fn seq_of(self) -> Seq<Self::Item>;

    /// Copies the elements into a fresh matrix with the given row length.
    fn into_vec_matrix(self, row_len: usize) -> (m: VecMatrix<Self::Item>)
        ensures
            m@ == self.seq_of(),
            m.spec_row_len() == row_len,
    ;
}

impl<T: Copy> IntoVecMatrix for &[T] {
    type Item = T;

    open spec fn seq_of(self) -> Seq<T> {
        self@
    }

    fn into_vec_matrix(self, row_len: usize) -> (m: VecMatrix<T>) {
        VecMatrix { inner: vstd::slice::slice_to_vec(self), row_len }
    }
}

impl<T> VecMatrix<T> {
    /// Wraps an existing vector and a row length; no copy, no validation.
    pub fn from_vec<U>(inner: Vec<T>, row_len: usize) -> (m: VecMatrix<T>)
        ensures
            m@ == inner@,
            m.spec_row_len() == row_len,
    {
        VecMatrix { inner, row_len }
    }

    /// Copies a borrowed slice into a fresh matrix with the given row length.
    pub fn from_slice<U: Copy>(s: &[U], row_len: usize) -> (m: VecMatrix<U>)
        ensures
            m@ == s@,
            m.spec_row_len() == row_len,
    {
        VecMatrix { inner: vstd::slice::slice_to_vec(s), row_len }
    }

    /// Number of elements in the flat backing sequence.
    pub fn len(&self) -> (n: usize)
        ensures
            n == self@.len(),
    {
        self.inner.len()
    }

    /// Bounds-checked read access to the cell at `(i, j)`, mapped through the
    /// row-major formula.
    pub fn get(&self, i: usize, j: usize) -> (r: &T)
        requires
            self.spec_row_len() > 0,
            i < self.spec_row_len(),
            j < spec_column_len(self@.len() as int, self.spec_row_len() as int),
        ensures
            *r == self@[flat_index(
                i as int,
                j as int,
                spec_column_len(self@.len() as int, self.spec_row_len() as int),
            )],
    {
        let cols = self.column_len();
        proof {
            // the backing length is a usize, so the flat index fits one too
            assert(self.inner.len() == self.inner@.len());
            lemma_flat_index_in_bounds(
                self@.len() as int,
                self.spec_row_len() as int,
                i as int,
                j as int,
            );
        }
        &self.inner[i * cols + j]
    }

    /// Bounds-checked write access to the cell at `(i, j)`, mapped through
    /// the row-major formula.
    pub fn set(&mut self, i: usize, j: usize, v: T)
        requires
            old(self).spec_row_len() > 0,
            i < old(self).spec_row_len(),
            j < spec_column_len(old(self)@.len() as int, old(self).spec_row_len() as int),
        ensures
            final(self).spec_row_len() == old(self).spec_row_len(),
            final(self)@ == old(self)@.update(
                flat_index(
                    i as int,
                    j as int,
                    spec_column_len(old(self)@.len() as int, old(self).spec_row_len() as int),
                ),
                v,
            ),
    {
        let cols = self.column_len();
        proof {
            // the backing length is a usize, so the flat index fits one too
            assert(self.inner.len() == self.inner@.len());
            lemma_flat_index_in_bounds(
                self@.len() as int,
                self.spec_row_len() as int,
                i as int,
                j as int,
            );
        }
        self.inner[i * cols + j] = v;
    }

    /// Consumes the matrix and hands back its flat backing vector, in order.
    pub fn into_inner(self) -> (v: Vec<T>)
        ensures
            v@ == self@,
    {
        self.inner
    }
}

impl<T> Matrix<T> for VecMatrix<T> {
    closed spec fn elems(&self) -> Seq<T> {
        self.inner@
    }

    closed spec fn spec_row_len(&self) -> usize {
        self.row_len
    }

    fn row_len(&self) -> (r: usize) {
        self.row_len
    }

    fn column_len(&self) -> (r: usize) {
        self.inner.len() / self.row_len
    }

    fn swap(&mut self, a: (usize, usize), b: (usize, usize)) {
        let cols = self.column_len();
        proof {
            // the backing length is a usize, so both flat indices fit one too
            assert(self.inner.len() == self.inner@.len());
            vstd::arithmetic::mul::lemma_mul_nonnegative(a.0 as int, cols as int);
            vstd::arithmetic::mul::lemma_mul_nonnegative(b.0 as int, cols as int);
        }
        vec_swap(&mut self.inner, a.0 * cols + a.1, b.0 * cols + b.1);
    }
}

/// Shorter of the two operand lengths; pairwise operators stop there.
pub open spec fn zip_len<T>(a: Seq<T>, b: Seq<T>) -> nat {
    if a.len() <= b.len() {
        a.len()
    } else {
        b.len()
    }
}

/// Pairwise sum of co-located elements, truncated to the shorter operand.
pub open spec fn elemwise_add(a: Seq<i64>, b: Seq<i64>) -> Seq<i64> {
    Seq::new(zip_len(a, b), |k: int| (a[k] + b[k]) as i64)
}

/// Pairwise difference of co-located elements, truncated to the shorter operand.
pub open spec fn elemwise_sub(a: Seq<i64>, b: Seq<i64>) -> Seq<i64> {
    Seq::new(zip_len(a, b), |k: int| (a[k] - b[k]) as i64)
}

/// Pairwise (Hadamard) product of co-located elements, truncated to the
/// shorter operand.
pub open spec fn elemwise_mul(a: Seq<i64>, b: Seq<i64>) -> Seq<i64> {
    Seq::new(zip_len(a, b), |k: int| (a[k] * b[k]) as i64)
}

/// What a compound assignment leaves behind: the prefix shared with `b` is
/// combined pairwise, the rest of `a` stays unchanged.
pub open spec fn compound_add(a: Seq<i64>, b: Seq<i64>) -> Seq<i64> {
    Seq::new(a.len(), |k: int| if k < b.len() { (a[k] + b[k]) as i64 } else { a[k] })
}

/// Compound-assignment counterpart of `elemwise_sub`; see `compound_add`.
pub open spec fn compound_sub(a: Seq<i64>, b: Seq<i64>) -> Seq<i64> {
    Seq::new(a.len(), |k: int| if k < b.len() { (a[k] - b[k]) as i64 } else { a[k] })
}

/// Compound-assignment counterpart of `elemwise_mul`; see `compound_add`.
pub open spec fn compound_mul(a: Seq<i64>, b: Seq<i64>) -> Seq<i64> {
    Seq::new(a.len(), |k: int| if k < b.len() { (a[k] * b[k]) as i64 } else { a[k] })
}

/// Every element shifted up by the scalar.
pub open spec fn scalar_add(a: Seq<i64>, v: i64) -> Seq<i64> {
    Seq::new(a.len(), |k: int| (a[k] + v) as i64)
}

/// Every element shifted down by the scalar.
pub open spec fn scalar_sub(a: Seq<i64>, v: i64) -> Seq<i64> {
    Seq::new(a.len(), |k: int| (a[k] - v) as i64)
}

/// Every element scaled by the scalar.
pub open spec fn scalar_mul(a: Seq<i64>, v: i64) -> Seq<i64> {
    Seq::new(a.len(), |k: int| (a[k] * v) as i64)
}

/// Rust's truncating signed division (rounds toward zero), expressed with
/// the euclidean `/` of specifications.
pub open spec fn trunc_div(a: i64, b: i64) -> i64 {
    (if a >= 0 {
        a as int / b as int
    } else {
        -((-(a as int)) / (b as int))
    }) as i64
}

/// Rust's signed remainder (same sign as the dividend), expressed with the
/// euclidean `%` of specifications.
pub open spec fn trunc_rem(a: i64, b: i64) -> i64 {
    (if a >= 0 {
        a as int % b as int
    } else {
        -((-(a as int)) % (b as int))
    }) as i64
}

/// Every element divided by the scalar, truncating toward zero.
pub open spec fn scalar_div(a: Seq<i64>, v: i64) -> Seq<i64> {
    Seq::new(a.len(), |k: int| trunc_div(a[k], v))
}

/// The remainder of every element by the scalar.
pub open spec fn scalar_rem(a: Seq<i64>, v: i64) -> Seq<i64> {
    Seq::new(a.len(), |k: int| trunc_rem(a[k], v))
}

/// No pairwise sum overflows the element type on the combined prefix.
pub open spec fn add_in_range(a: Seq<i64>, b: Seq<i64>) -> bool {
    forall|k: int| #![trigger a[k]] 0 <= k < zip_len(a, b) ==> i64::MIN <= a[k] + b[k] <= i64::MAX
}

/// No pairwise difference overflows the element type on the combined prefix.
pub open spec fn sub_in_range(a: Seq<i64>, b: Seq<i64>) -> bool {
    forall|k: int| #![trigger a[k]] 0 <= k < zip_len(a, b) ==> i64::MIN <= a[k] - b[k] <= i64::MAX
}

/// No pairwise product overflows the element type on the combined prefix.
pub open spec fn mul_in_range(a: Seq<i64>, b: Seq<i64>) -> bool {
    forall|k: int| #![trigger a[k]] 0 <= k < zip_len(a, b) ==> i64::MIN <= a[k] * b[k] <= i64::MAX
}

/// No element shifted by the scalar overflows the element type.
pub open spec fn scalar_add_in_range(a: Seq<i64>, v: i64) -> bool {
    forall|k: int| #![trigger a[k]] 0 <= k < a.len() ==> i64::MIN <= a[k] + v <= i64::MAX
}

/// No element shifted down by the scalar overflows the element type.
pub open spec fn scalar_sub_in_range(a: Seq<i64>, v: i64) -> bool {
    forall|k: int| #![trigger a[k]] 0 <= k < a.len() ==> i64::MIN <= a[k] - v <= i64::MAX
}

/// No element scaled by the scalar overflows the element type.
pub open spec fn scalar_mul_in_range(a: Seq<i64>, v: i64) -> bool {
    forall|k: int| #![trigger a[k]] 0 <= k < a.len() ==> i64::MIN <= a[k] * v <= i64::MAX
}

/// Division of every element by the scalar is defined: the scalar is nonzero
/// and no element is the minimum divided by minus one (the one overflowing
/// signed division).
pub open spec fn scalar_div_defined(a: Seq<i64>, v: i64) -> bool {
    v != 0 && forall|k: int| #![trigger a[k]] 0 <= k < a.len() ==> !(a[k] == i64::MIN && v == -1)
}

impl VecMatrix<i64> {
    /// Pairwise sum with another matrix, in flat sequence order; pairing
    /// stops at the shorter operand (silent truncation, preserved from the
    /// container's documented behaviour).  Keeps the left operand's row
    /// length.
    pub fn add_matrix(self, rhs: Self) -> (r: Self)
        requires
            add_in_range(self@, rhs@),
        ensures
            r@ == elemwise_add(self@, rhs@),
            r.spec_row_len() == self.spec_row_len(),
    {
        let n: usize = if self.inner.len() <= rhs.inner.len() {
            self.inner.len()
        } else {
            rhs.inner.len()
        };
        let mut out: Vec<i64> = Vec::new();
        let mut k: usize = 0;
        while k < n
            invariant
                add_in_range(self@, rhs@),
                n == zip_len(self@, rhs@),
                n <= self@.len(),
                n <= rhs@.len(),
                k <= n,
                out@.len() == k as int,
                forall|t: int| 0 <= t < k ==> out@[t] == elemwise_add(self@, rhs@)[t],
            decreases n - k,
        {
            out.push(self.inner[k] + rhs.inner[k]);
            k = k + 1;
        }
        proof {
            assert(out@ =~= elemwise_add(self@, rhs@));
        }
        VecMatrix { inner: out, row_len: self.row_len }
    }

    /// Pairwise difference with another matrix; pairing stops at the shorter
    /// operand.  Keeps the left operand's row length.
    pub fn sub_matrix(self, rhs: Self) -> (r: Self)
        requires
            sub_in_range(self@, rhs@),
        ensures
            r@ == elemwise_sub(self@, rhs@),
            r.spec_row_len() == self.spec_row_len(),
    {
        let n: usize = if self.inner.len() <= rhs.inner.len() {
            self.inner.len()
        } else {
            rhs.inner.len()
        };
        let mut out: Vec<i64> = Vec::new();
        let mut k: usize = 0;
        while k < n
            invariant
                sub_in_range(self@, rhs@),
                n == zip_len(self@, rhs@),
                n <= self@.len(),
                n <= rhs@.len(),
                k <= n,
                out@.len() == k as int,
                forall|t: int| 0 <= t < k ==> out@[t] == elemwise_sub(self@, rhs@)[t],
            decreases n - k,
        {
            out.push(self.inner[k] - rhs.inner[k]);
            k = k + 1;
        }
        proof {
            assert(out@ =~= elemwise_sub(self@, rhs@));
        }
        VecMatrix { inner: out, row_len: self.row_len }
    }

    /// Pairwise (Hadamard) product with another matrix — not the row-by-column
    /// matrix product.  It nevertheless demands the shape fit for a true
    /// matrix product: the left operand's column length must equal the right
    /// operand's stored row length.  Pairing stops at the shorter operand;
    /// keeps the left operand's row length.
    pub fn mul_matrix(self, rhs: Self) -> (r: Self)
        requires
            mul_in_range(self@, rhs@),
            self.spec_row_len() > 0,
            spec_column_len(self@.len() as int, self.spec_row_len() as int)
                == rhs.spec_row_len() as int,
        ensures
            r@ == elemwise_mul(self@, rhs@),
            r.spec_row_len() == self.spec_row_len(),
    {
        let n: usize = if self.inner.len() <= rhs.inner.len() {
            self.inner.len()
        } else {
            rhs.inner.len()
        };
        let mut out: Vec<i64> = Vec::new();
        let mut k: usize = 0;
        while k < n
            invariant
                mul_in_range(self@, rhs@),
                n == zip_len(self@, rhs@),
                n <= self@.len(),
                n <= rhs@.len(),
                k <= n,
                out@.len() == k as int,
                forall|t: int| 0 <= t < k ==> out@[t] == elemwise_mul(self@, rhs@)[t],
            decreases n - k,
        {
            out.push(self.inner[k] * rhs.inner[k]);
            k = k + 1;
        }
        proof {
            assert(out@ =~= elemwise_mul(self@, rhs@));
        }
        VecMatrix { inner: out, row_len: self.row_len }
    }

    /// Adds the scalar to every element; keeps the row length.
    pub fn add_scalar(self, rhs: i64) -> (r: Self)
        requires
            scalar_add_in_range(self@, rhs),
        ensures
            r@ == scalar_add(self@, rhs),
            r.spec_row_len() == self.spec_row_len(),
    {
        let n: usize = self.inner.len();
        let mut out: Vec<i64> = Vec::new();
        let mut k: usize = 0;
        while k < n
            invariant
                scalar_add_in_range(self@, rhs),
                n == self@.len(),
                k <= n,
                out@.len() == k as int,
                forall|t: int| 0 <= t < k ==> out@[t] == scalar_add(self@, rhs)[t],
            decreases n - k,
        {
            out.push(self.inner[k] + rhs);
            k = k + 1;
        }
        proof {
            assert(out@ =~= scalar_add(self@, rhs));
        }
        VecMatrix { inner: out, row_len: self.row_len }
    }

    /// Subtracts the scalar from every element; keeps the row length.
    pub fn sub_scalar(self, rhs: i64) -> (r: Self)
        requires
            scalar_sub_in_range(self@, rhs),
        ensures
            r@ == scalar_sub(self@, rhs),
            r.spec_row_len() == self.spec_row_len(),
    {
        let n: usize = self.inner.len();
        let mut out: Vec<i64> = Vec::new();
        let mut k: usize = 0;
        while k < n
            invariant
                scalar_sub_in_range(self@, rhs),
                n == self@.len(),
                k <= n,
                out@.len() == k as int,
                forall|t: int| 0 <= t < k ==> out@[t] == scalar_sub(self@, rhs)[t],
            decreases n - k,
        {
            out.push(self.inner[k] - rhs);
            k = k + 1;
        }
        proof {
            assert(out@ =~= scalar_sub(self@, rhs));
        }
        VecMatrix { inner: out, row_len: self.row_len }
    }

    /// Multiplies every element by the scalar; keeps the row length.
    pub fn mul_scalar(self, rhs: i64) -> (r: Self)
        requires
            scalar_mul_in_range(self@, rhs),
        ensures
            r@ == scalar_mul(self@, rhs),
            r.spec_row_len() == self.spec_row_len(),
    {
        let n: usize = self.inner.len();
        let mut out: Vec<i64> = Vec::new();
        let mut k: usize = 0;
        while k < n
            invariant
                scalar_mul_in_range(self@, rhs),
                n == self@.len(),
                k <= n,
                out@.len() == k as int,
                forall|t: int| 0 <= t < k ==> out@[t] == scalar_mul(self@, rhs)[t],
            decreases n - k,
        {
            out.push(self.inner[k] * rhs);
            k = k + 1;
        }
        proof {
            assert(out@ =~= scalar_mul(self@, rhs));
        }
        VecMatrix { inner: out, row_len: self.row_len }
    }

    /// Divides every element by the scalar, truncating toward zero as the
    /// element type's own division does; keeps the row length.
    pub fn div_scalar(self, rhs: i64) -> (r: Self)
        requires
            scalar_div_defined(self@, rhs),
        ensures
            r@ == scalar_div(self@, rhs),
            r.spec_row_len() == self.spec_row_len(),
    {
        let n: usize = self.inner.len();
        let mut out: Vec<i64> = Vec::new();
        let mut k: usize = 0;
        while k < n
            invariant
                scalar_div_defined(self@, rhs),
                n == self@.len(),
                k <= n,
                out@.len() == k as int,
                forall|t: int| 0 <= t < k ==> out@[t] == scalar_div(self@, rhs)[t],
            decreases n - k,
        {
            out.push(self.inner[k] / rhs);
            k = k + 1;
        }
        proof {
            assert(out@ =~= scalar_div(self@, rhs));
        }
        VecMatrix { inner: out, row_len: self.row_len }
    }

    /// Takes the remainder of every element by the scalar, with the sign of
    /// the dividend as the element type's own remainder does; keeps the row
    /// length.
    pub fn rem_scalar(self, rhs: i64) -> (r: Self)
        requires
            scalar_div_defined(self@, rhs),
        ensures
            r@ == scalar_rem(self@, rhs),
            r.spec_row_len() == self.spec_row_len(),
    {
        let n: usize = self.inner.len();
        let mut out: Vec<i64> = Vec::new();
        let mut k: usize = 0;
        while k < n
            invariant
                scalar_div_defined(self@, rhs),
                n == self@.len(),
                k <= n,
                out@.len() == k as int,
                forall|t: int| 0 <= t < k ==> out@[t] == scalar_rem(self@, rhs)[t],
            decreases n - k,
        {
            out.push(self.inner[k] % rhs);
            k = k + 1;
        }
        proof {
            assert(out@ =~= scalar_rem(self@, rhs));
        }
        VecMatrix { inner: out, row_len: self.row_len }
    }

    /// Pairwise sum in place: elements paired with the right operand are
    /// replaced by the sums, the remaining tail stays unchanged.
    pub fn add_assign_matrix(&mut self, rhs: Self)
        requires
            add_in_range(old(self)@, rhs@),
        ensures
            final(self)@ == compound_add(old(self)@, rhs@),
            final(self).spec_row_len() == old(self).spec_row_len(),
    {
        let ghost orig: Seq<i64> = self@;
        let ghost orig_row: usize = self.spec_row_len();
        let n: usize = if self.inner.len() <= rhs.inner.len() {
            self.inner.len()
        } else {
            rhs.inner.len()
        };
        let mut k: usize = 0;
        while k < n
            invariant
                add_in_range(orig, rhs@),
                n == zip_len(orig, rhs@),
                n <= rhs@.len(),
                k <= n,
                self@.len() == orig.len(),
                self.spec_row_len() == orig_row,
                forall|t: int| 0 <= t < k ==> self@[t] == compound_add(orig, rhs@)[t],
                forall|t: int| k <= t < self@.len() ==> self@[t] == orig[t],
            decreases n - k,
        {
            proof {
                // the cell is still untouched, so the range bound applies
                assert(self@[k as int] == orig[k as int]);
                assert(i64::MIN <= orig[k as int] + rhs@[k as int] <= i64::MAX);
            }
            let sum: i64 = self.inner[k] + rhs.inner[k];
            self.inner[k] = sum;
            k = k + 1;
        }
        proof {
            assert(self@ =~= compound_add(orig, rhs@));
        }
    }

    /// Pairwise difference in place; see `add_assign_matrix`.
    pub fn sub_assign_matrix(&mut self, rhs: Self)
        requires
            sub_in_range(old(self)@, rhs@),
        ensures
            final(self)@ == compound_sub(old(self)@, rhs@),
            final(self).spec_row_len() == old(self).spec_row_len(),
    {
        let ghost orig: Seq<i64> = self@;
        let ghost orig_row: usize = self.spec_row_len();
        let n: usize = if self.inner.len() <= rhs.inner.len() {
            self.inner.len()
        } else {
            rhs.inner.len()
        };
        let mut k: usize = 0;
        while k < n
            invariant
                sub_in_range(orig, rhs@),
                n == zip_len(orig, rhs@),
                n <= rhs@.len(),
                k <= n,
                self@.len() == orig.len(),
                self.spec_row_len() == orig_row,
                forall|t: int| 0 <= t < k ==> self@[t] == compound_sub(orig, rhs@)[t],
                forall|t: int| k <= t < self@.len() ==> self@[t] == orig[t],
            decreases n - k,
        {
            proof {
                // the cell is still untouched, so the range bound applies
                assert(self@[k as int] == orig[k as int]);
                assert(i64::MIN <= orig[k as int] - rhs@[k as int] <= i64::MAX);
            }
            let diff: i64 = self.inner[k] - rhs.inner[k];
            self.inner[k] = diff;
            k = k + 1;
        }
        proof {
            assert(self@ =~= compound_sub(orig, rhs@));
        }
    }

    /// Pairwise product in place; see `add_assign_matrix`.
    pub fn mul_assign_matrix(&mut self, rhs: Self)
        requires
            mul_in_range(old(self)@, rhs@),
        ensures
            final(self)@ == compound_mul(old(self)@, rhs@),
            final(self).spec_row_len() == old(self).spec_row_len(),
    {
        let ghost orig: Seq<i64> = self@;
        let ghost orig_row: usize = self.spec_row_len();
        let n: usize = if self.inner.len() <= rhs.inner.len() {
            self.inner.len()
        } else {
            rhs.inner.len()
        };
        let mut k: usize = 0;
        while k < n
            invariant
                mul_in_range(orig, rhs@),
                n == zip_len(orig, rhs@),
                n <= rhs@.len(),
                k <= n,
                self@.len() == orig.len(),
                self.spec_row_len() == orig_row,
                forall|t: int| 0 <= t < k ==> self@[t] == compound_mul(orig, rhs@)[t],
                forall|t: int| k <= t < self@.len() ==> self@[t] == orig[t],
            decreases n - k,
        {
            proof {
                // the cell is still untouched, so the range bound applies
                assert(self@[k as int] == orig[k as int]);
                assert(i64::MIN <= orig[k as int] * rhs@[k as int] <= i64::MAX);
            }
            let prod: i64 = self.inner[k] * rhs.inner[k];
            self.inner[k] = prod;
            k = k + 1;
        }
        proof {
            assert(self@ =~= compound_mul(orig, rhs@));
        }
    }

    /// Adds the scalar to every element in place.
    pub fn add_assign_scalar(&mut self, rhs: i64)
        requires
            scalar_add_in_range(old(self)@, rhs),
        ensures
            final(self)@ == scalar_add(old(self)@, rhs),
            final(self).spec_row_len() == old(self).spec_row_len(),
    {
        let ghost orig: Seq<i64> = self@;
        let ghost orig_row: usize = self.spec_row_len();
        let n: usize = self.inner.len();
        let mut k: usize = 0;
        while k < n
            invariant
                scalar_add_in_range(orig, rhs),
                n == orig.len(),
                k <= n,
                self@.len() == orig.len(),
                self.spec_row_len() == orig_row,
                forall|t: int| 0 <= t < k ==> self@[t] == scalar_add(orig, rhs)[t],
                forall|t: int| k <= t < self@.len() ==> self@[t] == orig[t],
            decreases n - k,
        {
            proof {
                // the cell is still untouched, so the range bound applies
                assert(self@[k as int] == orig[k as int]);
                assert(i64::MIN <= orig[k as int] + rhs <= i64::MAX);
            }
            let sum: i64 = self.inner[k] + rhs;
            self.inner[k] = sum;
            k = k + 1;
        }
        proof {
            assert(self@ =~= scalar_add(orig, rhs));
        }
    }
}

} // verus!
