//! Laws relating the container's operations, proved once for all inputs.

use vstd::prelude::*;

use crate::matrix::compound_add;
use crate::matrix::compound_mul;
use crate::matrix::compound_sub;
use crate::matrix::elemwise_add;
use crate::matrix::elemwise_mul;
use crate::matrix::elemwise_sub;
use crate::matrix::matrix_eq;
use crate::matrix::scalar_add;
use crate::matrix::scalar_add_in_range;
use crate::matrix::scalar_div;
use crate::matrix::scalar_mul;
use crate::matrix::scalar_mul_in_range;
use crate::matrix::scalar_sub;
use crate::matrix::Matrix;
use crate::matrix::VecMatrix;

verus! {

/// Construction equivalence: a matrix built by taking ownership of a vector
/// and one built by copying a borrowed slice are the same matrix whenever
/// their contents and their row lengths agree.
pub proof fn lemma_construction_equivalence<T>(
    owned: VecMatrix<T>,
    copied: VecMatrix<T>,
    data: Seq<T>,
    row_len: usize,
)
    requires
        owned@ == data,
        owned.spec_row_len() == row_len,
        copied@ == data,
        copied.spec_row_len() == row_len,
    ensures
        matrix_eq(owned, copied),
{
}

/// Additive inverse: subtracting a matrix from itself yields all zero
/// elements.
pub proof fn lemma_sub_self_is_zero(a: Seq<i64>)
    ensures
        elemwise_sub(a, a).len() == a.len(),
        forall|k: int| 0 <= k < a.len() ==> elemwise_sub(a, a)[k] == 0,
{
}

/// Adding a scalar and then subtracting it again returns the original
/// elements, whenever the addition stays in range.
pub proof fn lemma_scalar_add_sub_round_trip(a: Seq<i64>, v: i64)
    requires
        scalar_add_in_range(a, v),
    ensures
        scalar_sub(scalar_add(a, v), v) == a,
{
    assert(scalar_sub(scalar_add(a, v), v) =~= a);
}

/// Scalar multiplication by one is the identity.
pub proof fn lemma_scalar_mul_one(a: Seq<i64>)
    ensures
        scalar_mul(a, 1) == a,
{
    assert(scalar_mul(a, 1) =~= a);
}

/// Scalar multiplication by zero yields all zero elements.
pub proof fn lemma_scalar_mul_zero(a: Seq<i64>)
    ensures
        scalar_mul(a, 0).len() == a.len(),
        forall|k: int| 0 <= k < a.len() ==> scalar_mul(a, 0)[k] == 0,
{
}

/// Dividing an exact multiple by its nonzero factor gives back the other
/// factor, under the euclidean division of specifications.
proof fn lemma_exact_div(c: int, v: int)
    requires
        v != 0,
    ensures
        (c * v) / v == c,
{
    if v > 0 {
        vstd::arithmetic::div_mod::lemma_fundamental_div_mod_converse_div(c * v, v, c, 0);
    } else {
        assert((c * v) / v == c) by (nonlinear_arith)
            requires
                v < 0,
        ;
    }
}

/// Multiplying every element by a nonzero scalar and then dividing by it
/// returns the original elements, whenever the multiplication stays in range
/// (the division is then exact, so nothing is truncated).
pub proof fn lemma_scalar_mul_div_round_trip(a: Seq<i64>, v: i64)
    requires
        v != 0,
        scalar_mul_in_range(a, v),
    ensures
        scalar_div(scalar_mul(a, v), v) == a,
{
    assert forall|k: int| 0 <= k < a.len() implies scalar_div(scalar_mul(a, v), v)[k] == a[k] by {
        let x: int = a[k] as int * v as int;
        assert(i64::MIN <= x <= i64::MAX);
        vstd::arithmetic::mul::lemma_mul_unary_negation(a[k] as int, v as int);
        lemma_exact_div(a[k] as int, v as int);
        lemma_exact_div(-(a[k] as int), v as int);
    }
    assert(scalar_div(scalar_mul(a, v), v) =~= a);
}

/// The in-place pairwise sum leaves exactly what the non-mutating pairwise
/// sum builds, whenever the operands have equal length.
pub proof fn lemma_compound_add_agrees(a: Seq<i64>, b: Seq<i64>)
    requires
        a.len() == b.len(),
    ensures
        compound_add(a, b) == elemwise_add(a, b),
{
    assert(compound_add(a, b) =~= elemwise_add(a, b));
}

/// The in-place pairwise difference agrees with the non-mutating one on
/// operands of equal length.
pub proof fn lemma_compound_sub_agrees(a: Seq<i64>, b: Seq<i64>)
    requires
        a.len() == b.len(),
    ensures
        compound_sub(a, b) == elemwise_sub(a, b),
{
    assert(compound_sub(a, b) =~= elemwise_sub(a, b));
}

/// The in-place pairwise product agrees with the non-mutating one on
/// operands of equal length.
pub proof fn lemma_compound_mul_agrees(a: Seq<i64>, b: Seq<i64>)
    requires
        a.len() == b.len(),
    ensures
        compound_mul(a, b) == elemwise_mul(a, b),
{
    assert(compound_mul(a, b) =~= elemwise_mul(a, b));
}

} // verus!
