//! The cofactor plan over exact integer arithmetic: determinants by Laplace
//! expansion along the first row, adjugates from signed minors, and the
//! identities that make adjugate-over-determinant an inverse.
use vstd::prelude::*;

use crate::cofactor::{is_negated, source_line};
use vstd::arithmetic::mul::{
    group_mul_basics,
    lemma_mul_is_associative,
    lemma_mul_is_commutative,
    lemma_mul_is_distributive_add,
    lemma_mul_is_distributive_sub,
    lemma_mul_unary_negation,
};

verus! {

/// `m` is an `n` by `n` grid, stored row by row.
pub open spec fn is_square(m: Seq<Seq<int>>, n: int) -> bool {
    m.len() == n && forall|i: int| 0 <= i < n ==> #[trigger] m[i].len() == n
}

/// The minor of `m` without row `row` and column `col`, taken by the plan of
/// `source_line`.
pub open spec fn minor(m: Seq<Seq<int>>, row: int, col: int) -> Seq<Seq<int>> {
    Seq::new(
        (m.len() - 1) as nat,
        |i: int| Seq::new((m.len() - 1) as nat, |j: int| m[source_line(row, i)][source_line(col, j)]),
    )
}

/// `x` with the cofactor sign of position (`row`, `col`).
pub open spec fn signed(row: int, col: int, x: int) -> int {
    if is_negated(row, col) {
        -x
    } else {
        x
    }
}

/// Determinant of a 2x2 matrix.
pub open spec fn det2(m: Seq<Seq<int>>) -> int {
    m[0][0] * m[1][1] - m[0][1] * m[1][0]
}

/// Cofactor of a 3x3 matrix: the signed determinant of a 2x2 minor.
pub open spec fn cofactor3(m: Seq<Seq<int>>, row: int, col: int) -> int {
    signed(row, col, det2(minor(m, row, col)))
}

/// Laplace expansion of a 3x3 determinant along the first row.
pub open spec fn det3(m: Seq<Seq<int>>) -> int {
    m[0][0] * cofactor3(m, 0, 0) + m[0][1] * cofactor3(m, 0, 1) + m[0][2] * cofactor3(m, 0, 2)
}

/// Cofactor of a 4x4 matrix: the signed determinant of a 3x3 minor.
pub open spec fn cofactor4(m: Seq<Seq<int>>, row: int, col: int) -> int {
    signed(row, col, det3(minor(m, row, col)))
}

/// Laplace expansion of a 4x4 determinant along the first row, with 3x3
/// minors.
pub open spec fn det4(m: Seq<Seq<int>>) -> int {
    m[0][0] * cofactor4(m, 0, 0) + m[0][1] * cofactor4(m, 0, 1) + m[0][2] * cofactor4(m, 0, 2)
        + m[0][3] * cofactor4(m, 0, 3)
}

/// Transpose of the cofactor matrix of a 3x3 matrix.
pub open spec fn adjugate3(m: Seq<Seq<int>>) -> Seq<Seq<int>> {
    Seq::new(3, |i: int| Seq::new(3, |j: int| cofactor3(m, j, i)))
}

/// Transpose of the cofactor matrix of a 4x4 matrix.
pub open spec fn adjugate4(m: Seq<Seq<int>>) -> Seq<Seq<int>> {
    Seq::new(4, |i: int| Seq::new(4, |j: int| cofactor4(m, j, i)))
}

/// First `n` terms of entry (`i`, `j`) of the product `a * b`: the sum over
/// `k < n` of `a[i][k] * b[k][j]`.
pub open spec fn product_entry(a: Seq<Seq<int>>, b: Seq<Seq<int>>, i: int, j: int, n: nat) -> int
    decreases n,
{
    if n == 0 {
        0
    } else {
        product_entry(a, b, i, j, (n - 1) as nat) + a[i][n - 1] * b[n - 1][j]
    }
}

/// A 3x3 matrix times its adjugate is its determinant times the identity.
pub proof fn lemma_adjugate3(m: Seq<Seq<int>>)
    requires
        is_square(m, 3),
    ensures
        forall|i: int, j: int|
            0 <= i < 3 && 0 <= j < 3 ==> #[trigger] product_entry(m, adjugate3(m), i, j, 3) == if i
                == j {
                det3(m)
            } else {
                0
            },
{
    reveal_with_fuel(product_entry, 4);
    let a00 = m[0][0];
    let a01 = m[0][1];
    let a02 = m[0][2];
    let a10 = m[1][0];
    let a11 = m[1][1];
    let a12 = m[1][2];
    let a20 = m[2][0];
    let a21 = m[2][1];
    let a22 = m[2][2];
    let c00 = cofactor3(m, 0, 0);
    let c01 = cofactor3(m, 0, 1);
    let c02 = cofactor3(m, 0, 2);
    let c10 = cofactor3(m, 1, 0);
    let c11 = cofactor3(m, 1, 1);
    let c12 = cofactor3(m, 1, 2);
    let c20 = cofactor3(m, 2, 0);
    let c21 = cofactor3(m, 2, 1);
    let c22 = cofactor3(m, 2, 2);
    assert(c00 == (a11 * a22 - a12 * a21));
    assert(c01 == -(a10 * a22 - a12 * a20));
    assert(c02 == (a10 * a21 - a11 * a20));
    assert(c10 == -(a01 * a22 - a02 * a21));
    assert(c11 == (a00 * a22 - a02 * a20));
    assert(c12 == -(a00 * a21 - a01 * a20));
    assert(c20 == (a01 * a12 - a02 * a11));
    assert(c21 == -(a00 * a12 - a02 * a10));
    assert(c22 == (a00 * a11 - a01 * a10));
    assert(a00 * (a11 * a22 - a12 * a21) == (a00 * a11) * a22 - (a00 * a12) * a21) by (nonlinear_arith);
    assert(a01 * -(a10 * a22 - a12 * a20) == -((a01 * a10) * a22) + (a01 * a12) * a20) by (nonlinear_arith);
    assert(a02 * (a10 * a21 - a11 * a20) == (a02 * a10) * a21 - (a02 * a11) * a20) by (nonlinear_arith);
    assert(a00 * -(a01 * a22 - a02 * a21) == -((a00 * a01) * a22) + (a00 * a02) * a21) by (nonlinear_arith);
    assert(a01 * (a00 * a22 - a02 * a20) == (a00 * a01) * a22 - (a01 * a02) * a20) by (nonlinear_arith);
    assert(a02 * -(a00 * a21 - a01 * a20) == -((a00 * a02) * a21) + (a01 * a02) * a20) by (nonlinear_arith);
    assert(a00 * (a01 * a12 - a02 * a11) == (a00 * a01) * a12 - (a00 * a02) * a11) by (nonlinear_arith);
    assert(a01 * -(a00 * a12 - a02 * a10) == -((a00 * a01) * a12) + (a01 * a02) * a10) by (nonlinear_arith);
    assert(a02 * (a00 * a11 - a01 * a10) == (a00 * a02) * a11 - (a01 * a02) * a10) by (nonlinear_arith);
    assert(a10 * (a11 * a22 - a12 * a21) == (a10 * a11) * a22 - (a10 * a12) * a21) by (nonlinear_arith);
    assert(a11 * -(a10 * a22 - a12 * a20) == -((a10 * a11) * a22) + (a11 * a12) * a20) by (nonlinear_arith);
    assert(a12 * (a10 * a21 - a11 * a20) == (a10 * a12) * a21 - (a11 * a12) * a20) by (nonlinear_arith);
    assert(a10 * -(a01 * a22 - a02 * a21) == -((a01 * a10) * a22) + (a02 * a10) * a21) by (nonlinear_arith);
    assert(a11 * (a00 * a22 - a02 * a20) == (a00 * a11) * a22 - (a02 * a11) * a20) by (nonlinear_arith);
    assert(a12 * -(a00 * a21 - a01 * a20) == -((a00 * a12) * a21) + (a01 * a12) * a20) by (nonlinear_arith);
    assert(a10 * (a01 * a12 - a02 * a11) == (a01 * a10) * a12 - (a02 * a10) * a11) by (nonlinear_arith);
    assert(a11 * -(a00 * a12 - a02 * a10) == -((a00 * a11) * a12) + (a02 * a10) * a11) by (nonlinear_arith);
    assert(a12 * (a00 * a11 - a01 * a10) == (a00 * a11) * a12 - (a01 * a10) * a12) by (nonlinear_arith);
    assert(a20 * (a11 * a22 - a12 * a21) == (a11 * a20) * a22 - (a12 * a20) * a21) by (nonlinear_arith);
    assert(a21 * -(a10 * a22 - a12 * a20) == -((a10 * a21) * a22) + (a12 * a20) * a21) by (nonlinear_arith);
    assert(a22 * (a10 * a21 - a11 * a20) == (a10 * a21) * a22 - (a11 * a20) * a22) by (nonlinear_arith);
    assert(a20 * -(a01 * a22 - a02 * a21) == -((a01 * a20) * a22) + (a02 * a20) * a21) by (nonlinear_arith);
    assert(a21 * (a00 * a22 - a02 * a20) == (a00 * a21) * a22 - (a02 * a20) * a21) by (nonlinear_arith);
    assert(a22 * -(a00 * a21 - a01 * a20) == -((a00 * a21) * a22) + (a01 * a20) * a22) by (nonlinear_arith);
    assert(a20 * (a01 * a12 - a02 * a11) == (a01 * a12) * a20 - (a02 * a11) * a20) by (nonlinear_arith);
    assert(a21 * -(a00 * a12 - a02 * a10) == -((a00 * a12) * a21) + (a02 * a10) * a21) by (nonlinear_arith);
    assert(a22 * (a00 * a11 - a01 * a10) == (a00 * a11) * a22 - (a01 * a10) * a22) by (nonlinear_arith);
    let d = det3(m);
    assert(product_entry(m, adjugate3(m), 0, 0, 3) == a00 * c00 + a01 * c01 + a02 * c02);
    assert(a00 * c00 + a01 * c01 + a02 * c02 == d);
    assert(product_entry(m, adjugate3(m), 0, 1, 3) == a00 * c10 + a01 * c11 + a02 * c12);
    assert(a00 * c10 + a01 * c11 + a02 * c12 == 0);
    assert(product_entry(m, adjugate3(m), 0, 2, 3) == a00 * c20 + a01 * c21 + a02 * c22);
    assert(a00 * c20 + a01 * c21 + a02 * c22 == 0);
    assert(product_entry(m, adjugate3(m), 1, 0, 3) == a10 * c00 + a11 * c01 + a12 * c02);
    assert(a10 * c00 + a11 * c01 + a12 * c02 == 0);
    assert(product_entry(m, adjugate3(m), 1, 1, 3) == a10 * c10 + a11 * c11 + a12 * c12);
    assert(a10 * c10 + a11 * c11 + a12 * c12 == d);
    assert(product_entry(m, adjugate3(m), 1, 2, 3) == a10 * c20 + a11 * c21 + a12 * c22);
    assert(a10 * c20 + a11 * c21 + a12 * c22 == 0);
    assert(product_entry(m, adjugate3(m), 2, 0, 3) == a20 * c00 + a21 * c01 + a22 * c02);
    assert(a20 * c00 + a21 * c01 + a22 * c02 == 0);
    assert(product_entry(m, adjugate3(m), 2, 1, 3) == a20 * c10 + a21 * c11 + a22 * c12);
    assert(a20 * c10 + a21 * c11 + a22 * c12 == 0);
    assert(product_entry(m, adjugate3(m), 2, 2, 3) == a20 * c20 + a21 * c21 + a22 * c22);
    assert(a20 * c20 + a21 * c21 + a22 * c22 == d);

    assert forall|i: int, j: int| 0 <= i < 3 && 0 <= j < 3 implies #[trigger] product_entry(
        m,
        adjugate3(m),
        i,
        j,
        3,
    ) == if i == j {
        det3(m)
    } else {
        0
    } by {
        assert(i == 0 || i == 1 || i == 2);
        assert(j == 0 || j == 1 || j == 2);
    }
}

/// A 4x4 matrix times its adjugate is its determinant times the identity.
pub proof fn lemma_adjugate4(m: Seq<Seq<int>>)
    requires
        is_square(m, 4),
    ensures
        forall|i: int, j: int|
            0 <= i < 4 && 0 <= j < 4 ==> #[trigger] product_entry(m, adjugate4(m), i, j, 4) == if i
                == j {
                det4(m)
            } else {
                0
            },
{
    reveal_with_fuel(product_entry, 5);
    lemma_adjugate4_row0(m);
    lemma_adjugate4_row1(m);
    lemma_adjugate4_row2(m);
    lemma_adjugate4_row3(m);
    assert forall|i: int, j: int| 0 <= i < 4 && 0 <= j < 4 implies #[trigger] product_entry(
        m,
        adjugate4(m),
        i,
        j,
        4,
    ) == if i == j {
        det4(m)
    } else {
        0
    } by {
        assert(i == 0 || i == 1 || i == 2 || i == 3);
        assert(j == 0 || j == 1 || j == 2 || j == 3);
    }
}

/// `a * (b * (x*y - u*v))` as two products of four factors.
proof fn lemma_expand(a: int, b: int, x: int, y: int, u: int, v: int)
    ensures
        a * (b * (x * y - u * v)) == ((a * b) * x) * y - ((a * b) * u) * v,
{
    lemma_mul_is_associative(a, b, x * y - u * v);
    lemma_mul_is_distributive_sub(a * b, x * y, u * v);
    lemma_mul_is_associative(a * b, x, y);
    lemma_mul_is_associative(a * b, u, v);
}

/// `a * (b * -(x*y - u*v))` as two products of four factors.
proof fn lemma_expand_neg(a: int, b: int, x: int, y: int, u: int, v: int)
    ensures
        a * (b * -(x * y - u * v)) == ((a * b) * u) * v - ((a * b) * x) * y,
{
    lemma_mul_is_associative(a, b, -(x * y - u * v));
    lemma_mul_unary_negation(a * b, x * y - u * v);
    lemma_mul_is_distributive_sub(a * b, x * y, u * v);
    lemma_mul_is_associative(a * b, x, y);
    lemma_mul_is_associative(a * b, u, v);
}

/// Exchanges the first two factors of a product of four.
proof fn lemma_swap12(a: int, b: int, c: int, d: int)
    ensures
        ((a * b) * c) * d == ((b * a) * c) * d,
{
    lemma_mul_is_commutative(a, b);
}

/// Exchanges the second and third factors of a product of four.
proof fn lemma_swap23(a: int, b: int, c: int, d: int)
    ensures
        ((a * b) * c) * d == ((a * c) * b) * d,
{
    lemma_mul_is_associative(a, b, c);
    lemma_mul_is_commutative(b, c);
    lemma_mul_is_associative(a, c, b);
}

/// Exchanges the last two factors of a product of four.
proof fn lemma_swap34(a: int, b: int, c: int, d: int)
    ensures
        ((a * b) * c) * d == ((a * b) * d) * c,
{
    lemma_mul_is_associative(a * b, c, d);
    lemma_mul_is_commutative(c, d);
    lemma_mul_is_associative(a * b, d, c);
}

/// The sixteen cofactors of a 4x4 matrix, written out over its entries.
proof fn lemma_cofactor4_closed_forms(m: Seq<Seq<int>>)
    requires
        is_square(m, 4),
    ensures
        cofactor4(m, 0, 0) == (m[1][1] * (m[2][2] * m[3][3] - m[2][3] * m[3][2]) + m[1][2] * -(m[2][1] * m[3][3] - m[2][3] * m[3][1]) + m[1][3] * (m[2][1] * m[3][2] - m[2][2] * m[3][1])),
        cofactor4(m, 0, 1) == -(m[1][0] * (m[2][2] * m[3][3] - m[2][3] * m[3][2]) + m[1][2] * -(m[2][0] * m[3][3] - m[2][3] * m[3][0]) + m[1][3] * (m[2][0] * m[3][2] - m[2][2] * m[3][0])),
        cofactor4(m, 0, 2) == (m[1][0] * (m[2][1] * m[3][3] - m[2][3] * m[3][1]) + m[1][1] * -(m[2][0] * m[3][3] - m[2][3] * m[3][0]) + m[1][3] * (m[2][0] * m[3][1] - m[2][1] * m[3][0])),
        cofactor4(m, 0, 3) == -(m[1][0] * (m[2][1] * m[3][2] - m[2][2] * m[3][1]) + m[1][1] * -(m[2][0] * m[3][2] - m[2][2] * m[3][0]) + m[1][2] * (m[2][0] * m[3][1] - m[2][1] * m[3][0])),
        cofactor4(m, 1, 0) == -(m[0][1] * (m[2][2] * m[3][3] - m[2][3] * m[3][2]) + m[0][2] * -(m[2][1] * m[3][3] - m[2][3] * m[3][1]) + m[0][3] * (m[2][1] * m[3][2] - m[2][2] * m[3][1])),
        cofactor4(m, 1, 1) == (m[0][0] * (m[2][2] * m[3][3] - m[2][3] * m[3][2]) + m[0][2] * -(m[2][0] * m[3][3] - m[2][3] * m[3][0]) + m[0][3] * (m[2][0] * m[3][2] - m[2][2] * m[3][0])),
        cofactor4(m, 1, 2) == -(m[0][0] * (m[2][1] * m[3][3] - m[2][3] * m[3][1]) + m[0][1] * -(m[2][0] * m[3][3] - m[2][3] * m[3][0]) + m[0][3] * (m[2][0] * m[3][1] - m[2][1] * m[3][0])),
        cofactor4(m, 1, 3) == (m[0][0] * (m[2][1] * m[3][2] - m[2][2] * m[3][1]) + m[0][1] * -(m[2][0] * m[3][2] - m[2][2] * m[3][0]) + m[0][2] * (m[2][0] * m[3][1] - m[2][1] * m[3][0])),
        cofactor4(m, 2, 0) == (m[0][1] * (m[1][2] * m[3][3] - m[1][3] * m[3][2]) + m[0][2] * -(m[1][1] * m[3][3] - m[1][3] * m[3][1]) + m[0][3] * (m[1][1] * m[3][2] - m[1][2] * m[3][1])),
        cofactor4(m, 2, 1) == -(m[0][0] * (m[1][2] * m[3][3] - m[1][3] * m[3][2]) + m[0][2] * -(m[1][0] * m[3][3] - m[1][3] * m[3][0]) + m[0][3] * (m[1][0] * m[3][2] - m[1][2] * m[3][0])),
        cofactor4(m, 2, 2) == (m[0][0] * (m[1][1] * m[3][3] - m[1][3] * m[3][1]) + m[0][1] * -(m[1][0] * m[3][3] - m[1][3] * m[3][0]) + m[0][3] * (m[1][0] * m[3][1] - m[1][1] * m[3][0])),
        cofactor4(m, 2, 3) == -(m[0][0] * (m[1][1] * m[3][2] - m[1][2] * m[3][1]) + m[0][1] * -(m[1][0] * m[3][2] - m[1][2] * m[3][0]) + m[0][2] * (m[1][0] * m[3][1] - m[1][1] * m[3][0])),
        cofactor4(m, 3, 0) == -(m[0][1] * (m[1][2] * m[2][3] - m[1][3] * m[2][2]) + m[0][2] * -(m[1][1] * m[2][3] - m[1][3] * m[2][1]) + m[0][3] * (m[1][1] * m[2][2] - m[1][2] * m[2][1])),
        cofactor4(m, 3, 1) == (m[0][0] * (m[1][2] * m[2][3] - m[1][3] * m[2][2]) + m[0][2] * -(m[1][0] * m[2][3] - m[1][3] * m[2][0]) + m[0][3] * (m[1][0] * m[2][2] - m[1][2] * m[2][0])),
        cofactor4(m, 3, 2) == -(m[0][0] * (m[1][1] * m[2][3] - m[1][3] * m[2][1]) + m[0][1] * -(m[1][0] * m[2][3] - m[1][3] * m[2][0]) + m[0][3] * (m[1][0] * m[2][1] - m[1][1] * m[2][0])),
        cofactor4(m, 3, 3) == (m[0][0] * (m[1][1] * m[2][2] - m[1][2] * m[2][1]) + m[0][1] * -(m[1][0] * m[2][2] - m[1][2] * m[2][0]) + m[0][2] * (m[1][0] * m[2][1] - m[1][1] * m[2][0])),
{
    let a00 = m[0][0];
    let a01 = m[0][1];
    let a02 = m[0][2];
    let a03 = m[0][3];
    let a10 = m[1][0];
    let a11 = m[1][1];
    let a12 = m[1][2];
    let a13 = m[1][3];
    let a20 = m[2][0];
    let a21 = m[2][1];
    let a22 = m[2][2];
    let a23 = m[2][3];
    let a30 = m[3][0];
    let a31 = m[3][1];
    let a32 = m[3][2];
    let a33 = m[3][3];
    assert(cofactor4(m, 0, 0) == (a11 * (a22 * a33 - a23 * a32) + a12 * -(a21 * a33 - a23 * a31) + a13 * (a21 * a32 - a22 * a31)));
    assert(cofactor4(m, 0, 1) == -(a10 * (a22 * a33 - a23 * a32) + a12 * -(a20 * a33 - a23 * a30) + a13 * (a20 * a32 - a22 * a30)));
    assert(cofactor4(m, 0, 2) == (a10 * (a21 * a33 - a23 * a31) + a11 * -(a20 * a33 - a23 * a30) + a13 * (a20 * a31 - a21 * a30)));
    assert(cofactor4(m, 0, 3) == -(a10 * (a21 * a32 - a22 * a31) + a11 * -(a20 * a32 - a22 * a30) + a12 * (a20 * a31 - a21 * a30)));
    assert(cofactor4(m, 1, 0) == -(a01 * (a22 * a33 - a23 * a32) + a02 * -(a21 * a33 - a23 * a31) + a03 * (a21 * a32 - a22 * a31)));
    assert(cofactor4(m, 1, 1) == (a00 * (a22 * a33 - a23 * a32) + a02 * -(a20 * a33 - a23 * a30) + a03 * (a20 * a32 - a22 * a30)));
    assert(cofactor4(m, 1, 2) == -(a00 * (a21 * a33 - a23 * a31) + a01 * -(a20 * a33 - a23 * a30) + a03 * (a20 * a31 - a21 * a30)));
    assert(cofactor4(m, 1, 3) == (a00 * (a21 * a32 - a22 * a31) + a01 * -(a20 * a32 - a22 * a30) + a02 * (a20 * a31 - a21 * a30)));
    assert(cofactor4(m, 2, 0) == (a01 * (a12 * a33 - a13 * a32) + a02 * -(a11 * a33 - a13 * a31) + a03 * (a11 * a32 - a12 * a31)));
    assert(cofactor4(m, 2, 1) == -(a00 * (a12 * a33 - a13 * a32) + a02 * -(a10 * a33 - a13 * a30) + a03 * (a10 * a32 - a12 * a30)));
    assert(cofactor4(m, 2, 2) == (a00 * (a11 * a33 - a13 * a31) + a01 * -(a10 * a33 - a13 * a30) + a03 * (a10 * a31 - a11 * a30)));
    assert(cofactor4(m, 2, 3) == -(a00 * (a11 * a32 - a12 * a31) + a01 * -(a10 * a32 - a12 * a30) + a02 * (a10 * a31 - a11 * a30)));
    assert(cofactor4(m, 3, 0) == -(a01 * (a12 * a23 - a13 * a22) + a02 * -(a11 * a23 - a13 * a21) + a03 * (a11 * a22 - a12 * a21)));
    assert(cofactor4(m, 3, 1) == (a00 * (a12 * a23 - a13 * a22) + a02 * -(a10 * a23 - a13 * a20) + a03 * (a10 * a22 - a12 * a20)));
    assert(cofactor4(m, 3, 2) == -(a00 * (a11 * a23 - a13 * a21) + a01 * -(a10 * a23 - a13 * a20) + a03 * (a10 * a21 - a11 * a20)));
    assert(cofactor4(m, 3, 3) == (a00 * (a11 * a22 - a12 * a21) + a01 * -(a10 * a22 - a12 * a20) + a02 * (a10 * a21 - a11 * a20)));
}

/// Row 0 of a 4x4 matrix against every cofactor row: the determinant
/// against its own row, zero against the others. Each product is expanded
/// into monomials whose factors are put in order of position, after which the
/// sums cancel linearly.
proof fn lemma_adjugate4_row0(m: Seq<Seq<int>>)
    requires
        is_square(m, 4),
    ensures
        m[0][0] * cofactor4(m, 0, 0) + m[0][1] * cofactor4(m, 0, 1) + m[0][2] * cofactor4(m, 0, 2) + m[0][3] * cofactor4(m, 0, 3) == det4(m),
        m[0][0] * cofactor4(m, 1, 0) + m[0][1] * cofactor4(m, 1, 1) + m[0][2] * cofactor4(m, 1, 2) + m[0][3] * cofactor4(m, 1, 3) == 0,
        m[0][0] * cofactor4(m, 2, 0) + m[0][1] * cofactor4(m, 2, 1) + m[0][2] * cofactor4(m, 2, 2) + m[0][3] * cofactor4(m, 2, 3) == 0,
        m[0][0] * cofactor4(m, 3, 0) + m[0][1] * cofactor4(m, 3, 1) + m[0][2] * cofactor4(m, 3, 2) + m[0][3] * cofactor4(m, 3, 3) == 0,
{
    let a00 = m[0][0];
    let a01 = m[0][1];
    let a02 = m[0][2];
    let a03 = m[0][3];
    let a10 = m[1][0];
    let a11 = m[1][1];
    let a12 = m[1][2];
    let a13 = m[1][3];
    let a20 = m[2][0];
    let a21 = m[2][1];
    let a22 = m[2][2];
    let a23 = m[2][3];
    let a30 = m[3][0];
    let a31 = m[3][1];
    let a32 = m[3][2];
    let a33 = m[3][3];
    lemma_cofactor4_closed_forms(m);
    lemma_mul_is_distributive_add(a00, a11 * (a22 * a33 - a23 * a32) + a12 * -(a21 * a33 - a23 * a31), a13 * (a21 * a32 - a22 * a31));
    lemma_mul_is_distributive_add(a00, a11 * (a22 * a33 - a23 * a32), a12 * -(a21 * a33 - a23 * a31));
    lemma_expand(a00, a11, a22, a33, a23, a32);
    lemma_expand_neg(a00, a12, a21, a33, a23, a31);
    lemma_expand(a00, a13, a21, a32, a22, a31);
    lemma_mul_is_distributive_add(a01, a10 * (a22 * a33 - a23 * a32) + a12 * -(a20 * a33 - a23 * a30), a13 * (a20 * a32 - a22 * a30));
    lemma_mul_is_distributive_add(a01, a10 * (a22 * a33 - a23 * a32), a12 * -(a20 * a33 - a23 * a30));
    lemma_mul_unary_negation(a01, a10 * (a22 * a33 - a23 * a32) + a12 * -(a20 * a33 - a23 * a30) + a13 * (a20 * a32 - a22 * a30));
    lemma_expand(a01, a10, a22, a33, a23, a32);
    lemma_expand_neg(a01, a12, a20, a33, a23, a30);
    lemma_expand(a01, a13, a20, a32, a22, a30);
    lemma_mul_is_distributive_add(a02, a10 * (a21 * a33 - a23 * a31) + a11 * -(a20 * a33 - a23 * a30), a13 * (a20 * a31 - a21 * a30));
    lemma_mul_is_distributive_add(a02, a10 * (a21 * a33 - a23 * a31), a11 * -(a20 * a33 - a23 * a30));
    lemma_expand(a02, a10, a21, a33, a23, a31);
    lemma_expand_neg(a02, a11, a20, a33, a23, a30);
    lemma_expand(a02, a13, a20, a31, a21, a30);
    lemma_mul_is_distributive_add(a03, a10 * (a21 * a32 - a22 * a31) + a11 * -(a20 * a32 - a22 * a30), a12 * (a20 * a31 - a21 * a30));
    lemma_mul_is_distributive_add(a03, a10 * (a21 * a32 - a22 * a31), a11 * -(a20 * a32 - a22 * a30));
    lemma_mul_unary_negation(a03, a10 * (a21 * a32 - a22 * a31) + a11 * -(a20 * a32 - a22 * a30) + a12 * (a20 * a31 - a21 * a30));
    lemma_expand(a03, a10, a21, a32, a22, a31);
    lemma_expand_neg(a03, a11, a20, a32, a22, a30);
    lemma_expand(a03, a12, a20, a31, a21, a30);
    lemma_mul_is_distributive_add(a00, a01 * (a22 * a33 - a23 * a32) + a02 * -(a21 * a33 - a23 * a31), a03 * (a21 * a32 - a22 * a31));
    lemma_mul_is_distributive_add(a00, a01 * (a22 * a33 - a23 * a32), a02 * -(a21 * a33 - a23 * a31));
    lemma_mul_unary_negation(a00, a01 * (a22 * a33 - a23 * a32) + a02 * -(a21 * a33 - a23 * a31) + a03 * (a21 * a32 - a22 * a31));
    lemma_expand(a00, a01, a22, a33, a23, a32);
    lemma_expand_neg(a00, a02, a21, a33, a23, a31);
    lemma_expand(a00, a03, a21, a32, a22, a31);
    lemma_mul_is_distributive_add(a01, a00 * (a22 * a33 - a23 * a32) + a02 * -(a20 * a33 - a23 * a30), a03 * (a20 * a32 - a22 * a30));
    lemma_mul_is_distributive_add(a01, a00 * (a22 * a33 - a23 * a32), a02 * -(a20 * a33 - a23 * a30));
    lemma_expand(a01, a00, a22, a33, a23, a32);
    lemma_swap12(a01, a00, a22, a33);
    lemma_swap12(a01, a00, a23, a32);
    lemma_expand_neg(a01, a02, a20, a33, a23, a30);
    lemma_expand(a01, a03, a20, a32, a22, a30);
    lemma_mul_is_distributive_add(a02, a00 * (a21 * a33 - a23 * a31) + a01 * -(a20 * a33 - a23 * a30), a03 * (a20 * a31 - a21 * a30));
    lemma_mul_is_distributive_add(a02, a00 * (a21 * a33 - a23 * a31), a01 * -(a20 * a33 - a23 * a30));
    lemma_mul_unary_negation(a02, a00 * (a21 * a33 - a23 * a31) + a01 * -(a20 * a33 - a23 * a30) + a03 * (a20 * a31 - a21 * a30));
    lemma_expand(a02, a00, a21, a33, a23, a31);
    lemma_swap12(a02, a00, a21, a33);
    lemma_swap12(a02, a00, a23, a31);
    lemma_expand_neg(a02, a01, a20, a33, a23, a30);
    lemma_swap12(a02, a01, a20, a33);
    lemma_swap12(a02, a01, a23, a30);
    lemma_expand(a02, a03, a20, a31, a21, a30);
    lemma_mul_is_distributive_add(a03, a00 * (a21 * a32 - a22 * a31) + a01 * -(a20 * a32 - a22 * a30), a02 * (a20 * a31 - a21 * a30));
    lemma_mul_is_distributive_add(a03, a00 * (a21 * a32 - a22 * a31), a01 * -(a20 * a32 - a22 * a30));
    lemma_expand(a03, a00, a21, a32, a22, a31);
    lemma_swap12(a03, a00, a21, a32);
    lemma_swap12(a03, a00, a22, a31);
    lemma_expand_neg(a03, a01, a20, a32, a22, a30);
    lemma_swap12(a03, a01, a20, a32);
    lemma_swap12(a03, a01, a22, a30);
    lemma_expand(a03, a02, a20, a31, a21, a30);
    lemma_swap12(a03, a02, a20, a31);
    lemma_swap12(a03, a02, a21, a30);
    lemma_mul_is_distributive_add(a00, a01 * (a12 * a33 - a13 * a32) + a02 * -(a11 * a33 - a13 * a31), a03 * (a11 * a32 - a12 * a31));
    lemma_mul_is_distributive_add(a00, a01 * (a12 * a33 - a13 * a32), a02 * -(a11 * a33 - a13 * a31));
    lemma_expand(a00, a01, a12, a33, a13, a32);
    lemma_expand_neg(a00, a02, a11, a33, a13, a31);
    lemma_expand(a00, a03, a11, a32, a12, a31);
    lemma_mul_is_distributive_add(a01, a00 * (a12 * a33 - a13 * a32) + a02 * -(a10 * a33 - a13 * a30), a03 * (a10 * a32 - a12 * a30));
    lemma_mul_is_distributive_add(a01, a00 * (a12 * a33 - a13 * a32), a02 * -(a10 * a33 - a13 * a30));
    lemma_mul_unary_negation(a01, a00 * (a12 * a33 - a13 * a32) + a02 * -(a10 * a33 - a13 * a30) + a03 * (a10 * a32 - a12 * a30));
    lemma_expand(a01, a00, a12, a33, a13, a32);
    lemma_swap12(a01, a00, a12, a33);
    lemma_swap12(a01, a00, a13, a32);
    lemma_expand_neg(a01, a02, a10, a33, a13, a30);
    lemma_expand(a01, a03, a10, a32, a12, a30);
    lemma_mul_is_distributive_add(a02, a00 * (a11 * a33 - a13 * a31) + a01 * -(a10 * a33 - a13 * a30), a03 * (a10 * a31 - a11 * a30));
    lemma_mul_is_distributive_add(a02, a00 * (a11 * a33 - a13 * a31), a01 * -(a10 * a33 - a13 * a30));
    lemma_expand(a02, a00, a11, a33, a13, a31);
    lemma_swap12(a02, a00, a11, a33);
    lemma_swap12(a02, a00, a13, a31);
    lemma_expand_neg(a02, a01, a10, a33, a13, a30);
    lemma_swap12(a02, a01, a10, a33);
    lemma_swap12(a02, a01, a13, a30);
    lemma_expand(a02, a03, a10, a31, a11, a30);
    lemma_mul_is_distributive_add(a03, a00 * (a11 * a32 - a12 * a31) + a01 * -(a10 * a32 - a12 * a30), a02 * (a10 * a31 - a11 * a30));
    lemma_mul_is_distributive_add(a03, a00 * (a11 * a32 - a12 * a31), a01 * -(a10 * a32 - a12 * a30));
    lemma_mul_unary_negation(a03, a00 * (a11 * a32 - a12 * a31) + a01 * -(a10 * a32 - a12 * a30) + a02 * (a10 * a31 - a11 * a30));
    lemma_expand(a03, a00, a11, a32, a12, a31);
    lemma_swap12(a03, a00, a11, a32);
    lemma_swap12(a03, a00, a12, a31);
    lemma_expand_neg(a03, a01, a10, a32, a12, a30);
    lemma_swap12(a03, a01, a10, a32);
    lemma_swap12(a03, a01, a12, a30);
    lemma_expand(a03, a02, a10, a31, a11, a30);
    lemma_swap12(a03, a02, a10, a31);
    lemma_swap12(a03, a02, a11, a30);
    lemma_mul_is_distributive_add(a00, a01 * (a12 * a23 - a13 * a22) + a02 * -(a11 * a23 - a13 * a21), a03 * (a11 * a22 - a12 * a21));
    lemma_mul_is_distributive_add(a00, a01 * (a12 * a23 - a13 * a22), a02 * -(a11 * a23 - a13 * a21));
    lemma_mul_unary_negation(a00, a01 * (a12 * a23 - a13 * a22) + a02 * -(a11 * a23 - a13 * a21) + a03 * (a11 * a22 - a12 * a21));
    lemma_expand(a00, a01, a12, a23, a13, a22);
    lemma_expand_neg(a00, a02, a11, a23, a13, a21);
    lemma_expand(a00, a03, a11, a22, a12, a21);
    lemma_mul_is_distributive_add(a01, a00 * (a12 * a23 - a13 * a22) + a02 * -(a10 * a23 - a13 * a20), a03 * (a10 * a22 - a12 * a20));
    lemma_mul_is_distributive_add(a01, a00 * (a12 * a23 - a13 * a22), a02 * -(a10 * a23 - a13 * a20));
    lemma_expand(a01, a00, a12, a23, a13, a22);
    lemma_swap12(a01, a00, a12, a23);
    lemma_swap12(a01, a00, a13, a22);
    lemma_expand_neg(a01, a02, a10, a23, a13, a20);
    lemma_expand(a01, a03, a10, a22, a12, a20);
    lemma_mul_is_distributive_add(a02, a00 * (a11 * a23 - a13 * a21) + a01 * -(a10 * a23 - a13 * a20), a03 * (a10 * a21 - a11 * a20));
    lemma_mul_is_distributive_add(a02, a00 * (a11 * a23 - a13 * a21), a01 * -(a10 * a23 - a13 * a20));
    lemma_mul_unary_negation(a02, a00 * (a11 * a23 - a13 * a21) + a01 * -(a10 * a23 - a13 * a20) + a03 * (a10 * a21 - a11 * a20));
    lemma_expand(a02, a00, a11, a23, a13, a21);
    lemma_swap12(a02, a00, a11, a23);
    lemma_swap12(a02, a00, a13, a21);
    lemma_expand_neg(a02, a01, a10, a23, a13, a20);
    lemma_swap12(a02, a01, a10, a23);
    lemma_swap12(a02, a01, a13, a20);
    lemma_expand(a02, a03, a10, a21, a11, a20);
    lemma_mul_is_distributive_add(a03, a00 * (a11 * a22 - a12 * a21) + a01 * -(a10 * a22 - a12 * a20), a02 * (a10 * a21 - a11 * a20));
    lemma_mul_is_distributive_add(a03, a00 * (a11 * a22 - a12 * a21), a01 * -(a10 * a22 - a12 * a20));
    lemma_expand(a03, a00, a11, a22, a12, a21);
    lemma_swap12(a03, a00, a11, a22);
    lemma_swap12(a03, a00, a12, a21);
    lemma_expand_neg(a03, a01, a10, a22, a12, a20);
    lemma_swap12(a03, a01, a10, a22);
    lemma_swap12(a03, a01, a12, a20);
    lemma_expand(a03, a02, a10, a21, a11, a20);
    lemma_swap12(a03, a02, a10, a21);
    lemma_swap12(a03, a02, a11, a20);
}

/// Row 1 of a 4x4 matrix against every cofactor row: the determinant
/// against its own row, zero against the others. Each product is expanded
/// into monomials whose factors are put in order of position, after which the
/// sums cancel linearly.
proof fn lemma_adjugate4_row1(m: Seq<Seq<int>>)
    requires
        is_square(m, 4),
    ensures
        m[1][0] * cofactor4(m, 0, 0) + m[1][1] * cofactor4(m, 0, 1) + m[1][2] * cofactor4(m, 0, 2) + m[1][3] * cofactor4(m, 0, 3) == 0,
        m[1][0] * cofactor4(m, 1, 0) + m[1][1] * cofactor4(m, 1, 1) + m[1][2] * cofactor4(m, 1, 2) + m[1][3] * cofactor4(m, 1, 3) == det4(m),
        m[1][0] * cofactor4(m, 2, 0) + m[1][1] * cofactor4(m, 2, 1) + m[1][2] * cofactor4(m, 2, 2) + m[1][3] * cofactor4(m, 2, 3) == 0,
        m[1][0] * cofactor4(m, 3, 0) + m[1][1] * cofactor4(m, 3, 1) + m[1][2] * cofactor4(m, 3, 2) + m[1][3] * cofactor4(m, 3, 3) == 0,
{
    let a00 = m[0][0];
    let a01 = m[0][1];
    let a02 = m[0][2];
    let a03 = m[0][3];
    let a10 = m[1][0];
    let a11 = m[1][1];
    let a12 = m[1][2];
    let a13 = m[1][3];
    let a20 = m[2][0];
    let a21 = m[2][1];
    let a22 = m[2][2];
    let a23 = m[2][3];
    let a30 = m[3][0];
    let a31 = m[3][1];
    let a32 = m[3][2];
    let a33 = m[3][3];
    lemma_cofactor4_closed_forms(m);
    lemma_mul_is_distributive_add(a10, a11 * (a22 * a33 - a23 * a32) + a12 * -(a21 * a33 - a23 * a31), a13 * (a21 * a32 - a22 * a31));
    lemma_mul_is_distributive_add(a10, a11 * (a22 * a33 - a23 * a32), a12 * -(a21 * a33 - a23 * a31));
    lemma_expand(a10, a11, a22, a33, a23, a32);
    lemma_expand_neg(a10, a12, a21, a33, a23, a31);
    lemma_expand(a10, a13, a21, a32, a22, a31);
    lemma_mul_is_distributive_add(a11, a10 * (a22 * a33 - a23 * a32) + a12 * -(a20 * a33 - a23 * a30), a13 * (a20 * a32 - a22 * a30));
    lemma_mul_is_distributive_add(a11, a10 * (a22 * a33 - a23 * a32), a12 * -(a20 * a33 - a23 * a30));
    lemma_mul_unary_negation(a11, a10 * (a22 * a33 - a23 * a32) + a12 * -(a20 * a33 - a23 * a30) + a13 * (a20 * a32 - a22 * a30));
    lemma_expand(a11, a10, a22, a33, a23, a32);
    lemma_swap12(a11, a10, a22, a33);
    lemma_swap12(a11, a10, a23, a32);
    lemma_expand_neg(a11, a12, a20, a33, a23, a30);
    lemma_expand(a11, a13, a20, a32, a22, a30);
    lemma_mul_is_distributive_add(a12, a10 * (a21 * a33 - a23 * a31) + a11 * -(a20 * a33 - a23 * a30), a13 * (a20 * a31 - a21 * a30));
    lemma_mul_is_distributive_add(a12, a10 * (a21 * a33 - a23 * a31), a11 * -(a20 * a33 - a23 * a30));
    lemma_expand(a12, a10, a21, a33, a23, a31);
    lemma_swap12(a12, a10, a21, a33);
    lemma_swap12(a12, a10, a23, a31);
    lemma_expand_neg(a12, a11, a20, a33, a23, a30);
    lemma_swap12(a12, a11, a20, a33);
    lemma_swap12(a12, a11, a23, a30);
    lemma_expand(a12, a13, a20, a31, a21, a30);
    lemma_mul_is_distributive_add(a13, a10 * (a21 * a32 - a22 * a31) + a11 * -(a20 * a32 - a22 * a30), a12 * (a20 * a31 - a21 * a30));
    lemma_mul_is_distributive_add(a13, a10 * (a21 * a32 - a22 * a31), a11 * -(a20 * a32 - a22 * a30));
    lemma_mul_unary_negation(a13, a10 * (a21 * a32 - a22 * a31) + a11 * -(a20 * a32 - a22 * a30) + a12 * (a20 * a31 - a21 * a30));
    lemma_expand(a13, a10, a21, a32, a22, a31);
    lemma_swap12(a13, a10, a21, a32);
    lemma_swap12(a13, a10, a22, a31);
    lemma_expand_neg(a13, a11, a20, a32, a22, a30);
    lemma_swap12(a13, a11, a20, a32);
    lemma_swap12(a13, a11, a22, a30);
    lemma_expand(a13, a12, a20, a31, a21, a30);
    lemma_swap12(a13, a12, a20, a31);
    lemma_swap12(a13, a12, a21, a30);
    lemma_mul_is_distributive_add(a10, a01 * (a22 * a33 - a23 * a32) + a02 * -(a21 * a33 - a23 * a31), a03 * (a21 * a32 - a22 * a31));
    lemma_mul_is_distributive_add(a10, a01 * (a22 * a33 - a23 * a32), a02 * -(a21 * a33 - a23 * a31));
    lemma_mul_unary_negation(a10, a01 * (a22 * a33 - a23 * a32) + a02 * -(a21 * a33 - a23 * a31) + a03 * (a21 * a32 - a22 * a31));
    lemma_expand(a10, a01, a22, a33, a23, a32);
    lemma_swap12(a10, a01, a22, a33);
    lemma_swap12(a10, a01, a23, a32);
    lemma_expand_neg(a10, a02, a21, a33, a23, a31);
    lemma_swap12(a10, a02, a21, a33);
    lemma_swap12(a10, a02, a23, a31);
    lemma_expand(a10, a03, a21, a32, a22, a31);
    lemma_swap12(a10, a03, a21, a32);
    lemma_swap12(a10, a03, a22, a31);
    lemma_mul_is_distributive_add(a11, a00 * (a22 * a33 - a23 * a32) + a02 * -(a20 * a33 - a23 * a30), a03 * (a20 * a32 - a22 * a30));
    lemma_mul_is_distributive_add(a11, a00 * (a22 * a33 - a23 * a32), a02 * -(a20 * a33 - a23 * a30));
    lemma_expand(a11, a00, a22, a33, a23, a32);
    lemma_swap12(a11, a00, a22, a33);
    lemma_swap12(a11, a00, a23, a32);
    lemma_expand_neg(a11, a02, a20, a33, a23, a30);
    lemma_swap12(a11, a02, a20, a33);
    lemma_swap12(a11, a02, a23, a30);
    lemma_expand(a11, a03, a20, a32, a22, a30);
    lemma_swap12(a11, a03, a20, a32);
    lemma_swap12(a11, a03, a22, a30);
    lemma_mul_is_distributive_add(a12, a00 * (a21 * a33 - a23 * a31) + a01 * -(a20 * a33 - a23 * a30), a03 * (a20 * a31 - a21 * a30));
    lemma_mul_is_distributive_add(a12, a00 * (a21 * a33 - a23 * a31), a01 * -(a20 * a33 - a23 * a30));
    lemma_mul_unary_negation(a12, a00 * (a21 * a33 - a23 * a31) + a01 * -(a20 * a33 - a23 * a30) + a03 * (a20 * a31 - a21 * a30));
    lemma_expand(a12, a00, a21, a33, a23, a31);
    lemma_swap12(a12, a00, a21, a33);
    lemma_swap12(a12, a00, a23, a31);
    lemma_expand_neg(a12, a01, a20, a33, a23, a30);
    lemma_swap12(a12, a01, a20, a33);
    lemma_swap12(a12, a01, a23, a30);
    lemma_expand(a12, a03, a20, a31, a21, a30);
    lemma_swap12(a12, a03, a20, a31);
    lemma_swap12(a12, a03, a21, a30);
    lemma_mul_is_distributive_add(a13, a00 * (a21 * a32 - a22 * a31) + a01 * -(a20 * a32 - a22 * a30), a02 * (a20 * a31 - a21 * a30));
    lemma_mul_is_distributive_add(a13, a00 * (a21 * a32 - a22 * a31), a01 * -(a20 * a32 - a22 * a30));
    lemma_expand(a13, a00, a21, a32, a22, a31);
    lemma_swap12(a13, a00, a21, a32);
    lemma_swap12(a13, a00, a22, a31);
    lemma_expand_neg(a13, a01, a20, a32, a22, a30);
    lemma_swap12(a13, a01, a20, a32);
    lemma_swap12(a13, a01, a22, a30);
    lemma_expand(a13, a02, a20, a31, a21, a30);
    lemma_swap12(a13, a02, a20, a31);
    lemma_swap12(a13, a02, a21, a30);
    lemma_mul_is_distributive_add(a10, a01 * (a12 * a33 - a13 * a32) + a02 * -(a11 * a33 - a13 * a31), a03 * (a11 * a32 - a12 * a31));
    lemma_mul_is_distributive_add(a10, a01 * (a12 * a33 - a13 * a32), a02 * -(a11 * a33 - a13 * a31));
    lemma_expand(a10, a01, a12, a33, a13, a32);
    lemma_swap12(a10, a01, a12, a33);
    lemma_swap12(a10, a01, a13, a32);
    lemma_expand_neg(a10, a02, a11, a33, a13, a31);
    lemma_swap12(a10, a02, a11, a33);
    lemma_swap12(a10, a02, a13, a31);
    lemma_expand(a10, a03, a11, a32, a12, a31);
    lemma_swap12(a10, a03, a11, a32);
    lemma_swap12(a10, a03, a12, a31);
    lemma_mul_is_distributive_add(a11, a00 * (a12 * a33 - a13 * a32) + a02 * -(a10 * a33 - a13 * a30), a03 * (a10 * a32 - a12 * a30));
    lemma_mul_is_distributive_add(a11, a00 * (a12 * a33 - a13 * a32), a02 * -(a10 * a33 - a13 * a30));
    lemma_mul_unary_negation(a11, a00 * (a12 * a33 - a13 * a32) + a02 * -(a10 * a33 - a13 * a30) + a03 * (a10 * a32 - a12 * a30));
    lemma_expand(a11, a00, a12, a33, a13, a32);
    lemma_swap12(a11, a00, a12, a33);
    lemma_swap12(a11, a00, a13, a32);
    lemma_expand_neg(a11, a02, a10, a33, a13, a30);
    lemma_swap12(a11, a02, a10, a33);
    lemma_swap23(a02, a11, a10, a33);
    lemma_swap12(a11, a02, a13, a30);
    lemma_expand(a11, a03, a10, a32, a12, a30);
    lemma_swap12(a11, a03, a10, a32);
    lemma_swap23(a03, a11, a10, a32);
    lemma_swap12(a11, a03, a12, a30);
    lemma_mul_is_distributive_add(a12, a00 * (a11 * a33 - a13 * a31) + a01 * -(a10 * a33 - a13 * a30), a03 * (a10 * a31 - a11 * a30));
    lemma_mul_is_distributive_add(a12, a00 * (a11 * a33 - a13 * a31), a01 * -(a10 * a33 - a13 * a30));
    lemma_expand(a12, a00, a11, a33, a13, a31);
    lemma_swap12(a12, a00, a11, a33);
    lemma_swap23(a00, a12, a11, a33);
    lemma_swap12(a12, a00, a13, a31);
    lemma_expand_neg(a12, a01, a10, a33, a13, a30);
    lemma_swap12(a12, a01, a10, a33);
    lemma_swap23(a01, a12, a10, a33);
    lemma_swap12(a12, a01, a13, a30);
    lemma_expand(a12, a03, a10, a31, a11, a30);
    lemma_swap12(a12, a03, a10, a31);
    lemma_swap23(a03, a12, a10, a31);
    lemma_swap12(a12, a03, a11, a30);
    lemma_swap23(a03, a12, a11, a30);
    lemma_mul_is_distributive_add(a13, a00 * (a11 * a32 - a12 * a31) + a01 * -(a10 * a32 - a12 * a30), a02 * (a10 * a31 - a11 * a30));
    lemma_mul_is_distributive_add(a13, a00 * (a11 * a32 - a12 * a31), a01 * -(a10 * a32 - a12 * a30));
    lemma_mul_unary_negation(a13, a00 * (a11 * a32 - a12 * a31) + a01 * -(a10 * a32 - a12 * a30) + a02 * (a10 * a31 - a11 * a30));
    lemma_expand(a13, a00, a11, a32, a12, a31);
    lemma_swap12(a13, a00, a11, a32);
    lemma_swap23(a00, a13, a11, a32);
    lemma_swap12(a13, a00, a12, a31);
    lemma_swap23(a00, a13, a12, a31);
    lemma_expand_neg(a13, a01, a10, a32, a12, a30);
    lemma_swap12(a13, a01, a10, a32);
    lemma_swap23(a01, a13, a10, a32);
    lemma_swap12(a13, a01, a12, a30);
    lemma_swap23(a01, a13, a12, a30);
    lemma_expand(a13, a02, a10, a31, a11, a30);
    lemma_swap12(a13, a02, a10, a31);
    lemma_swap23(a02, a13, a10, a31);
    lemma_swap12(a13, a02, a11, a30);
    lemma_swap23(a02, a13, a11, a30);
    lemma_mul_is_distributive_add(a10, a01 * (a12 * a23 - a13 * a22) + a02 * -(a11 * a23 - a13 * a21), a03 * (a11 * a22 - a12 * a21));
    lemma_mul_is_distributive_add(a10, a01 * (a12 * a23 - a13 * a22), a02 * -(a11 * a23 - a13 * a21));
    lemma_mul_unary_negation(a10, a01 * (a12 * a23 - a13 * a22) + a02 * -(a11 * a23 - a13 * a21) + a03 * (a11 * a22 - a12 * a21));
    lemma_expand(a10, a01, a12, a23, a13, a22);
    lemma_swap12(a10, a01, a12, a23);
    lemma_swap12(a10, a01, a13, a22);
    lemma_expand_neg(a10, a02, a11, a23, a13, a21);
    lemma_swap12(a10, a02, a11, a23);
    lemma_swap12(a10, a02, a13, a21);
    lemma_expand(a10, a03, a11, a22, a12, a21);
    lemma_swap12(a10, a03, a11, a22);
    lemma_swap12(a10, a03, a12, a21);
    lemma_mul_is_distributive_add(a11, a00 * (a12 * a23 - a13 * a22) + a02 * -(a10 * a23 - a13 * a20), a03 * (a10 * a22 - a12 * a20));
    lemma_mul_is_distributive_add(a11, a00 * (a12 * a23 - a13 * a22), a02 * -(a10 * a23 - a13 * a20));
    lemma_expand(a11, a00, a12, a23, a13, a22);
    lemma_swap12(a11, a00, a12, a23);
    lemma_swap12(a11, a00, a13, a22);
    lemma_expand_neg(a11, a02, a10, a23, a13, a20);
    lemma_swap12(a11, a02, a10, a23);
    lemma_swap23(a02, a11, a10, a23);
    lemma_swap12(a11, a02, a13, a20);
    lemma_expand(a11, a03, a10, a22, a12, a20);
    lemma_swap12(a11, a03, a10, a22);
    lemma_swap23(a03, a11, a10, a22);
    lemma_swap12(a11, a03, a12, a20);
    lemma_mul_is_distributive_add(a12, a00 * (a11 * a23 - a13 * a21) + a01 * -(a10 * a23 - a13 * a20), a03 * (a10 * a21 - a11 * a20));
    lemma_mul_is_distributive_add(a12, a00 * (a11 * a23 - a13 * a21), a01 * -(a10 * a23 - a13 * a20));
    lemma_mul_unary_negation(a12, a00 * (a11 * a23 - a13 * a21) + a01 * -(a10 * a23 - a13 * a20) + a03 * (a10 * a21 - a11 * a20));
    lemma_expand(a12, a00, a11, a23, a13, a21);
    lemma_swap12(a12, a00, a11, a23);
    lemma_swap23(a00, a12, a11, a23);
    lemma_swap12(a12, a00, a13, a21);
    lemma_expand_neg(a12, a01, a10, a23, a13, a20);
    lemma_swap12(a12, a01, a10, a23);
    lemma_swap23(a01, a12, a10, a23);
    lemma_swap12(a12, a01, a13, a20);
    lemma_expand(a12, a03, a10, a21, a11, a20);
    lemma_swap12(a12, a03, a10, a21);
    lemma_swap23(a03, a12, a10, a21);
    lemma_swap12(a12, a03, a11, a20);
    lemma_swap23(a03, a12, a11, a20);
    lemma_mul_is_distributive_add(a13, a00 * (a11 * a22 - a12 * a21) + a01 * -(a10 * a22 - a12 * a20), a02 * (a10 * a21 - a11 * a20));
    lemma_mul_is_distributive_add(a13, a00 * (a11 * a22 - a12 * a21), a01 * -(a10 * a22 - a12 * a20));
    lemma_expand(a13, a00, a11, a22, a12, a21);
    lemma_swap12(a13, a00, a11, a22);
    lemma_swap23(a00, a13, a11, a22);
    lemma_swap12(a13, a00, a12, a21);
    lemma_swap23(a00, a13, a12, a21);
    lemma_expand_neg(a13, a01, a10, a22, a12, a20);
    lemma_swap12(a13, a01, a10, a22);
    lemma_swap23(a01, a13, a10, a22);
    lemma_swap12(a13, a01, a12, a20);
    lemma_swap23(a01, a13, a12, a20);
    lemma_expand(a13, a02, a10, a21, a11, a20);
    lemma_swap12(a13, a02, a10, a21);
    lemma_swap23(a02, a13, a10, a21);
    lemma_swap12(a13, a02, a11, a20);
    lemma_swap23(a02, a13, a11, a20);
    lemma_mul_is_distributive_add(a00, a11 * (a22 * a33 - a23 * a32) + a12 * -(a21 * a33 - a23 * a31), a13 * (a21 * a32 - a22 * a31));
    lemma_mul_is_distributive_add(a00, a11 * (a22 * a33 - a23 * a32), a12 * -(a21 * a33 - a23 * a31));
    lemma_expand(a00, a11, a22, a33, a23, a32);
    lemma_expand_neg(a00, a12, a21, a33, a23, a31);
    lemma_expand(a00, a13, a21, a32, a22, a31);
    lemma_mul_is_distributive_add(a01, a10 * (a22 * a33 - a23 * a32) + a12 * -(a20 * a33 - a23 * a30), a13 * (a20 * a32 - a22 * a30));
    lemma_mul_is_distributive_add(a01, a10 * (a22 * a33 - a23 * a32), a12 * -(a20 * a33 - a23 * a30));
    lemma_mul_unary_negation(a01, a10 * (a22 * a33 - a23 * a32) + a12 * -(a20 * a33 - a23 * a30) + a13 * (a20 * a32 - a22 * a30));
    lemma_expand(a01, a10, a22, a33, a23, a32);
    lemma_expand_neg(a01, a12, a20, a33, a23, a30);
    lemma_expand(a01, a13, a20, a32, a22, a30);
    lemma_mul_is_distributive_add(a02, a10 * (a21 * a33 - a23 * a31) + a11 * -(a20 * a33 - a23 * a30), a13 * (a20 * a31 - a21 * a30));
    lemma_mul_is_distributive_add(a02, a10 * (a21 * a33 - a23 * a31), a11 * -(a20 * a33 - a23 * a30));
    lemma_expand(a02, a10, a21, a33, a23, a31);
    lemma_expand_neg(a02, a11, a20, a33, a23, a30);
    lemma_expand(a02, a13, a20, a31, a21, a30);
    lemma_mul_is_distributive_add(a03, a10 * (a21 * a32 - a22 * a31) + a11 * -(a20 * a32 - a22 * a30), a12 * (a20 * a31 - a21 * a30));
    lemma_mul_is_distributive_add(a03, a10 * (a21 * a32 - a22 * a31), a11 * -(a20 * a32 - a22 * a30));
    lemma_mul_unary_negation(a03, a10 * (a21 * a32 - a22 * a31) + a11 * -(a20 * a32 - a22 * a30) + a12 * (a20 * a31 - a21 * a30));
    lemma_expand(a03, a10, a21, a32, a22, a31);
    lemma_expand_neg(a03, a11, a20, a32, a22, a30);
    lemma_expand(a03, a12, a20, a31, a21, a30);
}

/// Row 2 of a 4x4 matrix against every cofactor row: the determinant
/// against its own row, zero against the others. Each product is expanded
/// into monomials whose factors are put in order of position, after which the
/// sums cancel linearly.
proof fn lemma_adjugate4_row2(m: Seq<Seq<int>>)
    requires
        is_square(m, 4),
    ensures
        m[2][0] * cofactor4(m, 0, 0) + m[2][1] * cofactor4(m, 0, 1) + m[2][2] * cofactor4(m, 0, 2) + m[2][3] * cofactor4(m, 0, 3) == 0,
        m[2][0] * cofactor4(m, 1, 0) + m[2][1] * cofactor4(m, 1, 1) + m[2][2] * cofactor4(m, 1, 2) + m[2][3] * cofactor4(m, 1, 3) == 0,
        m[2][0] * cofactor4(m, 2, 0) + m[2][1] * cofactor4(m, 2, 1) + m[2][2] * cofactor4(m, 2, 2) + m[2][3] * cofactor4(m, 2, 3) == det4(m),
        m[2][0] * cofactor4(m, 3, 0) + m[2][1] * cofactor4(m, 3, 1) + m[2][2] * cofactor4(m, 3, 2) + m[2][3] * cofactor4(m, 3, 3) == 0,
{
    let a00 = m[0][0];
    let a01 = m[0][1];
    let a02 = m[0][2];
    let a03 = m[0][3];
    let a10 = m[1][0];
    let a11 = m[1][1];
    let a12 = m[1][2];
    let a13 = m[1][3];
    let a20 = m[2][0];
    let a21 = m[2][1];
    let a22 = m[2][2];
    let a23 = m[2][3];
    let a30 = m[3][0];
    let a31 = m[3][1];
    let a32 = m[3][2];
    let a33 = m[3][3];
    lemma_cofactor4_closed_forms(m);
    lemma_mul_is_distributive_add(a20, a11 * (a22 * a33 - a23 * a32) + a12 * -(a21 * a33 - a23 * a31), a13 * (a21 * a32 - a22 * a31));
    lemma_mul_is_distributive_add(a20, a11 * (a22 * a33 - a23 * a32), a12 * -(a21 * a33 - a23 * a31));
    lemma_expand(a20, a11, a22, a33, a23, a32);
    lemma_swap12(a20, a11, a22, a33);
    lemma_swap12(a20, a11, a23, a32);
    lemma_expand_neg(a20, a12, a21, a33, a23, a31);
    lemma_swap12(a20, a12, a21, a33);
    lemma_swap12(a20, a12, a23, a31);
    lemma_expand(a20, a13, a21, a32, a22, a31);
    lemma_swap12(a20, a13, a21, a32);
    lemma_swap12(a20, a13, a22, a31);
    lemma_mul_is_distributive_add(a21, a10 * (a22 * a33 - a23 * a32) + a12 * -(a20 * a33 - a23 * a30), a13 * (a20 * a32 - a22 * a30));
    lemma_mul_is_distributive_add(a21, a10 * (a22 * a33 - a23 * a32), a12 * -(a20 * a33 - a23 * a30));
    lemma_mul_unary_negation(a21, a10 * (a22 * a33 - a23 * a32) + a12 * -(a20 * a33 - a23 * a30) + a13 * (a20 * a32 - a22 * a30));
    lemma_expand(a21, a10, a22, a33, a23, a32);
    lemma_swap12(a21, a10, a22, a33);
    lemma_swap12(a21, a10, a23, a32);
    lemma_expand_neg(a21, a12, a20, a33, a23, a30);
    lemma_swap12(a21, a12, a20, a33);
    lemma_swap23(a12, a21, a20, a33);
    lemma_swap12(a21, a12, a23, a30);
    lemma_expand(a21, a13, a20, a32, a22, a30);
    lemma_swap12(a21, a13, a20, a32);
    lemma_swap23(a13, a21, a20, a32);
    lemma_swap12(a21, a13, a22, a30);
    lemma_mul_is_distributive_add(a22, a10 * (a21 * a33 - a23 * a31) + a11 * -(a20 * a33 - a23 * a30), a13 * (a20 * a31 - a21 * a30));
    lemma_mul_is_distributive_add(a22, a10 * (a21 * a33 - a23 * a31), a11 * -(a20 * a33 - a23 * a30));
    lemma_expand(a22, a10, a21, a33, a23, a31);
    lemma_swap12(a22, a10, a21, a33);
    lemma_swap23(a10, a22, a21, a33);
    lemma_swap12(a22, a10, a23, a31);
    lemma_expand_neg(a22, a11, a20, a33, a23, a30);
    lemma_swap12(a22, a11, a20, a33);
    lemma_swap23(a11, a22, a20, a33);
    lemma_swap12(a22, a11, a23, a30);
    lemma_expand(a22, a13, a20, a31, a21, a30);
    lemma_swap12(a22, a13, a20, a31);
    lemma_swap23(a13, a22, a20, a31);
    lemma_swap12(a22, a13, a21, a30);
    lemma_swap23(a13, a22, a21, a30);
    lemma_mul_is_distributive_add(a23, a10 * (a21 * a32 - a22 * a31) + a11 * -(a20 * a32 - a22 * a30), a12 * (a20 * a31 - a21 * a30));
    lemma_mul_is_distributive_add(a23, a10 * (a21 * a32 - a22 * a31), a11 * -(a20 * a32 - a22 * a30));
    lemma_mul_unary_negation(a23, a10 * (a21 * a32 - a22 * a31) + a11 * -(a20 * a32 - a22 * a30) + a12 * (a20 * a31 - a21 * a30));
    lemma_expand(a23, a10, a21, a32, a22, a31);
    lemma_swap12(a23, a10, a21, a32);
    lemma_swap23(a10, a23, a21, a32);
    lemma_swap12(a23, a10, a22, a31);
    lemma_swap23(a10, a23, a22, a31);
    lemma_expand_neg(a23, a11, a20, a32, a22, a30);
    lemma_swap12(a23, a11, a20, a32);
    lemma_swap23(a11, a23, a20, a32);
    lemma_swap12(a23, a11, a22, a30);
    lemma_swap23(a11, a23, a22, a30);
    lemma_expand(a23, a12, a20, a31, a21, a30);
    lemma_swap12(a23, a12, a20, a31);
    lemma_swap23(a12, a23, a20, a31);
    lemma_swap12(a23, a12, a21, a30);
    lemma_swap23(a12, a23, a21, a30);
    lemma_mul_is_distributive_add(a20, a01 * (a22 * a33 - a23 * a32) + a02 * -(a21 * a33 - a23 * a31), a03 * (a21 * a32 - a22 * a31));
    lemma_mul_is_distributive_add(a20, a01 * (a22 * a33 - a23 * a32), a02 * -(a21 * a33 - a23 * a31));
    lemma_mul_unary_negation(a20, a01 * (a22 * a33 - a23 * a32) + a02 * -(a21 * a33 - a23 * a31) + a03 * (a21 * a32 - a22 * a31));
    lemma_expand(a20, a01, a22, a33, a23, a32);
    lemma_swap12(a20, a01, a22, a33);
    lemma_swap12(a20, a01, a23, a32);
    lemma_expand_neg(a20, a02, a21, a33, a23, a31);
    lemma_swap12(a20, a02, a21, a33);
    lemma_swap12(a20, a02, a23, a31);
    lemma_expand(a20, a03, a21, a32, a22, a31);
    lemma_swap12(a20, a03, a21, a32);
    lemma_swap12(a20, a03, a22, a31);
    lemma_mul_is_distributive_add(a21, a00 * (a22 * a33 - a23 * a32) + a02 * -(a20 * a33 - a23 * a30), a03 * (a20 * a32 - a22 * a30));
    lemma_mul_is_distributive_add(a21, a00 * (a22 * a33 - a23 * a32), a02 * -(a20 * a33 - a23 * a30));
    lemma_expand(a21, a00, a22, a33, a23, a32);
    lemma_swap12(a21, a00, a22, a33);
    lemma_swap12(a21, a00, a23, a32);
    lemma_expand_neg(a21, a02, a20, a33, a23, a30);
    lemma_swap12(a21, a02, a20, a33);
    lemma_swap23(a02, a21, a20, a33);
    lemma_swap12(a21, a02, a23, a30);
    lemma_expand(a21, a03, a20, a32, a22, a30);
    lemma_swap12(a21, a03, a20, a32);
    lemma_swap23(a03, a21, a20, a32);
    lemma_swap12(a21, a03, a22, a30);
    lemma_mul_is_distributive_add(a22, a00 * (a21 * a33 - a23 * a31) + a01 * -(a20 * a33 - a23 * a30), a03 * (a20 * a31 - a21 * a30));
    lemma_mul_is_distributive_add(a22, a00 * (a21 * a33 - a23 * a31), a01 * -(a20 * a33 - a23 * a30));
    lemma_mul_unary_negation(a22, a00 * (a21 * a33 - a23 * a31) + a01 * -(a20 * a33 - a23 * a30) + a03 * (a20 * a31 - a21 * a30));
    lemma_expand(a22, a00, a21, a33, a23, a31);
    lemma_swap12(a22, a00, a21, a33);
    lemma_swap23(a00, a22, a21, a33);
    lemma_swap12(a22, a00, a23, a31);
    lemma_expand_neg(a22, a01, a20, a33, a23, a30);
    lemma_swap12(a22, a01, a20, a33);
    lemma_swap23(a01, a22, a20, a33);
    lemma_swap12(a22, a01, a23, a30);
    lemma_expand(a22, a03, a20, a31, a21, a30);
    lemma_swap12(a22, a03, a20, a31);
    lemma_swap23(a03, a22, a20, a31);
    lemma_swap12(a22, a03, a21, a30);
    lemma_swap23(a03, a22, a21, a30);
    lemma_mul_is_distributive_add(a23, a00 * (a21 * a32 - a22 * a31) + a01 * -(a20 * a32 - a22 * a30), a02 * (a20 * a31 - a21 * a30));
    lemma_mul_is_distributive_add(a23, a00 * (a21 * a32 - a22 * a31), a01 * -(a20 * a32 - a22 * a30));
    lemma_expand(a23, a00, a21, a32, a22, a31);
    lemma_swap12(a23, a00, a21, a32);
    lemma_swap23(a00, a23, a21, a32);
    lemma_swap12(a23, a00, a22, a31);
    lemma_swap23(a00, a23, a22, a31);
    lemma_expand_neg(a23, a01, a20, a32, a22, a30);
    lemma_swap12(a23, a01, a20, a32);
    lemma_swap23(a01, a23, a20, a32);
    lemma_swap12(a23, a01, a22, a30);
    lemma_swap23(a01, a23, a22, a30);
    lemma_expand(a23, a02, a20, a31, a21, a30);
    lemma_swap12(a23, a02, a20, a31);
    lemma_swap23(a02, a23, a20, a31);
    lemma_swap12(a23, a02, a21, a30);
    lemma_swap23(a02, a23, a21, a30);
    lemma_mul_is_distributive_add(a20, a01 * (a12 * a33 - a13 * a32) + a02 * -(a11 * a33 - a13 * a31), a03 * (a11 * a32 - a12 * a31));
    lemma_mul_is_distributive_add(a20, a01 * (a12 * a33 - a13 * a32), a02 * -(a11 * a33 - a13 * a31));
    lemma_expand(a20, a01, a12, a33, a13, a32);
    lemma_swap12(a20, a01, a12, a33);
    lemma_swap23(a01, a20, a12, a33);
    lemma_swap12(a20, a01, a13, a32);
    lemma_swap23(a01, a20, a13, a32);
    lemma_expand_neg(a20, a02, a11, a33, a13, a31);
    lemma_swap12(a20, a02, a11, a33);
    lemma_swap23(a02, a20, a11, a33);
    lemma_swap12(a20, a02, a13, a31);
    lemma_swap23(a02, a20, a13, a31);
    lemma_expand(a20, a03, a11, a32, a12, a31);
    lemma_swap12(a20, a03, a11, a32);
    lemma_swap23(a03, a20, a11, a32);
    lemma_swap12(a20, a03, a12, a31);
    lemma_swap23(a03, a20, a12, a31);
    lemma_mul_is_distributive_add(a21, a00 * (a12 * a33 - a13 * a32) + a02 * -(a10 * a33 - a13 * a30), a03 * (a10 * a32 - a12 * a30));
    lemma_mul_is_distributive_add(a21, a00 * (a12 * a33 - a13 * a32), a02 * -(a10 * a33 - a13 * a30));
    lemma_mul_unary_negation(a21, a00 * (a12 * a33 - a13 * a32) + a02 * -(a10 * a33 - a13 * a30) + a03 * (a10 * a32 - a12 * a30));
    lemma_expand(a21, a00, a12, a33, a13, a32);
    lemma_swap12(a21, a00, a12, a33);
    lemma_swap23(a00, a21, a12, a33);
    lemma_swap12(a21, a00, a13, a32);
    lemma_swap23(a00, a21, a13, a32);
    lemma_expand_neg(a21, a02, a10, a33, a13, a30);
    lemma_swap12(a21, a02, a10, a33);
    lemma_swap23(a02, a21, a10, a33);
    lemma_swap12(a21, a02, a13, a30);
    lemma_swap23(a02, a21, a13, a30);
    lemma_expand(a21, a03, a10, a32, a12, a30);
    lemma_swap12(a21, a03, a10, a32);
    lemma_swap23(a03, a21, a10, a32);
    lemma_swap12(a21, a03, a12, a30);
    lemma_swap23(a03, a21, a12, a30);
    lemma_mul_is_distributive_add(a22, a00 * (a11 * a33 - a13 * a31) + a01 * -(a10 * a33 - a13 * a30), a03 * (a10 * a31 - a11 * a30));
    lemma_mul_is_distributive_add(a22, a00 * (a11 * a33 - a13 * a31), a01 * -(a10 * a33 - a13 * a30));
    lemma_expand(a22, a00, a11, a33, a13, a31);
    lemma_swap12(a22, a00, a11, a33);
    lemma_swap23(a00, a22, a11, a33);
    lemma_swap12(a22, a00, a13, a31);
    lemma_swap23(a00, a22, a13, a31);
    lemma_expand_neg(a22, a01, a10, a33, a13, a30);
    lemma_swap12(a22, a01, a10, a33);
    lemma_swap23(a01, a22, a10, a33);
    lemma_swap12(a22, a01, a13, a30);
    lemma_swap23(a01, a22, a13, a30);
    lemma_expand(a22, a03, a10, a31, a11, a30);
    lemma_swap12(a22, a03, a10, a31);
    lemma_swap23(a03, a22, a10, a31);
    lemma_swap12(a22, a03, a11, a30);
    lemma_swap23(a03, a22, a11, a30);
    lemma_mul_is_distributive_add(a23, a00 * (a11 * a32 - a12 * a31) + a01 * -(a10 * a32 - a12 * a30), a02 * (a10 * a31 - a11 * a30));
    lemma_mul_is_distributive_add(a23, a00 * (a11 * a32 - a12 * a31), a01 * -(a10 * a32 - a12 * a30));
    lemma_mul_unary_negation(a23, a00 * (a11 * a32 - a12 * a31) + a01 * -(a10 * a32 - a12 * a30) + a02 * (a10 * a31 - a11 * a30));
    lemma_expand(a23, a00, a11, a32, a12, a31);
    lemma_swap12(a23, a00, a11, a32);
    lemma_swap23(a00, a23, a11, a32);
    lemma_swap12(a23, a00, a12, a31);
    lemma_swap23(a00, a23, a12, a31);
    lemma_expand_neg(a23, a01, a10, a32, a12, a30);
    lemma_swap12(a23, a01, a10, a32);
    lemma_swap23(a01, a23, a10, a32);
    lemma_swap12(a23, a01, a12, a30);
    lemma_swap23(a01, a23, a12, a30);
    lemma_expand(a23, a02, a10, a31, a11, a30);
    lemma_swap12(a23, a02, a10, a31);
    lemma_swap23(a02, a23, a10, a31);
    lemma_swap12(a23, a02, a11, a30);
    lemma_swap23(a02, a23, a11, a30);
    lemma_mul_is_distributive_add(a20, a01 * (a12 * a23 - a13 * a22) + a02 * -(a11 * a23 - a13 * a21), a03 * (a11 * a22 - a12 * a21));
    lemma_mul_is_distributive_add(a20, a01 * (a12 * a23 - a13 * a22), a02 * -(a11 * a23 - a13 * a21));
    lemma_mul_unary_negation(a20, a01 * (a12 * a23 - a13 * a22) + a02 * -(a11 * a23 - a13 * a21) + a03 * (a11 * a22 - a12 * a21));
    lemma_expand(a20, a01, a12, a23, a13, a22);
    lemma_swap12(a20, a01, a12, a23);
    lemma_swap23(a01, a20, a12, a23);
    lemma_swap12(a20, a01, a13, a22);
    lemma_swap23(a01, a20, a13, a22);
    lemma_expand_neg(a20, a02, a11, a23, a13, a21);
    lemma_swap12(a20, a02, a11, a23);
    lemma_swap23(a02, a20, a11, a23);
    lemma_swap12(a20, a02, a13, a21);
    lemma_swap23(a02, a20, a13, a21);
    lemma_expand(a20, a03, a11, a22, a12, a21);
    lemma_swap12(a20, a03, a11, a22);
    lemma_swap23(a03, a20, a11, a22);
    lemma_swap12(a20, a03, a12, a21);
    lemma_swap23(a03, a20, a12, a21);
    lemma_mul_is_distributive_add(a21, a00 * (a12 * a23 - a13 * a22) + a02 * -(a10 * a23 - a13 * a20), a03 * (a10 * a22 - a12 * a20));
    lemma_mul_is_distributive_add(a21, a00 * (a12 * a23 - a13 * a22), a02 * -(a10 * a23 - a13 * a20));
    lemma_expand(a21, a00, a12, a23, a13, a22);
    lemma_swap12(a21, a00, a12, a23);
    lemma_swap23(a00, a21, a12, a23);
    lemma_swap12(a21, a00, a13, a22);
    lemma_swap23(a00, a21, a13, a22);
    lemma_expand_neg(a21, a02, a10, a23, a13, a20);
    lemma_swap12(a21, a02, a10, a23);
    lemma_swap23(a02, a21, a10, a23);
    lemma_swap12(a21, a02, a13, a20);
    lemma_swap23(a02, a21, a13, a20);
    lemma_swap34(a02, a13, a21, a20);
    lemma_expand(a21, a03, a10, a22, a12, a20);
    lemma_swap12(a21, a03, a10, a22);
    lemma_swap23(a03, a21, a10, a22);
    lemma_swap12(a21, a03, a12, a20);
    lemma_swap23(a03, a21, a12, a20);
    lemma_swap34(a03, a12, a21, a20);
    lemma_mul_is_distributive_add(a22, a00 * (a11 * a23 - a13 * a21) + a01 * -(a10 * a23 - a13 * a20), a03 * (a10 * a21 - a11 * a20));
    lemma_mul_is_distributive_add(a22, a00 * (a11 * a23 - a13 * a21), a01 * -(a10 * a23 - a13 * a20));
    lemma_mul_unary_negation(a22, a00 * (a11 * a23 - a13 * a21) + a01 * -(a10 * a23 - a13 * a20) + a03 * (a10 * a21 - a11 * a20));
    lemma_expand(a22, a00, a11, a23, a13, a21);
    lemma_swap12(a22, a00, a11, a23);
    lemma_swap23(a00, a22, a11, a23);
    lemma_swap12(a22, a00, a13, a21);
    lemma_swap23(a00, a22, a13, a21);
    lemma_swap34(a00, a13, a22, a21);
    lemma_expand_neg(a22, a01, a10, a23, a13, a20);
    lemma_swap12(a22, a01, a10, a23);
    lemma_swap23(a01, a22, a10, a23);
    lemma_swap12(a22, a01, a13, a20);
    lemma_swap23(a01, a22, a13, a20);
    lemma_swap34(a01, a13, a22, a20);
    lemma_expand(a22, a03, a10, a21, a11, a20);
    lemma_swap12(a22, a03, a10, a21);
    lemma_swap23(a03, a22, a10, a21);
    lemma_swap34(a03, a10, a22, a21);
    lemma_swap12(a22, a03, a11, a20);
    lemma_swap23(a03, a22, a11, a20);
    lemma_swap34(a03, a11, a22, a20);
    lemma_mul_is_distributive_add(a23, a00 * (a11 * a22 - a12 * a21) + a01 * -(a10 * a22 - a12 * a20), a02 * (a10 * a21 - a11 * a20));
    lemma_mul_is_distributive_add(a23, a00 * (a11 * a22 - a12 * a21), a01 * -(a10 * a22 - a12 * a20));
    lemma_expand(a23, a00, a11, a22, a12, a21);
    lemma_swap12(a23, a00, a11, a22);
    lemma_swap23(a00, a23, a11, a22);
    lemma_swap34(a00, a11, a23, a22);
    lemma_swap12(a23, a00, a12, a21);
    lemma_swap23(a00, a23, a12, a21);
    lemma_swap34(a00, a12, a23, a21);
    lemma_expand_neg(a23, a01, a10, a22, a12, a20);
    lemma_swap12(a23, a01, a10, a22);
    lemma_swap23(a01, a23, a10, a22);
    lemma_swap34(a01, a10, a23, a22);
    lemma_swap12(a23, a01, a12, a20);
    lemma_swap23(a01, a23, a12, a20);
    lemma_swap34(a01, a12, a23, a20);
    lemma_expand(a23, a02, a10, a21, a11, a20);
    lemma_swap12(a23, a02, a10, a21);
    lemma_swap23(a02, a23, a10, a21);
    lemma_swap34(a02, a10, a23, a21);
    lemma_swap12(a23, a02, a11, a20);
    lemma_swap23(a02, a23, a11, a20);
    lemma_swap34(a02, a11, a23, a20);
    lemma_mul_is_distributive_add(a00, a11 * (a22 * a33 - a23 * a32) + a12 * -(a21 * a33 - a23 * a31), a13 * (a21 * a32 - a22 * a31));
    lemma_mul_is_distributive_add(a00, a11 * (a22 * a33 - a23 * a32), a12 * -(a21 * a33 - a23 * a31));
    lemma_expand(a00, a11, a22, a33, a23, a32);
    lemma_expand_neg(a00, a12, a21, a33, a23, a31);
    lemma_expand(a00, a13, a21, a32, a22, a31);
    lemma_mul_is_distributive_add(a01, a10 * (a22 * a33 - a23 * a32) + a12 * -(a20 * a33 - a23 * a30), a13 * (a20 * a32 - a22 * a30));
    lemma_mul_is_distributive_add(a01, a10 * (a22 * a33 - a23 * a32), a12 * -(a20 * a33 - a23 * a30));
    lemma_mul_unary_negation(a01, a10 * (a22 * a33 - a23 * a32) + a12 * -(a20 * a33 - a23 * a30) + a13 * (a20 * a32 - a22 * a30));
    lemma_expand(a01, a10, a22, a33, a23, a32);
    lemma_expand_neg(a01, a12, a20, a33, a23, a30);
    lemma_expand(a01, a13, a20, a32, a22, a30);
    lemma_mul_is_distributive_add(a02, a10 * (a21 * a33 - a23 * a31) + a11 * -(a20 * a33 - a23 * a30), a13 * (a20 * a31 - a21 * a30));
    lemma_mul_is_distributive_add(a02, a10 * (a21 * a33 - a23 * a31), a11 * -(a20 * a33 - a23 * a30));
    lemma_expand(a02, a10, a21, a33, a23, a31);
    lemma_expand_neg(a02, a11, a20, a33, a23, a30);
    lemma_expand(a02, a13, a20, a31, a21, a30);
    lemma_mul_is_distributive_add(a03, a10 * (a21 * a32 - a22 * a31) + a11 * -(a20 * a32 - a22 * a30), a12 * (a20 * a31 - a21 * a30));
    lemma_mul_is_distributive_add(a03, a10 * (a21 * a32 - a22 * a31), a11 * -(a20 * a32 - a22 * a30));
    lemma_mul_unary_negation(a03, a10 * (a21 * a32 - a22 * a31) + a11 * -(a20 * a32 - a22 * a30) + a12 * (a20 * a31 - a21 * a30));
    lemma_expand(a03, a10, a21, a32, a22, a31);
    lemma_expand_neg(a03, a11, a20, a32, a22, a30);
    lemma_expand(a03, a12, a20, a31, a21, a30);
}

/// Row 3 of a 4x4 matrix against every cofactor row: the determinant
/// against its own row, zero against the others. Each product is expanded
/// into monomials whose factors are put in order of position, after which the
/// sums cancel linearly.
proof fn lemma_adjugate4_row3(m: Seq<Seq<int>>)
    requires
        is_square(m, 4),
    ensures
        m[3][0] * cofactor4(m, 0, 0) + m[3][1] * cofactor4(m, 0, 1) + m[3][2] * cofactor4(m, 0, 2) + m[3][3] * cofactor4(m, 0, 3) == 0,
        m[3][0] * cofactor4(m, 1, 0) + m[3][1] * cofactor4(m, 1, 1) + m[3][2] * cofactor4(m, 1, 2) + m[3][3] * cofactor4(m, 1, 3) == 0,
        m[3][0] * cofactor4(m, 2, 0) + m[3][1] * cofactor4(m, 2, 1) + m[3][2] * cofactor4(m, 2, 2) + m[3][3] * cofactor4(m, 2, 3) == 0,
        m[3][0] * cofactor4(m, 3, 0) + m[3][1] * cofactor4(m, 3, 1) + m[3][2] * cofactor4(m, 3, 2) + m[3][3] * cofactor4(m, 3, 3) == det4(m),
{
    let a00 = m[0][0];
    let a01 = m[0][1];
    let a02 = m[0][2];
    let a03 = m[0][3];
    let a10 = m[1][0];
    let a11 = m[1][1];
    let a12 = m[1][2];
    let a13 = m[1][3];
    let a20 = m[2][0];
    let a21 = m[2][1];
    let a22 = m[2][2];
    let a23 = m[2][3];
    let a30 = m[3][0];
    let a31 = m[3][1];
    let a32 = m[3][2];
    let a33 = m[3][3];
    lemma_cofactor4_closed_forms(m);
    lemma_mul_is_distributive_add(a30, a11 * (a22 * a33 - a23 * a32) + a12 * -(a21 * a33 - a23 * a31), a13 * (a21 * a32 - a22 * a31));
    lemma_mul_is_distributive_add(a30, a11 * (a22 * a33 - a23 * a32), a12 * -(a21 * a33 - a23 * a31));
    lemma_expand(a30, a11, a22, a33, a23, a32);
    lemma_swap12(a30, a11, a22, a33);
    lemma_swap23(a11, a30, a22, a33);
    lemma_swap12(a30, a11, a23, a32);
    lemma_swap23(a11, a30, a23, a32);
    lemma_expand_neg(a30, a12, a21, a33, a23, a31);
    lemma_swap12(a30, a12, a21, a33);
    lemma_swap23(a12, a30, a21, a33);
    lemma_swap12(a30, a12, a23, a31);
    lemma_swap23(a12, a30, a23, a31);
    lemma_expand(a30, a13, a21, a32, a22, a31);
    lemma_swap12(a30, a13, a21, a32);
    lemma_swap23(a13, a30, a21, a32);
    lemma_swap12(a30, a13, a22, a31);
    lemma_swap23(a13, a30, a22, a31);
    lemma_mul_is_distributive_add(a31, a10 * (a22 * a33 - a23 * a32) + a12 * -(a20 * a33 - a23 * a30), a13 * (a20 * a32 - a22 * a30));
    lemma_mul_is_distributive_add(a31, a10 * (a22 * a33 - a23 * a32), a12 * -(a20 * a33 - a23 * a30));
    lemma_mul_unary_negation(a31, a10 * (a22 * a33 - a23 * a32) + a12 * -(a20 * a33 - a23 * a30) + a13 * (a20 * a32 - a22 * a30));
    lemma_expand(a31, a10, a22, a33, a23, a32);
    lemma_swap12(a31, a10, a22, a33);
    lemma_swap23(a10, a31, a22, a33);
    lemma_swap12(a31, a10, a23, a32);
    lemma_swap23(a10, a31, a23, a32);
    lemma_expand_neg(a31, a12, a20, a33, a23, a30);
    lemma_swap12(a31, a12, a20, a33);
    lemma_swap23(a12, a31, a20, a33);
    lemma_swap12(a31, a12, a23, a30);
    lemma_swap23(a12, a31, a23, a30);
    lemma_swap34(a12, a23, a31, a30);
    lemma_expand(a31, a13, a20, a32, a22, a30);
    lemma_swap12(a31, a13, a20, a32);
    lemma_swap23(a13, a31, a20, a32);
    lemma_swap12(a31, a13, a22, a30);
    lemma_swap23(a13, a31, a22, a30);
    lemma_swap34(a13, a22, a31, a30);
    lemma_mul_is_distributive_add(a32, a10 * (a21 * a33 - a23 * a31) + a11 * -(a20 * a33 - a23 * a30), a13 * (a20 * a31 - a21 * a30));
    lemma_mul_is_distributive_add(a32, a10 * (a21 * a33 - a23 * a31), a11 * -(a20 * a33 - a23 * a30));
    lemma_expand(a32, a10, a21, a33, a23, a31);
    lemma_swap12(a32, a10, a21, a33);
    lemma_swap23(a10, a32, a21, a33);
    lemma_swap12(a32, a10, a23, a31);
    lemma_swap23(a10, a32, a23, a31);
    lemma_swap34(a10, a23, a32, a31);
    lemma_expand_neg(a32, a11, a20, a33, a23, a30);
    lemma_swap12(a32, a11, a20, a33);
    lemma_swap23(a11, a32, a20, a33);
    lemma_swap12(a32, a11, a23, a30);
    lemma_swap23(a11, a32, a23, a30);
    lemma_swap34(a11, a23, a32, a30);
    lemma_expand(a32, a13, a20, a31, a21, a30);
    lemma_swap12(a32, a13, a20, a31);
    lemma_swap23(a13, a32, a20, a31);
    lemma_swap34(a13, a20, a32, a31);
    lemma_swap12(a32, a13, a21, a30);
    lemma_swap23(a13, a32, a21, a30);
    lemma_swap34(a13, a21, a32, a30);
    lemma_mul_is_distributive_add(a33, a10 * (a21 * a32 - a22 * a31) + a11 * -(a20 * a32 - a22 * a30), a12 * (a20 * a31 - a21 * a30));
    lemma_mul_is_distributive_add(a33, a10 * (a21 * a32 - a22 * a31), a11 * -(a20 * a32 - a22 * a30));
    lemma_mul_unary_negation(a33, a10 * (a21 * a32 - a22 * a31) + a11 * -(a20 * a32 - a22 * a30) + a12 * (a20 * a31 - a21 * a30));
    lemma_expand(a33, a10, a21, a32, a22, a31);
    lemma_swap12(a33, a10, a21, a32);
    lemma_swap23(a10, a33, a21, a32);
    lemma_swap34(a10, a21, a33, a32);
    lemma_swap12(a33, a10, a22, a31);
    lemma_swap23(a10, a33, a22, a31);
    lemma_swap34(a10, a22, a33, a31);
    lemma_expand_neg(a33, a11, a20, a32, a22, a30);
    lemma_swap12(a33, a11, a20, a32);
    lemma_swap23(a11, a33, a20, a32);
    lemma_swap34(a11, a20, a33, a32);
    lemma_swap12(a33, a11, a22, a30);
    lemma_swap23(a11, a33, a22, a30);
    lemma_swap34(a11, a22, a33, a30);
    lemma_expand(a33, a12, a20, a31, a21, a30);
    lemma_swap12(a33, a12, a20, a31);
    lemma_swap23(a12, a33, a20, a31);
    lemma_swap34(a12, a20, a33, a31);
    lemma_swap12(a33, a12, a21, a30);
    lemma_swap23(a12, a33, a21, a30);
    lemma_swap34(a12, a21, a33, a30);
    lemma_mul_is_distributive_add(a30, a01 * (a22 * a33 - a23 * a32) + a02 * -(a21 * a33 - a23 * a31), a03 * (a21 * a32 - a22 * a31));
    lemma_mul_is_distributive_add(a30, a01 * (a22 * a33 - a23 * a32), a02 * -(a21 * a33 - a23 * a31));
    lemma_mul_unary_negation(a30, a01 * (a22 * a33 - a23 * a32) + a02 * -(a21 * a33 - a23 * a31) + a03 * (a21 * a32 - a22 * a31));
    lemma_expand(a30, a01, a22, a33, a23, a32);
    lemma_swap12(a30, a01, a22, a33);
    lemma_swap23(a01, a30, a22, a33);
    lemma_swap12(a30, a01, a23, a32);
    lemma_swap23(a01, a30, a23, a32);
    lemma_expand_neg(a30, a02, a21, a33, a23, a31);
    lemma_swap12(a30, a02, a21, a33);
    lemma_swap23(a02, a30, a21, a33);
    lemma_swap12(a30, a02, a23, a31);
    lemma_swap23(a02, a30, a23, a31);
    lemma_expand(a30, a03, a21, a32, a22, a31);
    lemma_swap12(a30, a03, a21, a32);
    lemma_swap23(a03, a30, a21, a32);
    lemma_swap12(a30, a03, a22, a31);
    lemma_swap23(a03, a30, a22, a31);
    lemma_mul_is_distributive_add(a31, a00 * (a22 * a33 - a23 * a32) + a02 * -(a20 * a33 - a23 * a30), a03 * (a20 * a32 - a22 * a30));
    lemma_mul_is_distributive_add(a31, a00 * (a22 * a33 - a23 * a32), a02 * -(a20 * a33 - a23 * a30));
    lemma_expand(a31, a00, a22, a33, a23, a32);
    lemma_swap12(a31, a00, a22, a33);
    lemma_swap23(a00, a31, a22, a33);
    lemma_swap12(a31, a00, a23, a32);
    lemma_swap23(a00, a31, a23, a32);
    lemma_expand_neg(a31, a02, a20, a33, a23, a30);
    lemma_swap12(a31, a02, a20, a33);
    lemma_swap23(a02, a31, a20, a33);
    lemma_swap12(a31, a02, a23, a30);
    lemma_swap23(a02, a31, a23, a30);
    lemma_swap34(a02, a23, a31, a30);
    lemma_expand(a31, a03, a20, a32, a22, a30);
    lemma_swap12(a31, a03, a20, a32);
    lemma_swap23(a03, a31, a20, a32);
    lemma_swap12(a31, a03, a22, a30);
    lemma_swap23(a03, a31, a22, a30);
    lemma_swap34(a03, a22, a31, a30);
    lemma_mul_is_distributive_add(a32, a00 * (a21 * a33 - a23 * a31) + a01 * -(a20 * a33 - a23 * a30), a03 * (a20 * a31 - a21 * a30));
    lemma_mul_is_distributive_add(a32, a00 * (a21 * a33 - a23 * a31), a01 * -(a20 * a33 - a23 * a30));
    lemma_mul_unary_negation(a32, a00 * (a21 * a33 - a23 * a31) + a01 * -(a20 * a33 - a23 * a30) + a03 * (a20 * a31 - a21 * a30));
    lemma_expand(a32, a00, a21, a33, a23, a31);
    lemma_swap12(a32, a00, a21, a33);
    lemma_swap23(a00, a32, a21, a33);
    lemma_swap12(a32, a00, a23, a31);
    lemma_swap23(a00, a32, a23, a31);
    lemma_swap34(a00, a23, a32, a31);
    lemma_expand_neg(a32, a01, a20, a33, a23, a30);
    lemma_swap12(a32, a01, a20, a33);
    lemma_swap23(a01, a32, a20, a33);
    lemma_swap12(a32, a01, a23, a30);
    lemma_swap23(a01, a32, a23, a30);
    lemma_swap34(a01, a23, a32, a30);
    lemma_expand(a32, a03, a20, a31, a21, a30);
    lemma_swap12(a32, a03, a20, a31);
    lemma_swap23(a03, a32, a20, a31);
    lemma_swap34(a03, a20, a32, a31);
    lemma_swap12(a32, a03, a21, a30);
    lemma_swap23(a03, a32, a21, a30);
    lemma_swap34(a03, a21, a32, a30);
    lemma_mul_is_distributive_add(a33, a00 * (a21 * a32 - a22 * a31) + a01 * -(a20 * a32 - a22 * a30), a02 * (a20 * a31 - a21 * a30));
    lemma_mul_is_distributive_add(a33, a00 * (a21 * a32 - a22 * a31), a01 * -(a20 * a32 - a22 * a30));
    lemma_expand(a33, a00, a21, a32, a22, a31);
    lemma_swap12(a33, a00, a21, a32);
    lemma_swap23(a00, a33, a21, a32);
    lemma_swap34(a00, a21, a33, a32);
    lemma_swap12(a33, a00, a22, a31);
    lemma_swap23(a00, a33, a22, a31);
    lemma_swap34(a00, a22, a33, a31);
    lemma_expand_neg(a33, a01, a20, a32, a22, a30);
    lemma_swap12(a33, a01, a20, a32);
    lemma_swap23(a01, a33, a20, a32);
    lemma_swap34(a01, a20, a33, a32);
    lemma_swap12(a33, a01, a22, a30);
    lemma_swap23(a01, a33, a22, a30);
    lemma_swap34(a01, a22, a33, a30);
    lemma_expand(a33, a02, a20, a31, a21, a30);
    lemma_swap12(a33, a02, a20, a31);
    lemma_swap23(a02, a33, a20, a31);
    lemma_swap34(a02, a20, a33, a31);
    lemma_swap12(a33, a02, a21, a30);
    lemma_swap23(a02, a33, a21, a30);
    lemma_swap34(a02, a21, a33, a30);
    lemma_mul_is_distributive_add(a30, a01 * (a12 * a33 - a13 * a32) + a02 * -(a11 * a33 - a13 * a31), a03 * (a11 * a32 - a12 * a31));
    lemma_mul_is_distributive_add(a30, a01 * (a12 * a33 - a13 * a32), a02 * -(a11 * a33 - a13 * a31));
    lemma_expand(a30, a01, a12, a33, a13, a32);
    lemma_swap12(a30, a01, a12, a33);
    lemma_swap23(a01, a30, a12, a33);
    lemma_swap12(a30, a01, a13, a32);
    lemma_swap23(a01, a30, a13, a32);
    lemma_expand_neg(a30, a02, a11, a33, a13, a31);
    lemma_swap12(a30, a02, a11, a33);
    lemma_swap23(a02, a30, a11, a33);
    lemma_swap12(a30, a02, a13, a31);
    lemma_swap23(a02, a30, a13, a31);
    lemma_expand(a30, a03, a11, a32, a12, a31);
    lemma_swap12(a30, a03, a11, a32);
    lemma_swap23(a03, a30, a11, a32);
    lemma_swap12(a30, a03, a12, a31);
    lemma_swap23(a03, a30, a12, a31);
    lemma_mul_is_distributive_add(a31, a00 * (a12 * a33 - a13 * a32) + a02 * -(a10 * a33 - a13 * a30), a03 * (a10 * a32 - a12 * a30));
    lemma_mul_is_distributive_add(a31, a00 * (a12 * a33 - a13 * a32), a02 * -(a10 * a33 - a13 * a30));
    lemma_mul_unary_negation(a31, a00 * (a12 * a33 - a13 * a32) + a02 * -(a10 * a33 - a13 * a30) + a03 * (a10 * a32 - a12 * a30));
    lemma_expand(a31, a00, a12, a33, a13, a32);
    lemma_swap12(a31, a00, a12, a33);
    lemma_swap23(a00, a31, a12, a33);
    lemma_swap12(a31, a00, a13, a32);
    lemma_swap23(a00, a31, a13, a32);
    lemma_expand_neg(a31, a02, a10, a33, a13, a30);
    lemma_swap12(a31, a02, a10, a33);
    lemma_swap23(a02, a31, a10, a33);
    lemma_swap12(a31, a02, a13, a30);
    lemma_swap23(a02, a31, a13, a30);
    lemma_swap34(a02, a13, a31, a30);
    lemma_expand(a31, a03, a10, a32, a12, a30);
    lemma_swap12(a31, a03, a10, a32);
    lemma_swap23(a03, a31, a10, a32);
    lemma_swap12(a31, a03, a12, a30);
    lemma_swap23(a03, a31, a12, a30);
    lemma_swap34(a03, a12, a31, a30);
    lemma_mul_is_distributive_add(a32, a00 * (a11 * a33 - a13 * a31) + a01 * -(a10 * a33 - a13 * a30), a03 * (a10 * a31 - a11 * a30));
    lemma_mul_is_distributive_add(a32, a00 * (a11 * a33 - a13 * a31), a01 * -(a10 * a33 - a13 * a30));
    lemma_expand(a32, a00, a11, a33, a13, a31);
    lemma_swap12(a32, a00, a11, a33);
    lemma_swap23(a00, a32, a11, a33);
    lemma_swap12(a32, a00, a13, a31);
    lemma_swap23(a00, a32, a13, a31);
    lemma_swap34(a00, a13, a32, a31);
    lemma_expand_neg(a32, a01, a10, a33, a13, a30);
    lemma_swap12(a32, a01, a10, a33);
    lemma_swap23(a01, a32, a10, a33);
    lemma_swap12(a32, a01, a13, a30);
    lemma_swap23(a01, a32, a13, a30);
    lemma_swap34(a01, a13, a32, a30);
    lemma_expand(a32, a03, a10, a31, a11, a30);
    lemma_swap12(a32, a03, a10, a31);
    lemma_swap23(a03, a32, a10, a31);
    lemma_swap34(a03, a10, a32, a31);
    lemma_swap12(a32, a03, a11, a30);
    lemma_swap23(a03, a32, a11, a30);
    lemma_swap34(a03, a11, a32, a30);
    lemma_mul_is_distributive_add(a33, a00 * (a11 * a32 - a12 * a31) + a01 * -(a10 * a32 - a12 * a30), a02 * (a10 * a31 - a11 * a30));
    lemma_mul_is_distributive_add(a33, a00 * (a11 * a32 - a12 * a31), a01 * -(a10 * a32 - a12 * a30));
    lemma_mul_unary_negation(a33, a00 * (a11 * a32 - a12 * a31) + a01 * -(a10 * a32 - a12 * a30) + a02 * (a10 * a31 - a11 * a30));
    lemma_expand(a33, a00, a11, a32, a12, a31);
    lemma_swap12(a33, a00, a11, a32);
    lemma_swap23(a00, a33, a11, a32);
    lemma_swap34(a00, a11, a33, a32);
    lemma_swap12(a33, a00, a12, a31);
    lemma_swap23(a00, a33, a12, a31);
    lemma_swap34(a00, a12, a33, a31);
    lemma_expand_neg(a33, a01, a10, a32, a12, a30);
    lemma_swap12(a33, a01, a10, a32);
    lemma_swap23(a01, a33, a10, a32);
    lemma_swap34(a01, a10, a33, a32);
    lemma_swap12(a33, a01, a12, a30);
    lemma_swap23(a01, a33, a12, a30);
    lemma_swap34(a01, a12, a33, a30);
    lemma_expand(a33, a02, a10, a31, a11, a30);
    lemma_swap12(a33, a02, a10, a31);
    lemma_swap23(a02, a33, a10, a31);
    lemma_swap34(a02, a10, a33, a31);
    lemma_swap12(a33, a02, a11, a30);
    lemma_swap23(a02, a33, a11, a30);
    lemma_swap34(a02, a11, a33, a30);
    lemma_mul_is_distributive_add(a30, a01 * (a12 * a23 - a13 * a22) + a02 * -(a11 * a23 - a13 * a21), a03 * (a11 * a22 - a12 * a21));
    lemma_mul_is_distributive_add(a30, a01 * (a12 * a23 - a13 * a22), a02 * -(a11 * a23 - a13 * a21));
    lemma_mul_unary_negation(a30, a01 * (a12 * a23 - a13 * a22) + a02 * -(a11 * a23 - a13 * a21) + a03 * (a11 * a22 - a12 * a21));
    lemma_expand(a30, a01, a12, a23, a13, a22);
    lemma_swap12(a30, a01, a12, a23);
    lemma_swap23(a01, a30, a12, a23);
    lemma_swap34(a01, a12, a30, a23);
    lemma_swap12(a30, a01, a13, a22);
    lemma_swap23(a01, a30, a13, a22);
    lemma_swap34(a01, a13, a30, a22);
    lemma_expand_neg(a30, a02, a11, a23, a13, a21);
    lemma_swap12(a30, a02, a11, a23);
    lemma_swap23(a02, a30, a11, a23);
    lemma_swap34(a02, a11, a30, a23);
    lemma_swap12(a30, a02, a13, a21);
    lemma_swap23(a02, a30, a13, a21);
    lemma_swap34(a02, a13, a30, a21);
    lemma_expand(a30, a03, a11, a22, a12, a21);
    lemma_swap12(a30, a03, a11, a22);
    lemma_swap23(a03, a30, a11, a22);
    lemma_swap34(a03, a11, a30, a22);
    lemma_swap12(a30, a03, a12, a21);
    lemma_swap23(a03, a30, a12, a21);
    lemma_swap34(a03, a12, a30, a21);
    lemma_mul_is_distributive_add(a31, a00 * (a12 * a23 - a13 * a22) + a02 * -(a10 * a23 - a13 * a20), a03 * (a10 * a22 - a12 * a20));
    lemma_mul_is_distributive_add(a31, a00 * (a12 * a23 - a13 * a22), a02 * -(a10 * a23 - a13 * a20));
    lemma_expand(a31, a00, a12, a23, a13, a22);
    lemma_swap12(a31, a00, a12, a23);
    lemma_swap23(a00, a31, a12, a23);
    lemma_swap34(a00, a12, a31, a23);
    lemma_swap12(a31, a00, a13, a22);
    lemma_swap23(a00, a31, a13, a22);
    lemma_swap34(a00, a13, a31, a22);
    lemma_expand_neg(a31, a02, a10, a23, a13, a20);
    lemma_swap12(a31, a02, a10, a23);
    lemma_swap23(a02, a31, a10, a23);
    lemma_swap34(a02, a10, a31, a23);
    lemma_swap12(a31, a02, a13, a20);
    lemma_swap23(a02, a31, a13, a20);
    lemma_swap34(a02, a13, a31, a20);
    lemma_expand(a31, a03, a10, a22, a12, a20);
    lemma_swap12(a31, a03, a10, a22);
    lemma_swap23(a03, a31, a10, a22);
    lemma_swap34(a03, a10, a31, a22);
    lemma_swap12(a31, a03, a12, a20);
    lemma_swap23(a03, a31, a12, a20);
    lemma_swap34(a03, a12, a31, a20);
    lemma_mul_is_distributive_add(a32, a00 * (a11 * a23 - a13 * a21) + a01 * -(a10 * a23 - a13 * a20), a03 * (a10 * a21 - a11 * a20));
    lemma_mul_is_distributive_add(a32, a00 * (a11 * a23 - a13 * a21), a01 * -(a10 * a23 - a13 * a20));
    lemma_mul_unary_negation(a32, a00 * (a11 * a23 - a13 * a21) + a01 * -(a10 * a23 - a13 * a20) + a03 * (a10 * a21 - a11 * a20));
    lemma_expand(a32, a00, a11, a23, a13, a21);
    lemma_swap12(a32, a00, a11, a23);
    lemma_swap23(a00, a32, a11, a23);
    lemma_swap34(a00, a11, a32, a23);
    lemma_swap12(a32, a00, a13, a21);
    lemma_swap23(a00, a32, a13, a21);
    lemma_swap34(a00, a13, a32, a21);
    lemma_expand_neg(a32, a01, a10, a23, a13, a20);
    lemma_swap12(a32, a01, a10, a23);
    lemma_swap23(a01, a32, a10, a23);
    lemma_swap34(a01, a10, a32, a23);
    lemma_swap12(a32, a01, a13, a20);
    lemma_swap23(a01, a32, a13, a20);
    lemma_swap34(a01, a13, a32, a20);
    lemma_expand(a32, a03, a10, a21, a11, a20);
    lemma_swap12(a32, a03, a10, a21);
    lemma_swap23(a03, a32, a10, a21);
    lemma_swap34(a03, a10, a32, a21);
    lemma_swap12(a32, a03, a11, a20);
    lemma_swap23(a03, a32, a11, a20);
    lemma_swap34(a03, a11, a32, a20);
    lemma_mul_is_distributive_add(a33, a00 * (a11 * a22 - a12 * a21) + a01 * -(a10 * a22 - a12 * a20), a02 * (a10 * a21 - a11 * a20));
    lemma_mul_is_distributive_add(a33, a00 * (a11 * a22 - a12 * a21), a01 * -(a10 * a22 - a12 * a20));
    lemma_expand(a33, a00, a11, a22, a12, a21);
    lemma_swap12(a33, a00, a11, a22);
    lemma_swap23(a00, a33, a11, a22);
    lemma_swap34(a00, a11, a33, a22);
    lemma_swap12(a33, a00, a12, a21);
    lemma_swap23(a00, a33, a12, a21);
    lemma_swap34(a00, a12, a33, a21);
    lemma_expand_neg(a33, a01, a10, a22, a12, a20);
    lemma_swap12(a33, a01, a10, a22);
    lemma_swap23(a01, a33, a10, a22);
    lemma_swap34(a01, a10, a33, a22);
    lemma_swap12(a33, a01, a12, a20);
    lemma_swap23(a01, a33, a12, a20);
    lemma_swap34(a01, a12, a33, a20);
    lemma_expand(a33, a02, a10, a21, a11, a20);
    lemma_swap12(a33, a02, a10, a21);
    lemma_swap23(a02, a33, a10, a21);
    lemma_swap34(a02, a10, a33, a21);
    lemma_swap12(a33, a02, a11, a20);
    lemma_swap23(a02, a33, a11, a20);
    lemma_swap34(a02, a11, a33, a20);
    lemma_mul_is_distributive_add(a00, a11 * (a22 * a33 - a23 * a32) + a12 * -(a21 * a33 - a23 * a31), a13 * (a21 * a32 - a22 * a31));
    lemma_mul_is_distributive_add(a00, a11 * (a22 * a33 - a23 * a32), a12 * -(a21 * a33 - a23 * a31));
    lemma_expand(a00, a11, a22, a33, a23, a32);
    lemma_expand_neg(a00, a12, a21, a33, a23, a31);
    lemma_expand(a00, a13, a21, a32, a22, a31);
    lemma_mul_is_distributive_add(a01, a10 * (a22 * a33 - a23 * a32) + a12 * -(a20 * a33 - a23 * a30), a13 * (a20 * a32 - a22 * a30));
    lemma_mul_is_distributive_add(a01, a10 * (a22 * a33 - a23 * a32), a12 * -(a20 * a33 - a23 * a30));
    lemma_mul_unary_negation(a01, a10 * (a22 * a33 - a23 * a32) + a12 * -(a20 * a33 - a23 * a30) + a13 * (a20 * a32 - a22 * a30));
    lemma_expand(a01, a10, a22, a33, a23, a32);
    lemma_expand_neg(a01, a12, a20, a33, a23, a30);
    lemma_expand(a01, a13, a20, a32, a22, a30);
    lemma_mul_is_distributive_add(a02, a10 * (a21 * a33 - a23 * a31) + a11 * -(a20 * a33 - a23 * a30), a13 * (a20 * a31 - a21 * a30));
    lemma_mul_is_distributive_add(a02, a10 * (a21 * a33 - a23 * a31), a11 * -(a20 * a33 - a23 * a30));
    lemma_expand(a02, a10, a21, a33, a23, a31);
    lemma_expand_neg(a02, a11, a20, a33, a23, a30);
    lemma_expand(a02, a13, a20, a31, a21, a30);
    lemma_mul_is_distributive_add(a03, a10 * (a21 * a32 - a22 * a31) + a11 * -(a20 * a32 - a22 * a30), a12 * (a20 * a31 - a21 * a30));
    lemma_mul_is_distributive_add(a03, a10 * (a21 * a32 - a22 * a31), a11 * -(a20 * a32 - a22 * a30));
    lemma_mul_unary_negation(a03, a10 * (a21 * a32 - a22 * a31) + a11 * -(a20 * a32 - a22 * a30) + a12 * (a20 * a31 - a21 * a30));
    lemma_expand(a03, a10, a21, a32, a22, a31);
    lemma_expand_neg(a03, a11, a20, a32, a22, a30);
    lemma_expand(a03, a12, a20, a31, a21, a30);
}


/// The `n` by `n` identity matrix.
pub open spec fn identity(n: int) -> Seq<Seq<int>> {
    Seq::new(n as nat, |i: int| Seq::new(n as nat, |j: int| if i == j { 1int } else { 0int }))
}

/// The `n` by `n` zero matrix.
pub open spec fn zero(n: int) -> Seq<Seq<int>> {
    Seq::new(n as nat, |i: int| Seq::new(n as nat, |j: int| 0int))
}

/// The identity is neutral on the left of a product:
/// entry (`i`, `j`) of `identity * x` is `x[i][j]`.
pub proof fn lemma_identity_mul(x: Seq<Seq<int>>, n: int)
    requires
        3 <= n <= 4,
        is_square(x, n),
    ensures
        forall|i: int, j: int|
            0 <= i < n && 0 <= j < n ==> #[trigger] product_entry(identity(n), x, i, j, n as nat) == x[i][j],
{
    broadcast use group_mul_basics;

    reveal_with_fuel(product_entry, 5);
}

/// The 4x4 identity has determinant one and is its own adjugate, so the
/// adjugate-over-determinant inverse of the identity is the identity.
pub proof fn lemma_identity_inverse4()
    ensures
        det4(identity(4)) == 1,
        adjugate4(identity(4)) =~= identity(4),
{
    broadcast use group_mul_basics;

    let m = identity(4);
    assert forall|i: int, j: int| 0 <= i < 4 && 0 <= j < 4 implies #[trigger] cofactor4(m, j, i) == if i == j {
        1int
    } else {
        0int
    } by {
        assert(i == 0 || i == 1 || i == 2 || i == 3);
        assert(j == 0 || j == 1 || j == 2 || j == 3);
    }
    assert forall|i: int| 0 <= i < 4 implies #[trigger] adjugate4(m)[i] =~= m[i] by {}
}

/// The zero matrix has determinant zero, under any singularity threshold.
pub proof fn lemma_zero_singular()
    ensures
        det3(zero(3)) == 0,
        det4(zero(4)) == 0,
{
    broadcast use group_mul_basics;

}

} // verus!
