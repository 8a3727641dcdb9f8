//! Minors and cofactor signs of the Laplace expansion, for entries of any
//! copyable type.
use vstd::prelude::*;

verus! {

/// Line (row or column) of the full matrix that holds line `k` of a minor
/// formed by deleting line `skip`.
pub open spec fn source_line(skip: int, k: int) -> int {
    if k < skip {
        k
    } else {
        k + 1
    }
}

/// The cofactor at (`row`, `col`) is the minor's determinant times
/// (-1)^(row + col): it is negated exactly when `row + col` is odd.
pub open spec fn is_negated(row: int, col: int) -> bool {
    (row + col) % 2 == 1
}

/// Line of the minor without line `skip` that holds line `l` of the full
/// matrix, for `l != skip`.
pub open spec fn minor_position(skip: int, l: int) -> int {
    if l < skip {
        l
    } else {
        l - 1
    }
}

/// Deleting line `skip` of `n` keeps the other lines, in order: line `k` of
/// the minor is a line of the full matrix other than `skip`, later lines of
/// the minor come from later lines, and every line but `skip` is taken.
pub proof fn lemma_minor_lines(n: int, skip: int)
    requires
        0 <= skip < n,
    ensures
        forall|k: int|
            0 <= k < n - 1 ==> 0 <= #[trigger] source_line(skip, k) < n && source_line(skip, k) != skip,
        forall|k1: int, k2: int|
            0 <= k1 < k2 < n - 1 ==> #[trigger] source_line(skip, k1) < #[trigger] source_line(skip, k2),
        forall|l: int|
            0 <= l < n && l != skip ==> 0 <= #[trigger] minor_position(skip, l) < n - 1 && source_line(
                skip,
                minor_position(skip, l),
            ) == l,
{
}

/// Whether the cofactor at (`row`, `col`) takes the negated minor.
pub fn cofactor_negated(row: usize, col: usize) -> (r: bool)
    ensures
        r == is_negated(row as int, col as int),
{
    row % 2 != col % 2
}

/// The minor of a 4x4 matrix that leaves out row `row` and column `col`:
/// the remaining entries, in their order.
pub fn get_minor4<T: Copy>(m: &[[T; 4]; 4], row: usize, col: usize) -> (r: [[T; 3]; 3])
    requires
        row < 4,
        col < 4,
    ensures
        forall|i: int, j: int|
            0 <= i < 3 && 0 <= j < 3 ==> #[trigger] r[i][j] == m[source_line(row as int, i)][source_line(
                col as int,
                j,
            )],
{
    let mut minor = [[m[0][0]; 3]; 3];
    let mut minor_row: usize = 0;
    for i in 0..4
        invariant
            row < 4,
            col < 4,
            minor_row == if row < i { i - 1 } else { i as int },
            forall|a: int, b: int|
                0 <= a < minor_row && 0 <= b < 3 ==> #[trigger] minor[a][b] == m[source_line(
                    row as int,
                    a,
                )][source_line(col as int, b)],
    {
        if i != row {
            let mut minor_col: usize = 0;
            for j in 0..4
                invariant
                    row < 4,
                    col < 4,
                    i < 4,
                    i != row,
                    minor_row < 3,
                    source_line(row as int, minor_row as int) == i,
                    minor_col == if col < j { j - 1 } else { j as int },
                    forall|a: int, b: int|
                        0 <= a < minor_row && 0 <= b < 3 ==> #[trigger] minor[a][b] == m[source_line(
                            row as int,
                            a,
                        )][source_line(col as int, b)],
                    forall|b: int|
                        0 <= b < minor_col ==> #[trigger] minor[minor_row as int][b] == m[i as int][source_line(
                            col as int,
                            b,
                        )],
            {
                if j != col {
                    minor[minor_row][minor_col] = m[i][j];
                    minor_col += 1;
                }
            }
            minor_row += 1;
        }
    }
    minor
}

/// The minor of a 3x3 matrix that leaves out row `row` and column `col`:
/// the remaining entries, in their order.
pub fn get_minor3<T: Copy>(m: &[[T; 3]; 3], row: usize, col: usize) -> (r: [[T; 2]; 2])
    requires
        row < 3,
        col < 3,
    ensures
        forall|i: int, j: int|
            0 <= i < 2 && 0 <= j < 2 ==> #[trigger] r[i][j] == m[source_line(row as int, i)][source_line(
                col as int,
                j,
            )],
{
    let mut minor = [[m[0][0]; 2]; 2];
    let mut minor_row: usize = 0;
    for i in 0..3
        invariant
            row < 3,
            col < 3,
            minor_row == if row < i { i - 1 } else { i as int },
            forall|a: int, b: int|
                0 <= a < minor_row && 0 <= b < 2 ==> #[trigger] minor[a][b] == m[source_line(
                    row as int,
                    a,
                )][source_line(col as int, b)],
    {
        if i != row {
            let mut minor_col: usize = 0;
            for j in 0..3
                invariant
                    row < 3,
                    col < 3,
                    i < 3,
                    i != row,
                    minor_row < 2,
                    source_line(row as int, minor_row as int) == i,
                    minor_col == if col < j { j - 1 } else { j as int },
                    forall|a: int, b: int|
                        0 <= a < minor_row && 0 <= b < 2 ==> #[trigger] minor[a][b] == m[source_line(
                            row as int,
                            a,
                        )][source_line(col as int, b)],
                    forall|b: int|
                        0 <= b < minor_col ==> #[trigger] minor[minor_row as int][b] == m[i as int][source_line(
                            col as int,
                            b,
                        )],
            {
                if j != col {
                    minor[minor_row][minor_col] = m[i][j];
                    minor_col += 1;
                }
            }
            minor_row += 1;
        }
    }
    minor
}

} // verus!
