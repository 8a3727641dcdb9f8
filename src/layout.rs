//! Entry layouts of the standard transforms, row by row, for entries of any
//! copyable type: the caller supplies the zero, the one, and the values that
//! the transform places.
use vstd::prelude::*;

verus! {

/// The 3x3 identity: `one` on the diagonal, `zero` elsewhere.
pub fn identity3<T: Copy>(zero: T, one: T) -> (r: [[T; 3]; 3])
    ensures
        r@ == seq![[one, zero, zero], [zero, one, zero], [zero, zero, one]],
{
    [[one, zero, zero], [zero, one, zero], [zero, zero, one]]
}

/// The 4x4 identity: `one` on the diagonal, `zero` elsewhere.
pub fn identity4<T: Copy>(zero: T, one: T) -> (r: [[T; 4]; 4])
    ensures
        r@ == seq![
            [one, zero, zero, zero],
            [zero, one, zero, zero],
            [zero, zero, one, zero],
            [zero, zero, zero, one],
        ],
{
    [[one, zero, zero, zero], [zero, one, zero, zero], [zero, zero, one, zero], [zero, zero, zero, one]]
}

/// Scaling by `sx`, `sy`, `sz` along the three axes, homogeneous coordinate kept.
pub fn scale4<T: Copy>(sx: T, sy: T, sz: T, zero: T, one: T) -> (r: [[T; 4]; 4])
    ensures
        r@ == seq![[sx, zero, zero, zero], [zero, sy, zero, zero], [zero, zero, sz, zero], [zero, zero, zero, one]],
{
    [[sx, zero, zero, zero], [zero, sy, zero, zero], [zero, zero, sz, zero], [zero, zero, zero, one]]
}

/// Translation by (`tx`, `ty`, `tz`): the identity with the offsets in the
/// last column.
pub fn translate4<T: Copy>(tx: T, ty: T, tz: T, zero: T, one: T) -> (r: [[T; 4]; 4])
    ensures
        r@ == seq![[one, zero, zero, tx], [zero, one, zero, ty], [zero, zero, one, tz], [zero, zero, zero, one]],
{
    [[one, zero, zero, tx], [zero, one, zero, ty], [zero, zero, one, tz], [zero, zero, zero, one]]
}

/// Right-handed rotation about the x axis, with `c` and `s` the cosine and
/// sine of the angle and `neg_s` the negated sine.
pub fn rotation_x4<T: Copy>(c: T, s: T, neg_s: T, zero: T, one: T) -> (r: [[T; 4]; 4])
    ensures
        r@ == seq![[one, zero, zero, zero], [zero, c, neg_s, zero], [zero, s, c, zero], [zero, zero, zero, one]],
{
    [[one, zero, zero, zero], [zero, c, neg_s, zero], [zero, s, c, zero], [zero, zero, zero, one]]
}

/// Right-handed rotation about the y axis, with `c` and `s` the cosine and
/// sine of the angle and `neg_s` the negated sine.
pub fn rotation_y4<T: Copy>(c: T, s: T, neg_s: T, zero: T, one: T) -> (r: [[T; 4]; 4])
    ensures
        r@ == seq![[c, zero, s, zero], [zero, one, zero, zero], [neg_s, zero, c, zero], [zero, zero, zero, one]],
{
    [[c, zero, s, zero], [zero, one, zero, zero], [neg_s, zero, c, zero], [zero, zero, zero, one]]
}

/// Right-handed rotation about the z axis, with `c` and `s` the cosine and
/// sine of the angle and `neg_s` the negated sine.
pub fn rotation_z4<T: Copy>(c: T, s: T, neg_s: T, zero: T, one: T) -> (r: [[T; 4]; 4])
    ensures
        r@ == seq![[c, neg_s, zero, zero], [s, c, zero, zero], [zero, zero, one, zero], [zero, zero, zero, one]],
{
    [[c, neg_s, zero, zero], [s, c, zero, zero], [zero, zero, one, zero], [zero, zero, zero, one]]
}

} // verus!
