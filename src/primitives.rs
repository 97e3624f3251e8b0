//! Tuples, a 2x2 matrix with its transpose, and slices.
use vstd::prelude::*;

verus! {

/// Swaps the outer parts of a nested tuple: `(a, b, c)` becomes `(c, b, a)`.
pub fn reverse(tuple_of_tuples: ((u8, u16, u32), (u64, i8), i16)) -> (r: (
    i16,
    (u64, i8),
    (u8, u16, u32),
))
    ensures
        r == (tuple_of_tuples.2, tuple_of_tuples.1, tuple_of_tuples.0),
{
    let (first, middle, last) = tuple_of_tuples;
    (last, middle, first)
}

/// The sum of two integers.
pub fn sum(a: i32, b: i32) -> (r: i32)
    requires
        i32::MIN <= a + b <= i32::MAX,
    ensures
        r == a + b,
{
    a + b
}

/// A 2x2 matrix stored row by row: `(top left, top right, bottom left,
/// bottom right)`.
#[derive(Debug, Clone, Copy, PartialEq)]
pub struct Matrix<T>(pub T, pub T, pub T, pub T);

/// The matrix mirrored along its diagonal: the two off-diagonal entries
/// change places.
pub open spec fn transposed<T>(m: Matrix<T>) -> Matrix<T> {
    Matrix(m.0, m.2, m.1, m.3)
}

/// Mirrors the matrix along its diagonal.
pub fn transpose<T>(matrix: Matrix<T>) -> (r: Matrix<T>)
    ensures
        r == transposed(matrix),
{
    let Matrix(first, swap_a, swap_b, last) = matrix;
    Matrix(first, swap_b, swap_a, last)
}

/// Transposing twice gives back the matrix one started with.
pub proof fn lemma_transpose_involution<T>(m: Matrix<T>)
    ensures
        transposed(transposed(m)) == m,
{
}

/// The first element, the last element and the length of a non-empty slice.
pub fn analyze_slice(slice: &[i32]) -> (r: (i32, i32, usize))
    requires
        slice@.len() > 0,
    ensures
        r == (slice@[0], slice@[slice@.len() - 1], slice@.len() as usize),
{
    (slice[0], slice[slice.len() - 1], slice.len())
}

/// The element at `index`, or nothing when the index is past the end.
pub fn safe_get(xs: &[i32], index: usize) -> (r: Option<i32>)
    ensures
        index < xs@.len() ==> r == Some(xs@[index as int]),
        index >= xs@.len() ==> r is None,
{
    if index < xs.len() {
        Some(xs[index])
    } else {
        None
    }
}

} // verus!
