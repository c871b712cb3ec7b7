//! The three layouts give one answer.

use crate::blocky::{lemma_blocky_round_trip, MatrixBlocky};
use crate::col_major::{lemma_col_major_round_trip, MatrixColMajor};
use crate::error::Failure;
use crate::matrix::{rectangular, Matrix};
use crate::row_major::{lemma_row_major_round_trip, MatrixRowMajor};
use vstd::prelude::*;

verus! {

/// Round trip, whatever the layout: built from the same rectangle of rows,
/// the row-major and the column-major matrix answer every coordinate inside
/// it with the element that stood there. So does the block matrix, where the
/// rectangle has at least two rows and is at least as wide as high, at every
/// coordinate under twice the half in both directions; in a square of even
/// side these are all coordinates.
pub proof fn lemma_layouts_agree<T: Copy>(rows: Seq<Seq<T>>, i: nat, j: nat)
    requires
        rows.len() > 0,
        rectangular(rows, rows[0].len()),
        i < rows.len(),
        j < rows[0].len(),
    ensures
        MatrixRowMajor::<T>::lookup(MatrixRowMajor::<T>::built(rows), i, j) == Ok::<T, Failure>(
            rows[i as int][j as int],
        ),
        MatrixColMajor::<T>::lookup(MatrixColMajor::<T>::built(rows), i, j) == Ok::<T, Failure>(
            rows[i as int][j as int],
        ),
        rows.len() >= 2 && rows[0].len() >= rows.len() && i < 2 * (rows.len() / 2) && j < 2 * (
        rows.len() / 2) ==> MatrixBlocky::<T>::answers(MatrixBlocky::<T>::built(rows), i, j)
            && MatrixBlocky::<T>::lookup(MatrixBlocky::<T>::built(rows), i, j) == Ok::<
            T,
            Failure,
        >(rows[i as int][j as int]),
{
    lemma_row_major_round_trip(rows, i, j);
    lemma_col_major_round_trip(rows, i, j);
    if rows.len() >= 2 && rows[0].len() >= rows.len() && i < 2 * (rows.len() / 2) && j < 2 * (
    rows.len() / 2) {
        lemma_blocky_round_trip(rows, i, j);
    }
}

} // verus!
