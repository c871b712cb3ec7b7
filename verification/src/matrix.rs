//! What every layout offers: an empty placeholder, construction from rows,
//! and lookup by row and column.

use crate::error::{outcome, Failure, MatrixError};
use vstd::prelude::*;

verus! {

/// The rows that `vectors` hold, as a sequence of sequences.
pub open spec fn rows_of<T>(vectors: Seq<Vec<T>>) -> Seq<Seq<T>> {
    Seq::new(vectors.len(), |r: int| vectors[r]@)
}

/// Every row of `rows` has exactly `width` elements.
pub open spec fn rectangular<T>(rows: Seq<Seq<T>>, width: nat) -> bool {
    forall|r: int| 0 <= r < rows.len() ==> (#[trigger] rows[r]).len() == width
}

/// In the concatenation of rows that are all `width` long, row `i` starts at
/// `i * width`.
pub proof fn lemma_flatten_rectangular<T>(rows: Seq<Seq<T>>, width: nat, i: int, j: int)
    requires
        rectangular(rows, width),
        0 <= i < rows.len(),
        0 <= j < width,
    ensures
        rows.flatten().len() == rows.len() * width,
        0 <= i * width + j < rows.flatten().len(),
        rows.flatten()[i * width + j] == rows[i][j],
    decreases rows.len(),
{
    let front = rows.drop_last();
    assert(rows =~= front.push(rows.last()));
    front.lemma_flatten_push(rows.last());
    assert(rows.len() * width == front.len() * width + width) by (nonlinear_arith)
        requires
            rows.len() == front.len() + 1,
    ;
    if front.len() == 0 {
        assert(front.flatten() =~= Seq::<T>::empty());
    } else if i < front.len() {
        lemma_flatten_rectangular(front, width, i, j);
    } else {
        lemma_flatten_rectangular(front, width, 0, j);
    }
    if i == front.len() {
        assert(i * width + j == front.len() * width + j) by (nonlinear_arith)
            requires
                i == front.len(),
        ;
    }
}

/// A two-dimensional array of copyable elements, built once and then only
/// read.
///
/// A layout says through the spec functions which rows it can be built from,
/// what it then holds, and what it answers at a coordinate; the three
/// operations are held to these.
pub trait Matrix<T>: View + Sized {
    /// The rows from which `new` builds.
    spec fn accepts(rows: Seq<Seq<T>>) -> bool;

    /// What `new` makes of `rows`.
    spec fn built(rows: Seq<Seq<T>>) -> Self::V;

    /// The empty placeholder.
    spec fn blank() -> Self::V;

    /// Whether a matrix that holds `held` has an answer at row `i`, column `j`.
    spec fn answers(held: Self::V, i: nat, j: nat) -> bool;

    /// The answer of a matrix that holds `held` at row `i`, column `j`.
    spec fn lookup(held: Self::V, i: nat, j: nat) -> Result<T, Failure>;

    /// An empty matrix.
    fn default() -> (m: Self)
        ensures
            m@ == Self::blank(),
    ;

    /// A matrix with the elements of `slice`, one inner vector per row.
    fn new(slice: &[Vec<T>]) -> (m: Self)
        requires
            Self::accepts(rows_of(slice@)),
        ensures
            m@ == Self::built(rows_of(slice@)),
    ;

    /// The element at row `i`, column `j`, or the reason why there is none.
    fn get(&self, i: usize, j: usize) -> (r: Result<T, MatrixError>)
        requires
            Self::answers(self@, i as nat, j as nat),
        ensures
            outcome(r) == Self::lookup(self@, i as nat, j as nat),
    ;
}

} // verus!
