//! Column-major storage: the columns one after another.

use crate::error::{
    forbidden_text, is_forbidden, is_out_of_bound, out_of_bound_text, Failure, MatrixError,
};
use crate::matrix::{rectangular, rows_of, Matrix};
use crate::strided::{wide_offset, Strided};
use crate::text::decimal;
use vstd::arithmetic::div_mod::lemma_fundamental_div_mod_converse;
use vstd::prelude::*;

verus! {

/// A matrix whose buffer holds column 0, then column 1, and so on. Its
/// stride is the length of a column, that is the number of rows.
pub struct MatrixColMajor<T> {
    arr: Vec<T>,
    len: usize,
}

impl<T> View for MatrixColMajor<T> {
    type V = Strided<T>;

    closed spec fn view(&self) -> Strided<T> {
        Strided { buffer: self.arr@, stride: self.len as nat }
    }
}

/// The element at place `k` when the columns of `rows` stand one after
/// another, each as long as there are rows.
pub open spec fn in_column_order<T>(rows: Seq<Seq<T>>, k: int) -> T {
    rows[k % (rows.len() as int)][k / (rows.len() as int)]
}

impl<T> Matrix<T> for MatrixColMajor<T> where T: Copy {
    /// At least one row, and no row shorter than the first.
    open spec fn accepts(rows: Seq<Seq<T>>) -> bool {
        &&& rows.len() > 0
        &&& forall|r: int| 0 <= r < rows.len() ==> (#[trigger] rows[r]).len() >= rows[0].len()
    }

    /// As many columns as the first row is long, each with one element of
    /// every row, top to bottom; the stride is the number of rows.
    open spec fn built(rows: Seq<Seq<T>>) -> Strided<T> {
        Strided {
            buffer: Seq::new(rows[0].len() * rows.len(), |k: int| in_column_order(rows, k)),
            stride: rows.len(),
        }
    }

    open spec fn blank() -> Strided<T> {
        Strided::empty()
    }

    /// Every coordinate has an answer.
    open spec fn answers(held: Strided<T>, i: nat, j: nat) -> bool {
        true
    }

    /// A row beyond the stride is a shape violation, whose message names the
    /// row before the stride. Otherwise the offset is `j * stride + i`: the
    /// element there, or a storage violation where the buffer ends at or
    /// before the offset, whose message names the stride and the offset.
    open spec fn lookup(held: Strided<T>, i: nat, j: nat) -> Result<T, Failure> {
        if i > held.stride {
            Err(Failure::ForbiddenIndexing(forbidden_text(i, held.stride)))
        } else if held.offset(j, i) >= held.buffer.len() {
            Err(
                Failure::OutOfBoundIndexing(
                    out_of_bound_text(held.stride, decimal(held.offset(j, i))),
                ),
            )
        } else {
            Ok(held.buffer[held.offset(j, i) as int])
        }
    }

    fn default() -> (m: Self) {
        Self { arr: Vec::new(), len: 0 }
    }

    fn new(slice: &[Vec<T>]) -> (m: Self) {
        let ghost rows = rows_of(slice@);
        let height: usize = slice.len();
        let width: usize = slice[0].len();
        let mut arr: Vec<T> = Vec::new();
        let mut j: usize = 0;
        while j < width
            invariant
                j <= width,
                height == slice.len(),
                height > 0,
                rows == rows_of(slice@),
                forall|r: int| 0 <= r < rows.len() ==> (#[trigger] rows[r]).len() >= width,
                arr@.len() == j * height,
                forall|k: int| 0 <= k < arr@.len() ==> arr@[k] == in_column_order(rows, k),
            decreases width - j,
        {
            let mut r: usize = 0;
            while r < height
                invariant
                    r <= height,
                    j < width,
                    height == slice.len(),
                    rows == rows_of(slice@),
                    forall|r: int| 0 <= r < rows.len() ==> (#[trigger] rows[r]).len() >= width,
                    arr@.len() == j * height + r,
                    forall|k: int| 0 <= k < arr@.len() ==> arr@[k] == in_column_order(rows, k),
                decreases height - r,
            {
                let row: &Vec<T> = &slice[r];
                assert(rows[r as int] == row@);
                proof {
                    lemma_fundamental_div_mod_converse(
                        j * height + r,
                        height as int,
                        j as int,
                        r as int,
                    );
                }
                arr.push(row[j]);
                r += 1;
            }
            assert(j * height + height == (j + 1) * height) by (nonlinear_arith);
            j += 1;
        }
        assert(arr@ =~= Self::built(rows).buffer);
        Self { arr, len: height }
    }

    /// A row equal to the stride is not refused for its shape: it is answered
    /// like any other, by what stands at its offset.
    fn get(&self, i: usize, j: usize) -> (r: Result<T, MatrixError>)
        ensures
            i > self@.stride ==> is_forbidden(r),
            i == self@.stride ==> !is_forbidden(r),
            i <= self@.stride && self@.offset(j as nat, i as nat) >= self@.buffer.len()
                ==> is_out_of_bound(r),
            i <= self@.stride && self@.offset(j as nat, i as nat) < self@.buffer.len() ==> r
                == Ok::<T, MatrixError>(self@.buffer[self@.offset(j as nat, i as nat) as int]),
    {
        if i > self.len {
            return Err(MatrixError::forbidden(i, self.len));
        }
        let offset: u128 = wide_offset(j, self.len, i);
        if offset >= self.arr.len() as u128 {
            return Err(MatrixError::out_of_bound_at(self.len, offset));
        }
        Ok(self.arr[offset as usize])
    }
}

/// Round trip, column-major: built from at least one row, all rows equally
/// long, the matrix holds rows times columns elements and answers every
/// coordinate inside the rectangle with the element that stood there.
pub proof fn lemma_col_major_round_trip<T: Copy>(rows: Seq<Seq<T>>, i: nat, j: nat)
    requires
        rows.len() > 0,
        rectangular(rows, rows[0].len()),
        i < rows.len(),
        j < rows[0].len(),
    ensures
        MatrixColMajor::<T>::accepts(rows),
        MatrixColMajor::<T>::built(rows).buffer.len() == rows.len() * rows[0].len(),
        MatrixColMajor::<T>::built(rows).stride == rows.len(),
        MatrixColMajor::<T>::lookup(MatrixColMajor::<T>::built(rows), i, j) == Ok::<T, Failure>(
            rows[i as int][j as int],
        ),
{
    let height = rows.len() as int;
    let width = rows[0].len() as int;
    lemma_fundamental_div_mod_converse(j * height + i, height, j as int, i as int);
    assert(j * height + i < width * height) by (nonlinear_arith)
        requires
            0 <= i < height,
            0 <= j < width,
    ;
    assert(width * height == height * width) by (nonlinear_arith);
}

} // verus!
