//! Row-major storage: the rows one after another.

use crate::error::{
    forbidden_text, is_forbidden, is_out_of_bound, out_of_bound_text, Failure, MatrixError,
};
use crate::matrix::{lemma_flatten_rectangular, rectangular, rows_of, Matrix};
use crate::strided::{wide_offset, Strided};
use crate::text::truth;
use vstd::prelude::*;

verus! {

/// A matrix whose buffer holds row 0, then row 1, and so on. Its stride is
/// the length of the first row.
#[derive(Debug)]
pub struct MatrixRowMajor<T> {
    arr: Vec<T>,
    len: usize,
}

impl<T> View for MatrixRowMajor<T> {
    type V = Strided<T>;

    closed spec fn view(&self) -> Strided<T> {
        Strided { buffer: self.arr@, stride: self.len as nat }
    }
}

impl<T> Matrix<T> for MatrixRowMajor<T> where T: Copy {
    /// At least one row; the rows need not be equally long.
    open spec fn accepts(rows: Seq<Seq<T>>) -> bool {
        rows.len() > 0
    }

    /// All rows end to end; the stride is the length of the first row.
    open spec fn built(rows: Seq<Seq<T>>) -> Strided<T> {
        Strided { buffer: rows.flatten(), stride: rows[0].len() }
    }

    open spec fn blank() -> Strided<T> {
        Strided::empty()
    }

    /// Every coordinate has an answer.
    open spec fn answers(held: Strided<T>, i: nat, j: nat) -> bool {
        true
    }

    /// A column beyond the stride is a shape violation, whose message names
    /// the stride and the column. Otherwise the offset is `i * stride + j`:
    /// the element there, or a storage violation where the buffer ends at or
    /// before the offset, whose message names the stride and, as a word, that
    /// the offset overran.
    open spec fn lookup(held: Strided<T>, i: nat, j: nat) -> Result<T, Failure> {
        if j > held.stride {
            Err(Failure::ForbiddenIndexing(forbidden_text(held.stride, j)))
        } else if held.offset(i, j) >= held.buffer.len() {
            Err(Failure::OutOfBoundIndexing(out_of_bound_text(held.stride, truth(true))))
        } else {
            Ok(held.buffer[held.offset(i, j) as int])
        }
    }

    fn default() -> (m: Self) {
        Self { arr: Vec::new(), len: 0 }
    }

    fn new(slice: &[Vec<T>]) -> (m: Self) {
        let ghost rows = rows_of(slice@);
        let mut arr: Vec<T> = Vec::new();
        let mut r: usize = 0;
        while r < slice.len()
            invariant
                r <= slice.len(),
                rows == rows_of(slice@),
                arr@ == rows.take(r as int).flatten(),
            decreases slice.len() - r,
        {
            let row: &Vec<T> = &slice[r];
            let mut c: usize = 0;
            while c < row.len()
                invariant
                    c <= row.len(),
                    arr@ == rows.take(r as int).flatten() + row@.take(c as int),
                decreases row.len() - c,
            {
                arr.push(row[c]);
                c += 1;
            }
            proof {
                assert(row@.take(c as int) =~= row@);
                assert(rows.take(r + 1) =~= rows.take(r as int).push(row@));
                rows.take(r as int).lemma_flatten_push(row@);
            }
            r += 1;
        }
        assert(rows.take(r as int) =~= rows);
        Self { arr, len: slice[0].len() }
    }

    /// A column equal to the stride is not refused for its shape: it is
    /// answered like any other, by what stands at its offset.
    fn get(&self, i: usize, j: usize) -> (r: Result<T, MatrixError>)
        ensures
            j > self@.stride ==> is_forbidden(r),
            j == self@.stride ==> !is_forbidden(r),
            j <= self@.stride && self@.offset(i as nat, j as nat) >= self@.buffer.len()
                ==> is_out_of_bound(r),
            j <= self@.stride && self@.offset(i as nat, j as nat) < self@.buffer.len() ==> r
                == Ok::<T, MatrixError>(self@.buffer[self@.offset(i as nat, j as nat) as int]),
    {
        if j > self.len {
            return Err(MatrixError::forbidden(self.len, j));
        }
        let offset: u128 = wide_offset(i, self.len, j);
        if offset >= self.arr.len() as u128 {
            return Err(MatrixError::out_of_bound_verdict(self.len, true));
        }
        Ok(self.arr[offset as usize])
    }
}

/// Round trip, row-major: built from at least one row, all rows equally
/// long, the matrix holds rows times columns elements and answers every
/// coordinate inside the rectangle with the element that stood there.
pub proof fn lemma_row_major_round_trip<T: Copy>(rows: Seq<Seq<T>>, i: nat, j: nat)
    requires
        rows.len() > 0,
        rectangular(rows, rows[0].len()),
        i < rows.len(),
        j < rows[0].len(),
    ensures
        MatrixRowMajor::<T>::built(rows).buffer.len() == rows.len() * rows[0].len(),
        MatrixRowMajor::<T>::built(rows).stride == rows[0].len(),
        MatrixRowMajor::<T>::lookup(MatrixRowMajor::<T>::built(rows), i, j) == Ok::<T, Failure>(
            rows[i as int][j as int],
        ),
{
    lemma_flatten_rectangular(rows, rows[0].len(), i as int, j as int);
}

} // verus!
