//! Block storage: four square quadrants, each kept row-major.

use crate::error::{Failure, MatrixError};
use crate::matrix::{rows_of, Matrix};
use crate::row_major::{lemma_row_major_round_trip, MatrixRowMajor};
use crate::strided::Strided;
use vstd::arithmetic::div_mod::lemma_fundamental_div_mod_converse;
use vstd::prelude::*;

verus! {

/// A matrix cut into four quadrants of half its side: top left, top right,
/// bottom left, bottom right, in this order. Each quadrant owns a row-major
/// buffer of its own.
///
/// The half is the side divided by two, rounded down: of an odd side the last
/// row and the last column belong to no quadrant.
pub struct MatrixBlocky<T> {
    arr: Vec<MatrixRowMajor<T>>,
    len: usize,
}

/// What a block matrix holds: its quadrants in order, and the side that it
/// was built with.
#[verifier::ext_equal]
pub struct Blocks<T> {
    pub quadrants: Seq<Strided<T>>,
    pub side: nat,
}

impl<T> Blocks<T> {
    /// The side of a quadrant.
    pub open spec fn half(self) -> nat {
        self.side / 2
    }

    /// The place among the quadrants of the one that row `i`, column `j`
    /// falls into.
    pub open spec fn quadrant(self, i: nat, j: nat) -> nat {
        (i / self.half()) * 2 + j / self.half()
    }
}

impl<T> View for MatrixBlocky<T> {
    type V = Blocks<T>;

    closed spec fn view(&self) -> Blocks<T> {
        Blocks { quadrants: Seq::new(self.arr@.len(), |q: int| self.arr@[q]@), side: self.len as nat }
    }
}

/// Of `row`, the `count` elements from position `from` on, or as many of them
/// as the row has.
pub open spec fn clip<T>(row: Seq<T>, from: nat, count: nat) -> Seq<T> {
    let start = if from <= row.len() {
        from
    } else {
        row.len()
    };
    let end = if from + count <= row.len() {
        from + count
    } else {
        row.len()
    };
    row.subrange(start as int, end as int)
}

/// The block of `rows` that is `half` rows high from row `top` on, and holds
/// of each of these rows the `half` elements from column `left` on.
pub open spec fn block_of<T>(rows: Seq<Seq<T>>, top: nat, left: nat, half: nat) -> Seq<Seq<T>> {
    Seq::new(half, |r: int| clip(rows[top + r], left, half))
}

/// Copies one block out of `slice`.
fn block<T: Copy>(slice: &[Vec<T>], top: usize, left: usize, half: usize) -> (out: Vec<Vec<T>>)
    requires
        top + half <= slice@.len(),
    ensures
        rows_of(out@) == block_of(rows_of(slice@), top as nat, left as nat, half as nat),
{
    let height: usize = slice.len();
    let mut out: Vec<Vec<T>> = Vec::new();
    let mut r: usize = 0;
    while r < half
        invariant
            r <= half,
            top + half <= height == slice@.len(),
            out@.len() == r,
            forall|k: int|
                0 <= k < r ==> (#[trigger] out@[k])@ == clip(
                    slice@[top + k]@,
                    left as nat,
                    half as nat,
                ),
        decreases half - r,
    {
        let row: &Vec<T> = &slice[top + r];
        let start: usize = if left <= row.len() {
            left
        } else {
            row.len()
        };
        let end: usize = if half <= row.len() - start {
            start + half
        } else {
            row.len()
        };
        let mut piece: Vec<T> = Vec::new();
        let mut c: usize = start;
        while c < end
            invariant
                start <= c <= end <= row.len(),
                piece@ == row@.subrange(start as int, c as int),
            decreases end - c,
        {
            piece.push(row[c]);
            assert(row@.subrange(start as int, c + 1) =~= row@.subrange(start as int, c as int).push(
                row@[c as int],
            ));
            c += 1;
        }
        out.push(piece);
        r += 1;
    }
    out
}

impl<T> Matrix<T> for MatrixBlocky<T> where T: Copy {
    /// At least two rows, so that a quadrant has at least one.
    open spec fn accepts(rows: Seq<Seq<T>>) -> bool {
        rows.len() >= 2
    }

    /// Four row-major matrices, one of each block of `rows`; the side is the
    /// number of rows.
    open spec fn built(rows: Seq<Seq<T>>) -> Blocks<T> {
        let half = rows.len() / 2;
        Blocks {
            quadrants: seq![
                MatrixRowMajor::<T>::built(block_of(rows, 0, 0, half)),
                MatrixRowMajor::<T>::built(block_of(rows, 0, half, half)),
                MatrixRowMajor::<T>::built(block_of(rows, half, 0, half)),
                MatrixRowMajor::<T>::built(block_of(rows, half, half, half)),
            ],
            side: rows.len(),
        }
    }

    /// No quadrants, side 0.
    open spec fn blank() -> Blocks<T> {
        Blocks { quadrants: Seq::empty(), side: 0 }
    }

    /// The coordinates that fall into one of the quadrants held. With a side
    /// under two there is none.
    open spec fn answers(held: Blocks<T>, i: nat, j: nat) -> bool {
        &&& held.half() > 0
        &&& held.quadrant(i, j) < held.quadrants.len()
    }

    /// What the quadrant that the coordinate falls into answers, as a
    /// row-major matrix, at the coordinate reduced modulo the half. The side
    /// itself bounds nothing.
    open spec fn lookup(held: Blocks<T>, i: nat, j: nat) -> Result<T, Failure> {
        MatrixRowMajor::<T>::lookup(
            held.quadrants[held.quadrant(i, j) as int],
            i % held.half(),
            j % held.half(),
        )
    }

    fn default() -> (m: Self) {
        let m = Self { arr: Vec::new(), len: 0 };
        assert(m@.quadrants =~= Seq::empty());
        m
    }

    /// Copies each of the four blocks out of `slice` and stores it row-major.
    fn new(slice: &[Vec<T>]) -> (m: Self) {
        let half: usize = slice.len() / 2;
        let top_left: Vec<Vec<T>> = block(slice, 0, 0, half);
        let top_right: Vec<Vec<T>> = block(slice, 0, half, half);
        let bottom_left: Vec<Vec<T>> = block(slice, half, 0, half);
        let bottom_right: Vec<Vec<T>> = block(slice, half, half, half);
        let mut arr: Vec<MatrixRowMajor<T>> = Vec::new();
        arr.push(MatrixRowMajor::new(top_left.as_slice()));
        arr.push(MatrixRowMajor::new(top_right.as_slice()));
        arr.push(MatrixRowMajor::new(bottom_left.as_slice()));
        arr.push(MatrixRowMajor::new(bottom_right.as_slice()));
        let m = Self { arr, len: slice.len() };
        assert(m@.quadrants =~= Self::built(rows_of(slice@)).quadrants);
        m
    }

    /// Hands the coordinate, reduced modulo the half, to the quadrant that it
    /// falls into, and hands back what the quadrant says: the failures speak
    /// of the quadrant's own length.
    fn get(&self, i: usize, j: usize) -> (r: Result<T, MatrixError>) {
        let half: usize = self.len / 2;
        assert(self@.quadrant(i as nat, j as nat) < self.arr.len());
        let block: &MatrixRowMajor<T> = &self.arr[(i / half) * 2 + (j / half)];
        block.get(i % half, j % half)
    }
}

/// A number under twice `half` is in the lower half, with quotient 0, or in
/// the upper half, with quotient 1 and `half` less as remainder.
proof fn lemma_split_by_half(x: nat, half: nat)
    requires
        x < 2 * half,
    ensures
        x < half ==> x / half == 0 && x % half == x,
        x >= half ==> x / half == 1 && x % half == x - half,
{
    if x < half {
        lemma_fundamental_div_mod_converse(x as int, half as int, 0, x as int);
    } else {
        lemma_fundamental_div_mod_converse(x as int, half as int, 1, x - half);
    }
}

/// Block delegation: built from at least two rows, none shorter than twice the
/// half, the block matrix answers every coordinate under twice the half in
/// both directions, and answers it with the element that stands there in the
/// rows themselves. The quadrant that is asked holds the half times the half
/// elements of its block.
pub proof fn lemma_blocky_round_trip<T: Copy>(rows: Seq<Seq<T>>, i: nat, j: nat)
    requires
        rows.len() >= 2,
        forall|r: int| 0 <= r < rows.len() ==> (#[trigger] rows[r]).len() >= 2 * (rows.len() / 2),
        i < 2 * (rows.len() / 2),
        j < 2 * (rows.len() / 2),
    ensures
        MatrixBlocky::<T>::built(rows).quadrants.len() == 4,
        MatrixBlocky::<T>::answers(MatrixBlocky::<T>::built(rows), i, j),
        MatrixBlocky::<T>::built(rows).quadrants[MatrixBlocky::<T>::built(rows).quadrant(
            i,
            j,
        ) as int].buffer.len() == (rows.len() / 2) * (rows.len() / 2),
        MatrixBlocky::<T>::lookup(MatrixBlocky::<T>::built(rows), i, j) == Ok::<T, Failure>(
            rows[i as int][j as int],
        ),
{
    let half = rows.len() / 2;
    let held = MatrixBlocky::<T>::built(rows);
    lemma_split_by_half(i, half);
    lemma_split_by_half(j, half);
    // Where the quadrant of the coordinate begins in the rows.
    let top: nat = if i < half {
        0
    } else {
        half
    };
    let left: nat = if j < half {
        0
    } else {
        half
    };
    let block = block_of(rows, top, left, half);
    assert(held.quadrants[held.quadrant(i, j) as int] == MatrixRowMajor::<T>::built(block));
    assert forall|r: int| 0 <= r < block.len() implies (#[trigger] block[r]).len() == half by {
        assert(rows[top + r].len() >= 2 * half);
    }
    lemma_row_major_round_trip(block, i % half, j % half);
    assert(block[(i % half) as int][(j % half) as int] == rows[i as int][j as int]);
}

} // verus!
