//! The two ways in which a lookup fails, and the wording of their messages.

use crate::text::{append_decimal, append_truth, decimal, truth};
use vstd::prelude::*;

verus! {

/// Why a coordinate was not answered with an element.
///
/// Both variants carry a message for people, which names the declared length
/// of the matrix and the index or offset that was refused.
#[derive(Debug)]
pub enum MatrixError {
    /// The coordinate fits the declared shape, but the offset it maps to has
    /// no storage behind it.
    OutOfBoundIndexing(String),
    /// The coordinate lies outside the declared shape; no offset was computed.
    ForbiddenIndexing(String),
}

/// A [`MatrixError`] as contracts speak of it: its kind and the characters of
/// its message.
pub enum Failure {
    OutOfBoundIndexing(Seq<char>),
    ForbiddenIndexing(Seq<char>),
}

impl View for MatrixError {
    type V = Failure;

    open spec fn view(&self) -> Failure {
        match self {
            MatrixError::OutOfBoundIndexing(message) => Failure::OutOfBoundIndexing(message@),
            MatrixError::ForbiddenIndexing(message) => Failure::ForbiddenIndexing(message@),
        }
    }
}

/// The result of a lookup as contracts speak of it: the element itself, or
/// the view of the error.
pub open spec fn outcome<T>(r: Result<T, MatrixError>) -> Result<T, Failure> {
    match r {
        Ok(element) => Ok(element),
        Err(error) => Err(error@),
    }
}

/// `r` refuses the coordinate as outside the declared shape.
pub open spec fn is_forbidden<T>(r: Result<T, MatrixError>) -> bool {
    r matches Err(MatrixError::ForbiddenIndexing(_))
}

/// `r` refuses the coordinate as mapped past the storage.
pub open spec fn is_out_of_bound<T>(r: Result<T, MatrixError>) -> bool {
    r matches Err(MatrixError::OutOfBoundIndexing(_))
}

/// The message of a shape violation: `len` and `index` in decimal, in this
/// order.
pub open spec fn forbidden_text(len: nat, index: nat) -> Seq<char> {
    "Forbidden indexing: the len of matrix is "@ + decimal(len) + " but the index is "@
        + decimal(index)
}

/// The message of a storage violation: `len` in decimal, then `index` as it
/// is handed in, already rendered.
pub open spec fn out_of_bound_text(len: nat, index: Seq<char>) -> Seq<char> {
    "Out of bound indexing: len is "@ + decimal(len) + " but the index is "@ + index
}

impl MatrixError {
    /// A shape violation whose message names `len` and then `index`.
    pub fn forbidden(len: usize, index: usize) -> (e: MatrixError)
        ensures
            e@ == Failure::ForbiddenIndexing(forbidden_text(len as nat, index as nat)),
    {
        let mut message: String = String::from_str("Forbidden indexing: the len of matrix is ");
        append_decimal(&mut message, len as u128);
        message.append(" but the index is ");
        append_decimal(&mut message, index as u128);
        MatrixError::ForbiddenIndexing(message)
    }

    /// A storage violation whose message names `len` and then the offset that
    /// has no storage behind it.
    pub fn out_of_bound_at(len: usize, offset: u128) -> (e: MatrixError)
        ensures
            e@ == Failure::OutOfBoundIndexing(
                out_of_bound_text(len as nat, decimal(offset as nat)),
            ),
    {
        let mut message: String = String::from_str("Out of bound indexing: len is ");
        append_decimal(&mut message, len as u128);
        message.append(" but the index is ");
        append_decimal(&mut message, offset);
        MatrixError::OutOfBoundIndexing(message)
    }

    /// A storage violation whose message names `len` and then, as a word,
    /// whether the offset ran past the storage.
    pub fn out_of_bound_verdict(len: usize, overrun: bool) -> (e: MatrixError)
        ensures
            e@ == Failure::OutOfBoundIndexing(out_of_bound_text(len as nat, truth(overrun))),
    {
        let mut message: String = String::from_str("Out of bound indexing: len is ");
        append_decimal(&mut message, len as u128);
        message.append(" but the index is ");
        append_truth(&mut message, overrun);
        MatrixError::OutOfBoundIndexing(message)
    }
}

} // verus!
