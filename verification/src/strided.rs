//! A flat buffer read through one stride.

use vstd::prelude::*;

verus! {

/// What a row-major or a column-major matrix holds: its elements in storage
/// order, and the length by which the major coordinate is multiplied.
#[verifier::ext_equal]
pub struct Strided<T> {
    pub buffer: Seq<T>,
    pub stride: nat,
}

impl<T> Strided<T> {
    /// The place in the buffer of the element that stands `minor` steps into
    /// run number `major`.
    pub open spec fn offset(self, major: nat, minor: nat) -> nat {
        major * self.stride + minor
    }

    /// The buffer without elements, read with stride 0.
    pub open spec fn empty() -> Strided<T> {
        Strided { buffer: Seq::empty(), stride: 0 }
    }
}

/// `major * stride + minor`, in a width that holds it for all arguments.
pub fn wide_offset(major: usize, stride: usize, minor: usize) -> (offset: u128)
    ensures
        offset == major * stride + minor,
{
    assert(major * stride <= 0xffff_ffff_ffff_ffff * 0xffff_ffff_ffff_ffff) by (nonlinear_arith)
        requires
            major <= 0xffff_ffff_ffff_ffff,
            stride <= 0xffff_ffff_ffff_ffff,
    ;
    (major as u128) * (stride as u128) + (minor as u128)
}

} // verus!
