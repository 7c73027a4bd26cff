//! Equality of big-integer handles.
//!
//! A handle owns one native record: an allocation count, a signed size and the
//! address of its digit buffer. The native library keeps values normalized, so
//! two handles whose records are bit-identical hold the same value; otherwise
//! the library's comparison decides.
use vstd::prelude::*;

verus! {

/// The fields of a native record, with the digit buffer given by its address.
#[derive(Clone, Copy, Debug, PartialEq, Eq, Structural)]
pub struct RecordHeader {
    pub alloc: i32,
    pub size: i32,
    pub limbs: usize,
}

/// Two handles are equal when their records are identical, or when the native
/// comparison of their values gave a result of sign `sign` equal to zero.
pub open spec fn handles_equal(a: RecordHeader, b: RecordHeader, sign: int) -> bool {
    a == b || sign == 0
}

impl RecordHeader {
    /// Whether the two records are bit-identical, in which case the handles are
    /// equal without asking the native library.
    pub fn identical(&self, other: &RecordHeader) -> (r: bool)
        ensures
            r == (*self == *other),
            r ==> forall|sign: int| handles_equal(*self, *other, sign),
    {
        self.alloc == other.alloc && self.size == other.size && self.limbs == other.limbs
    }
}

/// Equality of handles is reflexive: a handle equals itself, whatever the
/// native comparison would report.
pub proof fn lemma_equality_reflexive(h: RecordHeader, sign: int)
    ensures
        handles_equal(h, h, sign),
{
}

} // verus!
