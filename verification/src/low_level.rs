//! The runtime intrinsics that generated code calls.

use vstd::prelude::*;

verus! {

/// An intrinsic of the runtime; the backend has one instruction sequence for
/// each.
#[derive(Clone, Copy, PartialEq, Eq, Structural, Debug, Hash)]
pub enum LowLevel {
    /// Reinterprets a pointer as an integer or back.
    PtrCast,
    /// Bitwise and.
    And,
    /// Subtraction that stops at the bounds of the type.
    NumSubSaturated,
    NumAdd,
    NumMul,
    NumGte,
    NumLt,
    NumShiftLeftBy,
    Eq,
    /// Length field of a list.
    ListLen,
    /// Compares the header before a data pointer to the unique sentinel.
    RefCountIsUnique,
    /// Adds an amount to the header before a data pointer.
    RefCountIncDataPtr,
    /// Decrements the header before a data pointer and frees the allocation,
    /// with the given alignment, when it was unique.
    RefCountDecDataPtr,
}

} // verus!
