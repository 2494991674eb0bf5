//! What can go wrong.
use crate::attribute_type::NtfsAttributeType;
use vstd::prelude::*;

verus! {

/// An error of this library. Positions are absolute ones within the filesystem, in bytes.
#[derive(Clone, Copy, Debug, PartialEq, Eq)]
pub enum NtfsError {
    /// The `length` bytes from `position` on are needed, and the window does not hold them all.
    OutOfWindow { position: u64, length: u64 },
    /// The string takes `expected` bytes, and the buffer for it has only `available` bytes.
    BufferTooSmall { expected: usize, available: usize },
    /// The attribute at `position` has the type number `actual`, which is not a known one.
    UnsupportedNtfsAttributeType { position: u64, actual: u32 },
    /// The attribute at `position` has a type whose value has no structured form here.
    UnsupportedStructuredValue { position: u64, ty: NtfsAttributeType },
}

} // verus!
