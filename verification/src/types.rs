//! Numbers with a meaning of their own in the NTFS format.
use vstd::prelude::*;

verus! {

/// A Virtual Cluster Number. It is signed, because -1 occurs on disk for zero-length files.
#[derive(Clone, Copy, Debug, PartialEq, Eq, Structural)]
pub struct Vcn(pub i64);

} // verus!
