//! The flags of an attribute.
use vstd::prelude::*;

verus! {

/// The bits that have a meaning, taken together.
pub const KNOWN_FLAGS: u16 = 0xC001;

/// The flags that are set for an attribute. Only the bits below are ever set.
#[derive(Clone, Copy, Debug, PartialEq, Eq)]
pub struct NtfsAttributeFlags {
    bits: u16,
}

impl View for NtfsAttributeFlags {
    type V = u16;

    closed spec fn view(&self) -> u16 {
        self.bits
    }
}

impl NtfsAttributeFlags {
    /// The attribute value is compressed.
    pub const COMPRESSED: u16 = 0x0001;

    /// The attribute value is encrypted.
    pub const ENCRYPTED: u16 = 0x4000;

    /// The attribute value is stored sparsely.
    pub const SPARSE: u16 = 0x8000;

    #[verifier::type_invariant]
    spec fn only_known_bits(self) -> bool {
        self.bits & !KNOWN_FLAGS == 0
    }

    /// Keeps the bits of `bits` that have a meaning, and drops the others.
    pub fn from_bits_truncate(bits: u16) -> (flags: NtfsAttributeFlags)
        ensures
            flags@ == bits & KNOWN_FLAGS,
            flags@ == bits & 0xC001,
    {
        assert((bits & 0xC001) & !0xC001u16 == 0) by (bit_vector);
        NtfsAttributeFlags { bits: bits & KNOWN_FLAGS }
    }

    /// Returns the flags as a number.
    pub fn bits(&self) -> (bits: u16)
        ensures
            bits == self@,
            bits & !KNOWN_FLAGS == 0,
    {
        proof {
            use_type_invariant(self);
        }
        self.bits
    }

    /// Returns `true` if no flag is set.
    pub fn is_empty(&self) -> (empty: bool)
        ensures
            empty == (self@ == 0),
    {
        self.bits == 0
    }

    /// Returns `true` if all of the bits of `flags` are set.
    pub fn contains(&self, flags: u16) -> (contained: bool)
        ensures
            contained == (self@ & flags == flags),
    {
        self.bits & flags == flags
    }
}

/// Truncation keeps each of the known flags as it is, keeps no other bit, and changes nothing
/// when it is done again.
pub proof fn law_truncation_keeps_known_flags(bits: u16)
    ensures
        KNOWN_FLAGS == NtfsAttributeFlags::COMPRESSED | NtfsAttributeFlags::ENCRYPTED
            | NtfsAttributeFlags::SPARSE,
        NtfsAttributeFlags::COMPRESSED == 0x0001,
        NtfsAttributeFlags::ENCRYPTED == 0x4000,
        NtfsAttributeFlags::SPARSE == 0x8000,
        (bits & KNOWN_FLAGS) & NtfsAttributeFlags::COMPRESSED == bits
            & NtfsAttributeFlags::COMPRESSED,
        (bits & KNOWN_FLAGS) & NtfsAttributeFlags::ENCRYPTED == bits
            & NtfsAttributeFlags::ENCRYPTED,
        (bits & KNOWN_FLAGS) & NtfsAttributeFlags::SPARSE == bits & NtfsAttributeFlags::SPARSE,
        (bits & KNOWN_FLAGS) & !KNOWN_FLAGS == 0,
        (bits & KNOWN_FLAGS) & KNOWN_FLAGS == bits & KNOWN_FLAGS,
{
    assert(0xC001u16 == 0x0001u16 | 0x4000u16 | 0x8000u16) by (bit_vector);
    assert((bits & 0xC001) & 0x0001 == bits & 0x0001) by (bit_vector);
    assert((bits & 0xC001) & 0x4000 == bits & 0x4000) by (bit_vector);
    assert((bits & 0xC001) & 0x8000 == bits & 0x8000) by (bit_vector);
    assert((bits & 0xC001) & !0xC001u16 == 0) by (bit_vector);
    assert((bits & 0xC001) & 0xC001 == bits & 0xC001) by (bit_vector);
}

} // verus!
