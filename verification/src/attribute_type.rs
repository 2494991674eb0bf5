//! The attribute types that are known, and their numbers on disk.
use vstd::prelude::*;

verus! {

/// The number that stands for [`NtfsAttributeType::End`] on disk.
pub const END_CODE: u32 = 0xFFFF_FFFF;

/// A known type of an NTFS attribute.
#[derive(Clone, Copy, Debug, PartialEq, Eq, Structural)]
pub enum NtfsAttributeType {
    StandardInformation,
    AttributeList,
    FileName,
    ObjectId,
    SecurityDescriptor,
    VolumeName,
    VolumeInformation,
    Data,
    IndexRoot,
    IndexAllocation,
    Bitmap,
    ReparsePoint,
    EAInformation,
    EA,
    PropertySet,
    LoggedUtilityStream,
    End,
}

impl NtfsAttributeType {
    /// The number of this type on disk.
    pub open spec fn spec_code(self) -> u32 {
        match self {
            NtfsAttributeType::StandardInformation => 0x10,
            NtfsAttributeType::AttributeList => 0x20,
            NtfsAttributeType::FileName => 0x30,
            NtfsAttributeType::ObjectId => 0x40,
            NtfsAttributeType::SecurityDescriptor => 0x50,
            NtfsAttributeType::VolumeName => 0x60,
            NtfsAttributeType::VolumeInformation => 0x70,
            NtfsAttributeType::Data => 0x80,
            NtfsAttributeType::IndexRoot => 0x90,
            NtfsAttributeType::IndexAllocation => 0xA0,
            NtfsAttributeType::Bitmap => 0xB0,
            NtfsAttributeType::ReparsePoint => 0xC0,
            NtfsAttributeType::EAInformation => 0xD0,
            NtfsAttributeType::EA => 0xE0,
            NtfsAttributeType::PropertySet => 0xF0,
            NtfsAttributeType::LoggedUtilityStream => 0x100,
            NtfsAttributeType::End => END_CODE,
        }
    }

    /// The known type that has the given number, if there is one.
    pub open spec fn spec_n(code: u32) -> Option<NtfsAttributeType> {
        match code {
            0x10 => Some(NtfsAttributeType::StandardInformation),
            0x20 => Some(NtfsAttributeType::AttributeList),
            0x30 => Some(NtfsAttributeType::FileName),
            0x40 => Some(NtfsAttributeType::ObjectId),
            0x50 => Some(NtfsAttributeType::SecurityDescriptor),
            0x60 => Some(NtfsAttributeType::VolumeName),
            0x70 => Some(NtfsAttributeType::VolumeInformation),
            0x80 => Some(NtfsAttributeType::Data),
            0x90 => Some(NtfsAttributeType::IndexRoot),
            0xA0 => Some(NtfsAttributeType::IndexAllocation),
            0xB0 => Some(NtfsAttributeType::Bitmap),
            0xC0 => Some(NtfsAttributeType::ReparsePoint),
            0xD0 => Some(NtfsAttributeType::EAInformation),
            0xE0 => Some(NtfsAttributeType::EA),
            0xF0 => Some(NtfsAttributeType::PropertySet),
            0x100 => Some(NtfsAttributeType::LoggedUtilityStream),
            0xFFFF_FFFF => Some(NtfsAttributeType::End),
            _ => None,
        }
    }

    /// Returns the number of this type on disk.
    pub fn code(self) -> (code: u32)
        ensures
            code == self.spec_code(),
    {
        match self {
            NtfsAttributeType::StandardInformation => 0x10,
            NtfsAttributeType::AttributeList => 0x20,
            NtfsAttributeType::FileName => 0x30,
            NtfsAttributeType::ObjectId => 0x40,
            NtfsAttributeType::SecurityDescriptor => 0x50,
            NtfsAttributeType::VolumeName => 0x60,
            NtfsAttributeType::VolumeInformation => 0x70,
            NtfsAttributeType::Data => 0x80,
            NtfsAttributeType::IndexRoot => 0x90,
            NtfsAttributeType::IndexAllocation => 0xA0,
            NtfsAttributeType::Bitmap => 0xB0,
            NtfsAttributeType::ReparsePoint => 0xC0,
            NtfsAttributeType::EAInformation => 0xD0,
            NtfsAttributeType::EA => 0xE0,
            NtfsAttributeType::PropertySet => 0xF0,
            NtfsAttributeType::LoggedUtilityStream => 0x100,
            NtfsAttributeType::End => END_CODE,
        }
    }

    /// Returns the type that has the given number, or `None` if no known type has it.
    pub fn n(code: u32) -> (ty: Option<NtfsAttributeType>)
        ensures
            ty == Self::spec_n(code),
            ty matches Some(known) ==> known.spec_code() == code,
            ty is Some <==> (0x10 <= code <= 0x100 && code % 0x10 == 0) || code == 0xFFFF_FFFF,
    {
        match code {
            0x10 => Some(NtfsAttributeType::StandardInformation),
            0x20 => Some(NtfsAttributeType::AttributeList),
            0x30 => Some(NtfsAttributeType::FileName),
            0x40 => Some(NtfsAttributeType::ObjectId),
            0x50 => Some(NtfsAttributeType::SecurityDescriptor),
            0x60 => Some(NtfsAttributeType::VolumeName),
            0x70 => Some(NtfsAttributeType::VolumeInformation),
            0x80 => Some(NtfsAttributeType::Data),
            0x90 => Some(NtfsAttributeType::IndexRoot),
            0xA0 => Some(NtfsAttributeType::IndexAllocation),
            0xB0 => Some(NtfsAttributeType::Bitmap),
            0xC0 => Some(NtfsAttributeType::ReparsePoint),
            0xD0 => Some(NtfsAttributeType::EAInformation),
            0xE0 => Some(NtfsAttributeType::EA),
            0xF0 => Some(NtfsAttributeType::PropertySet),
            0x100 => Some(NtfsAttributeType::LoggedUtilityStream),
            0xFFFF_FFFF => Some(NtfsAttributeType::End),
            _ => None,
        }
    }
}

/// The known types other than the end marker are numbered in steps of 16, from 16 on, in the
/// order in which they are declared; the end marker has the largest 32-bit number.
pub proof fn law_type_numbers()
    ensures
        NtfsAttributeType::StandardInformation.spec_code() == 0x10,
        NtfsAttributeType::AttributeList.spec_code() == 0x20,
        NtfsAttributeType::FileName.spec_code() == 0x30,
        NtfsAttributeType::ObjectId.spec_code() == 0x40,
        NtfsAttributeType::SecurityDescriptor.spec_code() == 0x50,
        NtfsAttributeType::VolumeName.spec_code() == 0x60,
        NtfsAttributeType::VolumeInformation.spec_code() == 0x70,
        NtfsAttributeType::Data.spec_code() == 0x80,
        NtfsAttributeType::IndexRoot.spec_code() == 0x90,
        NtfsAttributeType::IndexAllocation.spec_code() == 0xA0,
        NtfsAttributeType::Bitmap.spec_code() == 0xB0,
        NtfsAttributeType::ReparsePoint.spec_code() == 0xC0,
        NtfsAttributeType::EAInformation.spec_code() == 0xD0,
        NtfsAttributeType::EA.spec_code() == 0xE0,
        NtfsAttributeType::PropertySet.spec_code() == 0xF0,
        NtfsAttributeType::LoggedUtilityStream.spec_code() == 0x100,
        NtfsAttributeType::End.spec_code() == 0xFFFF_FFFF,
        END_CODE == 0xFFFF_FFFF,
{
}

/// A number is known if and only if it is a multiple of 16 from 16 to 256, or the largest 32-bit
/// number.
pub proof fn law_known_numbers(code: u32)
    ensures
        NtfsAttributeType::spec_n(code) is Some <==> (0x10 <= code <= 0x100 && code % 0x10 == 0)
            || code == 0xFFFF_FFFF,
{
}

/// No two types have the same number.
pub proof fn law_codes_are_distinct(ty: NtfsAttributeType, other: NtfsAttributeType)
    ensures
        ty.spec_code() == other.spec_code() ==> ty == other,
{
}

/// Looking up the number of a type gives the type back, and what a lookup finds has the
/// number that was looked up.
pub proof fn law_lookup_inverts_code(ty: NtfsAttributeType, code: u32)
    ensures
        NtfsAttributeType::spec_n(ty.spec_code()) == Some(ty),
        NtfsAttributeType::spec_n(code) == Some(ty) <==> ty.spec_code() == code,
        NtfsAttributeType::spec_n(code) is None <==> forall|known: NtfsAttributeType| #[trigger]
            known.spec_code() != code,
{
    if let Some(known) = NtfsAttributeType::spec_n(code) {
        assert(known.spec_code() == code);
    }
}

} // verus!
