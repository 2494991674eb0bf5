//! The headers of an attribute as they lie on disk.
use crate::little_endian::{
    law_bytes_have_weights, little_endian, read_le_i64, read_le_u16, read_le_u32, read_le_u64,
    read_le_u8, twos_complement_64,
};
use crate::types::Vcn;
use vstd::prelude::*;

verus! {

/// Number of bytes of a [`NtfsAttributeHeader`] on disk.
pub const HEADER_SIZE: u64 = 16;

/// Number of bytes of a [`NtfsAttributeResidentHeader`] on disk.
pub const RESIDENT_HEADER_SIZE: u64 = 7;

/// Number of bytes of a [`NtfsAttributeNonResidentHeader`] on disk.
pub const NON_RESIDENT_HEADER_SIZE: u64 = 48;

/// The generic header of an NTFS attribute.
#[derive(Clone, Copy, Debug, PartialEq, Eq)]
pub struct NtfsAttributeHeader {
    /// Type of the attribute, known types are in
    /// [`NtfsAttributeType`](crate::attribute_type::NtfsAttributeType).
    pub ty: u32,
    /// Length of the resident part of this attribute, in bytes.
    pub length: u32,
    /// 0 if this attribute has a resident value, 1 if it has a non-resident value.
    pub is_non_resident: u8,
    /// Length of the name, in UTF-16 code points (every code point is 2 bytes).
    pub name_length: u8,
    /// Offset to the beginning of the name, in bytes from the beginning of this header.
    pub name_offset: u16,
    /// Flags of the attribute, known flags are in
    /// [`NtfsAttributeFlags`](crate::attribute_flags::NtfsAttributeFlags).
    pub flags: u16,
    /// Identifier of this attribute that is unique within its file.
    pub instance: u16,
}

/// The extra header of an NTFS attribute that has a resident value.
#[derive(Clone, Copy, Debug, PartialEq, Eq)]
pub struct NtfsAttributeResidentHeader {
    /// Length of the value, in bytes.
    pub value_length: u32,
    /// Offset to the beginning of the value, in bytes from the beginning of the
    /// [`NtfsAttributeHeader`].
    pub value_offset: u16,
    /// 1 if this attribute is referenced in an index.
    pub indexed_flag: u8,
}

/// The extra header of an NTFS attribute that has a non-resident value.
#[derive(Clone, Copy, Debug, PartialEq, Eq)]
pub struct NtfsAttributeNonResidentHeader {
    /// Lower boundary of the Virtual Cluster Numbers referenced by this attribute. It is zero
    /// unless file data is split over multiple attributes.
    pub lowest_vcn: Vcn,
    /// Upper boundary of the Virtual Cluster Numbers referenced by this attribute. It is zero
    /// unless file data is split over multiple attributes, or -1 for zero-length files.
    pub highest_vcn: Vcn,
    /// Offset to the beginning of the value data runs.
    pub data_runs_offset: u16,
    /// Binary exponent denoting the number of clusters in a compression unit.
    pub compression_unit_exponent: u8,
    pub reserved: [u8; 5],
    /// Allocated space for the attribute value, in bytes.
    pub allocated_size: u64,
    /// Size of the attribute value, in bytes. It can be larger than `allocated_size` if the
    /// value is compressed or stored sparsely.
    pub data_size: u64,
    /// Size of the initialized part of the attribute value, in bytes.
    pub initialized_size: u64,
}

/// The extra header that follows the generic one.
#[derive(Clone, Copy, Debug, PartialEq, Eq)]
pub enum NtfsAttributeExtraHeader {
    Resident(NtfsAttributeResidentHeader),
    NonResident(NtfsAttributeNonResidentHeader),
}

/// The generic header that `bytes` starts with.
pub open spec fn header_of(bytes: Seq<u8>) -> NtfsAttributeHeader {
    NtfsAttributeHeader {
        ty: little_endian(bytes, 0, 4) as u32,
        length: little_endian(bytes, 4, 4) as u32,
        is_non_resident: bytes[8],
        name_length: bytes[9],
        name_offset: little_endian(bytes, 10, 2) as u16,
        flags: little_endian(bytes, 12, 2) as u16,
        instance: little_endian(bytes, 14, 2) as u16,
    }
}

/// The resident header that `bytes` starts with.
pub open spec fn resident_header_of(bytes: Seq<u8>) -> NtfsAttributeResidentHeader {
    NtfsAttributeResidentHeader {
        value_length: little_endian(bytes, 0, 4) as u32,
        value_offset: little_endian(bytes, 4, 2) as u16,
        indexed_flag: bytes[6],
    }
}

/// The non-resident header that `bytes` starts with.
pub open spec fn non_resident_header_of(bytes: Seq<u8>) -> NtfsAttributeNonResidentHeader {
    NtfsAttributeNonResidentHeader {
        lowest_vcn: Vcn(twos_complement_64(little_endian(bytes, 0, 8)) as i64),
        highest_vcn: Vcn(twos_complement_64(little_endian(bytes, 8, 8)) as i64),
        data_runs_offset: little_endian(bytes, 16, 2) as u16,
        compression_unit_exponent: bytes[18],
        reserved: [bytes[19], bytes[20], bytes[21], bytes[22], bytes[23]],
        allocated_size: little_endian(bytes, 24, 8) as u64,
        data_size: little_endian(bytes, 32, 8) as u64,
        initialized_size: little_endian(bytes, 40, 8) as u64,
    }
}

/// Where each field of the generic header lies. It takes 16 bytes.
pub proof fn law_header_layout(bytes: Seq<u8>)
    ensures
        HEADER_SIZE == 16,
        header_of(bytes).ty == little_endian(bytes, 0, 4),
        header_of(bytes).length == little_endian(bytes, 4, 4),
        header_of(bytes).is_non_resident == bytes[8],
        header_of(bytes).name_length == bytes[9],
        header_of(bytes).name_offset == little_endian(bytes, 10, 2),
        header_of(bytes).flags == little_endian(bytes, 12, 2),
        header_of(bytes).instance == little_endian(bytes, 14, 2),
{
    law_bytes_have_weights(bytes, 0);
    law_bytes_have_weights(bytes, 4);
    law_bytes_have_weights(bytes, 10);
    law_bytes_have_weights(bytes, 12);
    law_bytes_have_weights(bytes, 14);
}

/// Where each field of the resident header lies. It takes 7 bytes.
pub proof fn law_resident_header_layout(bytes: Seq<u8>)
    ensures
        RESIDENT_HEADER_SIZE == 7,
        resident_header_of(bytes).value_length == little_endian(bytes, 0, 4),
        resident_header_of(bytes).value_offset == little_endian(bytes, 4, 2),
        resident_header_of(bytes).indexed_flag == bytes[6],
{
    law_bytes_have_weights(bytes, 0);
    law_bytes_have_weights(bytes, 4);
}

/// Where each field of the non-resident header lies. It takes 48 bytes.
pub proof fn law_non_resident_header_layout(bytes: Seq<u8>)
    ensures
        NON_RESIDENT_HEADER_SIZE == 48,
        non_resident_header_of(bytes).lowest_vcn.0 == twos_complement_64(
            little_endian(bytes, 0, 8),
        ),
        non_resident_header_of(bytes).highest_vcn.0 == twos_complement_64(
            little_endian(bytes, 8, 8),
        ),
        non_resident_header_of(bytes).data_runs_offset == little_endian(bytes, 16, 2),
        non_resident_header_of(bytes).compression_unit_exponent == bytes[18],
        24 <= bytes.len() ==> non_resident_header_of(bytes).reserved@ == bytes.subrange(19, 24),
        non_resident_header_of(bytes).allocated_size == little_endian(bytes, 24, 8),
        non_resident_header_of(bytes).data_size == little_endian(bytes, 32, 8),
        non_resident_header_of(bytes).initialized_size == little_endian(bytes, 40, 8),
{
    law_bytes_have_weights(bytes, 0);
    law_bytes_have_weights(bytes, 8);
    law_bytes_have_weights(bytes, 16);
    law_bytes_have_weights(bytes, 24);
    law_bytes_have_weights(bytes, 32);
    law_bytes_have_weights(bytes, 40);
    if bytes.len() >= 24 {
        assert(non_resident_header_of(bytes).reserved@ =~= bytes.subrange(19, 24));
    }
}

/// The value is resident if and only if the byte that says otherwise is zero.
pub proof fn law_zero_means_resident(header: NtfsAttributeHeader)
    ensures
        header.says_resident() <==> header.is_non_resident == 0,
{
}

impl NtfsAttributeHeader {
    /// Whether the header says that the value is resident.
    pub open spec fn says_resident(self) -> bool {
        self.is_non_resident == 0
    }

    /// Returns `true` if the header says that the value is resident.
    pub fn is_resident(&self) -> (resident: bool)
        ensures
            resident == self.says_resident(),
            resident == (self.is_non_resident == 0),
    {
        self.is_non_resident == 0
    }

    /// Reads a header from the start of `bytes`. It fails exactly if `bytes` ends before
    /// the header does.
    pub fn parse(bytes: &[u8]) -> (result: Result<NtfsAttributeHeader, binread::Error>)
        ensures
            result is Ok <==> HEADER_SIZE <= bytes@.len(),
            result matches Ok(header) ==> header == header_of(bytes@),
    {
        let ty: u32 = read_le_u32(bytes, 0)?;
        let length: u32 = read_le_u32(bytes, 4)?;
        let is_non_resident: u8 = read_le_u8(bytes, 8)?;
        let name_length: u8 = read_le_u8(bytes, 9)?;
        let name_offset: u16 = read_le_u16(bytes, 10)?;
        let flags: u16 = read_le_u16(bytes, 12)?;
        let instance: u16 = read_le_u16(bytes, 14)?;
        Ok(
            NtfsAttributeHeader {
                ty,
                length,
                is_non_resident,
                name_length,
                name_offset,
                flags,
                instance,
            },
        )
    }
}

impl NtfsAttributeResidentHeader {
    /// Reads a resident header from the start of `bytes`. It fails exactly if `bytes` ends
    /// before the header does.
    pub fn parse(bytes: &[u8]) -> (result: Result<
        NtfsAttributeResidentHeader,
        binread::Error,
    >)
        ensures
            result is Ok <==> RESIDENT_HEADER_SIZE <= bytes@.len(),
            result matches Ok(header) ==> header == resident_header_of(bytes@),
    {
        let value_length: u32 = read_le_u32(bytes, 0)?;
        let value_offset: u16 = read_le_u16(bytes, 4)?;
        let indexed_flag: u8 = read_le_u8(bytes, 6)?;
        Ok(NtfsAttributeResidentHeader { value_length, value_offset, indexed_flag })
    }
}

impl NtfsAttributeNonResidentHeader {
    /// Reads a non-resident header from the start of `bytes`. It fails exactly if `bytes`
    /// ends before the header does.
    pub fn parse(bytes: &[u8]) -> (result: Result<
        NtfsAttributeNonResidentHeader,
        binread::Error,
    >)
        ensures
            result is Ok <==> NON_RESIDENT_HEADER_SIZE <= bytes@.len(),
            result matches Ok(header) ==> header == non_resident_header_of(bytes@),
    {
        let lowest_vcn: i64 = read_le_i64(bytes, 0)?;
        let highest_vcn: i64 = read_le_i64(bytes, 8)?;
        let data_runs_offset: u16 = read_le_u16(bytes, 16)?;
        let compression_unit_exponent: u8 = read_le_u8(bytes, 18)?;
        let reserved: [u8; 5] = [
            read_le_u8(bytes, 19)?,
            read_le_u8(bytes, 20)?,
            read_le_u8(bytes, 21)?,
            read_le_u8(bytes, 22)?,
            read_le_u8(bytes, 23)?,
        ];
        let allocated_size: u64 = read_le_u64(bytes, 24)?;
        let data_size: u64 = read_le_u64(bytes, 32)?;
        let initialized_size: u64 = read_le_u64(bytes, 40)?;
        Ok(
            NtfsAttributeNonResidentHeader {
                lowest_vcn: Vcn(lowest_vcn),
                highest_vcn: Vcn(highest_vcn),
                data_runs_offset,
                compression_unit_exponent,
                reserved,
                allocated_size,
                data_size,
                initialized_size,
            },
        )
    }
}

} // verus!
