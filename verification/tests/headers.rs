use ntfs_attribute::attribute_flags::{NtfsAttributeFlags, KNOWN_FLAGS};
use ntfs_attribute::attribute_header::{
    NtfsAttributeHeader, NtfsAttributeNonResidentHeader, NtfsAttributeResidentHeader,
};
use ntfs_attribute::attribute_type::{NtfsAttributeType, END_CODE};
use ntfs_attribute::attribute_value::{
    NtfsAttributeNonResidentValue, NtfsAttributeValue, NtfsDataRun,
};
use ntfs_attribute::types::Vcn;

const COMPRESSED: u16 = NtfsAttributeFlags::COMPRESSED;
const ENCRYPTED: u16 = NtfsAttributeFlags::ENCRYPTED;
const SPARSE: u16 = NtfsAttributeFlags::SPARSE;

const TYPES: [(NtfsAttributeType, u32); 17] = [
    (NtfsAttributeType::StandardInformation, 0x10),
    (NtfsAttributeType::AttributeList, 0x20),
    (NtfsAttributeType::FileName, 0x30),
    (NtfsAttributeType::ObjectId, 0x40),
    (NtfsAttributeType::SecurityDescriptor, 0x50),
    (NtfsAttributeType::VolumeName, 0x60),
    (NtfsAttributeType::VolumeInformation, 0x70),
    (NtfsAttributeType::Data, 0x80),
    (NtfsAttributeType::IndexRoot, 0x90),
    (NtfsAttributeType::IndexAllocation, 0xA0),
    (NtfsAttributeType::Bitmap, 0xB0),
    (NtfsAttributeType::ReparsePoint, 0xC0),
    (NtfsAttributeType::EAInformation, 0xD0),
    (NtfsAttributeType::EA, 0xE0),
    (NtfsAttributeType::PropertySet, 0xF0),
    (NtfsAttributeType::LoggedUtilityStream, 0x100),
    (NtfsAttributeType::End, 0xFFFF_FFFF),
];

#[test]
fn type_numbers() {
    for (ty, code) in TYPES {
        assert_eq!(ty.code(), code);
        assert_eq!(NtfsAttributeType::n(code), Some(ty));
    }
    assert_eq!(END_CODE, 0xFFFF_FFFF);
}

#[test]
fn unknown_type_numbers() {
    for code in [0, 1, 0x0F, 0x11, 0x88, 0xFF, 0x101, 0x110, 0x1000, 0x8000_0000, 0xFFFF_FFFE] {
        assert_eq!(NtfsAttributeType::n(code), None);
    }
}

#[test]
fn type_lookup_over_a_range() {
    let known: Vec<u32> = (0u32..0x200).filter(|code| NtfsAttributeType::n(*code).is_some()).collect();
    let expected: Vec<u32> = (1u32..=16).map(|i| i * 0x10).collect();
    assert_eq!(known, expected);
}

#[test]
fn flags_are_truncated() {
    assert_eq!(NtfsAttributeFlags::from_bits_truncate(0xFFFF).bits(), 0xC001);
    assert_eq!(NtfsAttributeFlags::from_bits_truncate(0x3FFE).bits(), 0);
    assert_eq!(NtfsAttributeFlags::from_bits_truncate(0x4003).bits(), 0x4001);
    assert_eq!(KNOWN_FLAGS, COMPRESSED | ENCRYPTED | SPARSE);
    for bits in 0u16..=0xFFFF {
        let flags = NtfsAttributeFlags::from_bits_truncate(bits);
        assert_eq!(NtfsAttributeFlags::from_bits_truncate(flags.bits()), flags);
        assert_eq!(flags.contains(COMPRESSED), bits & 0x0001 != 0);
        assert_eq!(flags.contains(ENCRYPTED), bits & 0x4000 != 0);
        assert_eq!(flags.contains(SPARSE), bits & 0x8000 != 0);
    }
}

#[test]
fn flags_queries() {
    let flags = NtfsAttributeFlags::from_bits_truncate(0x8001);
    assert!(!flags.is_empty());
    assert!(flags.contains(COMPRESSED | SPARSE));
    assert!(!flags.contains(COMPRESSED | ENCRYPTED));
    assert!(flags.contains(0));
    assert!(NtfsAttributeFlags::from_bits_truncate(0x0002).is_empty());
}

#[test]
fn generic_header_fields() {
    let bytes = [
        0x80, 0x01, 0x02, 0x03, 0x48, 0x01, 0x00, 0x10, 0x01, 0x04, 0x40, 0x01, 0x01, 0x80, 0x05,
        0x06, 0xEE,
    ];
    let header = NtfsAttributeHeader::parse(&bytes).unwrap();
    assert_eq!(
        header,
        NtfsAttributeHeader {
            ty: 0x0302_0180,
            length: 0x1000_0148,
            is_non_resident: 1,
            name_length: 4,
            name_offset: 0x0140,
            flags: 0x8001,
            instance: 0x0605,
        }
    );
    assert!(!header.is_resident());
    assert!(NtfsAttributeHeader::parse(&bytes[..16]).is_ok());
    for length in 0..16 {
        assert!(NtfsAttributeHeader::parse(&bytes[..length]).is_err());
    }
}

#[test]
fn residency_of_header() {
    let mut bytes = [0u8; 16];
    assert!(NtfsAttributeHeader::parse(&bytes).unwrap().is_resident());
    for value in 1..=255u8 {
        bytes[8] = value;
        assert!(!NtfsAttributeHeader::parse(&bytes).unwrap().is_resident());
    }
}

#[test]
fn resident_header_fields() {
    let bytes = [0x04, 0x03, 0x02, 0x81, 0x18, 0x01, 0x01];
    assert_eq!(
        NtfsAttributeResidentHeader::parse(&bytes).unwrap(),
        NtfsAttributeResidentHeader {
            value_length: 0x8102_0304,
            value_offset: 0x0118,
            indexed_flag: 1,
        }
    );
    for length in 0..7 {
        assert!(NtfsAttributeResidentHeader::parse(&bytes[..length]).is_err());
    }
}

#[test]
fn non_resident_header_fields() {
    let mut bytes = Vec::new();
    bytes.extend_from_slice(&[0x02, 0x01, 0, 0, 0, 0, 0, 0]);
    bytes.extend_from_slice(&[0xFF; 8]);
    bytes.extend_from_slice(&[0x40, 0x01]);
    bytes.push(4);
    bytes.extend_from_slice(&[1, 2, 3, 4, 5]);
    bytes.extend_from_slice(&[0, 0x10, 0, 0, 0, 0, 0, 0x80]);
    bytes.extend_from_slice(&[0xEF, 0xCD, 0xAB, 0x89, 0x67, 0x45, 0x23, 0x01]);
    bytes.extend_from_slice(&[0x0A, 0, 0, 0, 0, 0, 0, 0]);
    assert_eq!(bytes.len(), 48);
    assert_eq!(
        NtfsAttributeNonResidentHeader::parse(&bytes).unwrap(),
        NtfsAttributeNonResidentHeader {
            lowest_vcn: Vcn(0x0102),
            highest_vcn: Vcn(-1),
            data_runs_offset: 0x0140,
            compression_unit_exponent: 4,
            reserved: [1, 2, 3, 4, 5],
            allocated_size: 0x8000_0000_0000_1000,
            data_size: 0x0123_4567_89AB_CDEF,
            initialized_size: 10,
        }
    );
    for length in 0..48 {
        assert!(NtfsAttributeNonResidentHeader::parse(&bytes[..length]).is_err());
    }
}

#[test]
fn lengths_of_values() {
    let run = NtfsDataRun::from_byte_info(0x1018, 0x48);
    assert_eq!(run, NtfsDataRun { position: 0x1018, length: 0x48 });
    assert_eq!(NtfsAttributeValue::Resident(run).len(), 0x48);
    let value = NtfsAttributeNonResidentValue::new(0x1040..0x1050, 0x1_0000_0000);
    assert_eq!(value.data_runs_range, 0x1040..0x1050);
    assert_eq!(NtfsAttributeValue::NonResident(value).len(), 0x1_0000_0000);
}
