use ntfs_attribute::attribute::NtfsAttribute;
use ntfs_attribute::attribute_type::NtfsAttributeType;
use ntfs_attribute::attribute_value::{
    NtfsAttributeNonResidentValue, NtfsAttributeValue, NtfsDataRun,
};
use ntfs_attribute::attributes::NtfsAttributes;
use ntfs_attribute::error::NtfsError;
use ntfs_attribute::file::NtfsFile;
use ntfs_attribute::structured_values::{NtfsStructuredSource, NtfsStructuredValue};
use ntfs_attribute::window::NtfsWindow;

const FIRST: u64 = 0x4038;

fn header(ty: u32, length: u32, non_resident: u8, name_length: u8, name_offset: u16) -> Vec<u8> {
    let mut bytes = Vec::new();
    bytes.extend_from_slice(&ty.to_le_bytes());
    bytes.extend_from_slice(&length.to_le_bytes());
    bytes.push(non_resident);
    bytes.push(name_length);
    bytes.extend_from_slice(&name_offset.to_le_bytes());
    bytes.extend_from_slice(&0x8002u16.to_le_bytes());
    bytes.extend_from_slice(&3u16.to_le_bytes());
    bytes
}

/// A resident attribute of `length` bytes, whose value lies directly behind its headers.
fn resident(ty: u32, length: u32, value_length: u32) -> Vec<u8> {
    let mut bytes = header(ty, length, 0, 0, 0x18);
    bytes.extend_from_slice(&value_length.to_le_bytes());
    bytes.extend_from_slice(&0x18u16.to_le_bytes());
    bytes.push(1);
    bytes.resize((length as usize).max(bytes.len()), 0xAA);
    bytes
}

/// A non-resident attribute of `length` bytes, whose name lies directly behind its headers.
fn non_resident(ty: u32, length: u32, name: &str, data_size: u64) -> Vec<u8> {
    let name: Vec<u8> = name.encode_utf16().flat_map(|unit| unit.to_le_bytes()).collect();
    let mut bytes = header(ty, length, 1, (name.len() / 2) as u8, 0x40);
    bytes.extend_from_slice(&0i64.to_le_bytes());
    bytes.extend_from_slice(&7i64.to_le_bytes());
    bytes.extend_from_slice(&0x48u16.to_le_bytes());
    bytes.extend_from_slice(&[0; 6]);
    bytes.extend_from_slice(&0x8000u64.to_le_bytes());
    bytes.extend_from_slice(&data_size.to_le_bytes());
    bytes.extend_from_slice(&data_size.to_le_bytes());
    bytes.extend_from_slice(&name);
    bytes.resize((length as usize).max(bytes.len()), 0xBB);
    bytes
}

fn end_marker() -> Vec<u8> {
    vec![0xFF, 0xFF, 0xFF, 0xFF]
}

/// The list and the window of a file that has the given attributes.
fn list_of(attributes: &[Vec<u8>]) -> (NtfsAttributes, NtfsWindow) {
    let bytes: Vec<u8> = attributes.concat();
    let file = NtfsFile {
        position: 0x4000,
        first_attribute_offset: 0x38,
        used_size: 0x38 + bytes.len() as u32,
    };
    (NtfsAttributes::new(&file), NtfsWindow::new(FIRST, bytes))
}

fn single(attribute: Vec<u8>) -> (NtfsAttribute, NtfsWindow) {
    let (mut list, fs) = list_of(&[attribute]);
    let attribute = list.next(&fs).unwrap().unwrap();
    (attribute, fs)
}

fn error_of(item: Option<Result<NtfsAttribute, NtfsError>>) -> NtfsError {
    item.unwrap().unwrap_err()
}

#[test]
fn file_record() {
    let file = NtfsFile { position: 0x4000, first_attribute_offset: 0x38, used_size: 0x1A0 };
    assert_eq!(file.position(), 0x4000);
    assert_eq!(file.first_attribute_offset(), 0x38);
    assert_eq!(file.used_size(), 0x1A0);
    assert_eq!(NtfsAttributes::new(&file).next_position(), 0x4038);
}

#[test]
fn list_is_visited_in_order() {
    let (mut list, fs) = list_of(&[
        resident(0x10, 0x60, 0x48),
        resident(0x30, 0x70, 0x52),
        non_resident(0x80, 0x50, "", 0x1234),
        end_marker(),
        vec![0; 4],
    ]);
    let mut seen = Vec::new();
    while let Some(item) = list.next(&fs) {
        let attribute = item.unwrap();
        seen.push((attribute.position(), attribute.attribute_length(), attribute.ty().unwrap()));
        assert_eq!(list.next_position(), attribute.position() + attribute.attribute_length() as u64);
    }
    assert_eq!(
        seen,
        vec![
            (0x4038, 0x60, NtfsAttributeType::StandardInformation),
            (0x4098, 0x70, NtfsAttributeType::FileName),
            (0x4108, 0x50, NtfsAttributeType::Data),
        ]
    );
    assert_eq!(list.next_position(), 0x4158);
}

#[test]
fn end_marker_is_final() {
    let (mut list, fs) = list_of(&[end_marker(), resident(0x10, 0x60, 0x48)]);
    for _ in 0..3 {
        assert!(list.next(&fs).is_none());
        assert_eq!(list.next_position(), FIRST);
    }
}

#[test]
fn end_of_range_is_final() {
    let (mut list, fs) = list_of(&[resident(0x10, 0x60, 0x48)]);
    assert!(list.next(&fs).unwrap().is_ok());
    for _ in 0..3 {
        assert!(list.next(&fs).is_none());
        assert_eq!(list.next_position(), FIRST + 0x60);
    }
}

#[test]
fn empty_and_reversed_ranges_read_nothing() {
    let fs = NtfsWindow::new(0, Vec::new());
    for used_size in [0x38, 0x37, 0] {
        let file = NtfsFile { position: 0x4000, first_attribute_offset: 0x38, used_size };
        assert!(NtfsAttributes::new(&file).next(&fs).is_none());
    }
}

#[test]
fn attribute_may_reach_beyond_the_range() {
    let file = NtfsFile { position: 0x4000, first_attribute_offset: 0x38, used_size: 0x39 };
    let mut list = NtfsAttributes::new(&file);
    let fs = NtfsWindow::new(FIRST, resident(0x10, 0x60, 0x48));
    assert_eq!(list.next(&fs).unwrap().unwrap().attribute_length(), 0x60);
    assert!(list.next(&fs).is_none());
}

#[test]
fn window_may_start_before_the_list() {
    let (mut list, _) = list_of(&[resident(0x10, 0x60, 0x48)]);
    let mut bytes = vec![0xCC; 0x38];
    bytes.extend_from_slice(&resident(0x10, 0x60, 0x48));
    let fs = NtfsWindow::new(0x4000, bytes);
    let attribute = list.next(&fs).unwrap().unwrap();
    assert_eq!(attribute.ty(), Ok(NtfsAttributeType::StandardInformation));
    assert_eq!(attribute.value_length(), 0x48);
}

#[test]
fn missing_bytes_are_asked_for() {
    let resident = resident(0x10, 0x60, 0x48);
    let non_resident = non_resident(0x80, 0x50, "", 0x1234);
    for length in 0..64usize {
        for bytes in [&resident, &non_resident] {
            let (mut list, _) = list_of(&[bytes.clone()]);
            let fs = NtfsWindow::new(FIRST, bytes[..length].to_vec());
            let is_resident = bytes[8] == 0;
            let wanted = match length {
                0..=3 => 4,
                4..=15 => 16,
                _ if is_resident => 23,
                _ => 64,
            };
            if length < wanted {
                let expected = NtfsError::OutOfWindow { position: FIRST, length: wanted as u64 };
                assert_eq!(error_of(list.next(&fs)), expected);
                assert_eq!(list.next_position(), FIRST);
            } else {
                assert!(list.next(&fs).unwrap().is_ok());
            }
        }
    }
}

#[test]
fn missing_bytes_before_and_behind_the_window() {
    let (mut list, _) = list_of(&[resident(0x10, 0x60, 0x48)]);
    let expected = NtfsError::OutOfWindow { position: FIRST, length: 4 };
    for start in [0, FIRST - 0x60, FIRST + 1, u64::MAX] {
        let fs = NtfsWindow::new(start, resident(0x10, 0x60, 0x48));
        assert_eq!(error_of(list.next(&fs)), expected);
    }
}

#[test]
fn error_can_be_retried_with_a_larger_window() {
    let bytes = non_resident(0x80, 0x50, "", 0x1234);
    let (mut list, _) = list_of(&[bytes.clone()]);
    let mut length = 0usize;
    let mut requests = Vec::new();
    let attribute = loop {
        let fs = NtfsWindow::new(list.next_position(), bytes[..length].to_vec());
        match list.next(&fs).unwrap() {
            Ok(attribute) => break attribute,
            Err(NtfsError::OutOfWindow { position, length: wanted }) => {
                assert_eq!(position, FIRST);
                requests.push(wanted);
                length = wanted as usize;
            }
            Err(error) => panic!("unexpected error {:?}", error),
        }
    };
    assert_eq!(requests, vec![4, 16, 64]);
    assert_eq!(attribute.value_length(), 0x1234);
}

#[test]
fn resident_attribute() {
    let (attribute, _) = single(resident(0x30, 0x70, 0x52));
    assert!(attribute.is_resident());
    assert_eq!(attribute.position(), FIRST);
    assert_eq!(attribute.attribute_length(), 0x70);
    assert_eq!(attribute.flags().bits(), 0x8000);
    assert_eq!(attribute.name_length(), 0);
    assert_eq!(attribute.ty(), Ok(NtfsAttributeType::FileName));
    assert_eq!(attribute.value_length(), 0x52);
    let value = attribute.value();
    assert_eq!(value.len(), attribute.value_length());
    let run = NtfsDataRun { position: FIRST + 0x18, length: 0x52 };
    assert_eq!(value, NtfsAttributeValue::Resident(run));
}

#[test]
fn non_resident_attribute() {
    let (attribute, _) = single(non_resident(0x80, 0x50, "$J", 0x1_0000_1234));
    assert!(!attribute.is_resident());
    assert_eq!(attribute.name_length(), 4);
    assert_eq!(attribute.ty(), Ok(NtfsAttributeType::Data));
    assert_eq!(attribute.value_length(), 0x1_0000_1234);
    let value = attribute.value();
    assert_eq!(value.len(), attribute.value_length());
    assert_eq!(
        value,
        NtfsAttributeValue::NonResident(NtfsAttributeNonResidentValue {
            data_runs_range: FIRST + 0x48..FIRST + 0x50,
            data_size: 0x1_0000_1234,
        })
    );
}

#[test]
fn longest_name() {
    let (attribute, _) = single(header(0x80, 0x50, 0, 255, 0x18).into_iter().chain([0; 7]).collect());
    assert_eq!(attribute.name_length(), 510);
}

#[test]
fn unknown_type() {
    for code in [0u32, 0x88, 0x110, 0xFFFF_FFFE] {
        let (attribute, _) = single(resident(code, 0x60, 0x48));
        let expected =
            NtfsError::UnsupportedNtfsAttributeType { position: FIRST, actual: code };
        assert_eq!(attribute.ty(), Err(expected));
        assert_eq!(attribute.structured_value(), Err(expected));
    }
}

#[test]
fn name_is_read_into_the_buffer() {
    let (attribute, fs) = single(non_resident(0xA0, 0x50, "$I30", 0x1000));
    let mut buf = [0xEEu8; 10];
    let name = attribute.read_name(&fs, &mut buf).unwrap();
    assert_eq!(name.0, &[0x24, 0, 0x49, 0, 0x33, 0, 0x30, 0]);
    assert_eq!(buf, [0x24, 0, 0x49, 0, 0x33, 0, 0x30, 0, 0xEE, 0xEE]);
}

#[test]
fn name_does_not_fit_the_buffer() {
    let (attribute, fs) = single(non_resident(0xA0, 0x50, "$I30", 0x1000));
    let mut buf = [0xEEu8; 7];
    let error = attribute.read_name(&fs, &mut buf).unwrap_err();
    assert_eq!(error, NtfsError::BufferTooSmall { expected: 8, available: 7 });
    assert_eq!(buf, [0xEE; 7]);
}

#[test]
fn name_is_not_in_the_window() {
    let bytes = non_resident(0xA0, 0x50, "$I30", 0x1000);
    let (attribute, _) = single(bytes.clone());
    let fs = NtfsWindow::new(FIRST, bytes[..0x47].to_vec());
    let mut buf = [0xEEu8; 8];
    let error = attribute.read_name(&fs, &mut buf).unwrap_err();
    assert_eq!(error, NtfsError::OutOfWindow { position: FIRST + 0x40, length: 8 });
    assert_eq!(buf, [0xEE; 8]);
}

#[test]
fn empty_name_needs_no_bytes() {
    let (attribute, _) = single(resident(0x30, 0x70, 0x52));
    let fs = NtfsWindow::new(0, Vec::new());
    let mut buf = [0u8; 0];
    assert!(attribute.read_name(&fs, &mut buf).unwrap().0.is_empty());
}

#[test]
fn structured_values() {
    let source = || NtfsStructuredSource {
        value: NtfsAttributeValue::Resident(NtfsDataRun { position: FIRST + 0x18, length: 0x48 }),
        length: 0x48,
    };
    let cases = [
        (0x10, NtfsStructuredValue::StandardInformation(source())),
        (0x30, NtfsStructuredValue::FileName(source())),
        (0x40, NtfsStructuredValue::ObjectId(source())),
        (0x60, NtfsStructuredValue::VolumeName(source())),
        (0x70, NtfsStructuredValue::VolumeInformation(source())),
        (0x90, NtfsStructuredValue::IndexRoot(source())),
        (0xA0, NtfsStructuredValue::IndexAllocation(source())),
    ];
    for (code, expected) in cases {
        let (attribute, _) = single(resident(code, 0x60, 0x48));
        assert_eq!(attribute.structured_value(), Ok(expected));
    }
}

#[test]
fn structured_value_of_non_resident_attribute() {
    let (attribute, _) = single(non_resident(0xA0, 0x50, "$I30", 0x1000));
    let value = NtfsAttributeValue::NonResident(NtfsAttributeNonResidentValue {
        data_runs_range: FIRST + 0x48..FIRST + 0x50,
        data_size: 0x1000,
    });
    let source = NtfsStructuredSource { value, length: 0x1000 };
    assert_eq!(
        attribute.structured_value(),
        Ok(NtfsStructuredValue::IndexAllocation(source))
    );
}

#[test]
fn values_without_structure() {
    let cases = [
        (0x80, NtfsAttributeType::Data),
        (0xB0, NtfsAttributeType::Bitmap),
        (0xC0, NtfsAttributeType::ReparsePoint),
        (0xD0, NtfsAttributeType::EAInformation),
        (0xE0, NtfsAttributeType::EA),
        (0xF0, NtfsAttributeType::PropertySet),
        (0x100, NtfsAttributeType::LoggedUtilityStream),
    ];
    for (code, ty) in cases {
        let (attribute, _) = single(resident(code, 0x60, 0x48));
        let expected = NtfsError::UnsupportedStructuredValue { position: FIRST, ty };
        assert_eq!(attribute.structured_value(), Err(expected));
    }
}

#[test]
fn value_that_cannot_be_opened() {
    let failure = NtfsError::OutOfWindow { position: 0x4080, length: 8 };
    for code in [0x30, 0x80, 0x88, 0x20, 0x50] {
        let (attribute, _) = single(resident(code, 0x60, 0x48));
        assert_eq!(attribute.structured_value_from(Err(failure)), Err(failure));
    }
}

#[test]
fn opened_value_is_passed_on() {
    let (attribute, _) = single(non_resident(0xA0, 0x50, "$I30", 0x1000));
    let opened = || NtfsAttributeValue::Resident(NtfsDataRun { position: 0x9000, length: 0x77 });
    let source = NtfsStructuredSource { value: opened(), length: 0x77 };
    assert_eq!(
        attribute.structured_value_from(Ok(opened())),
        Ok(NtfsStructuredValue::IndexAllocation(source))
    );
}

#[test]
fn positions_beyond_64_bits() {
    for (position, name_fits, value_fits, next_fits) in [
        (u64::MAX - 0x50, true, true, true),
        (u64::MAX - 0x4F, true, false, false),
        (u64::MAX - 0x48, true, false, false),
        (u64::MAX - 0x40, true, false, false),
        (u64::MAX - 0x3F, false, false, false),
    ] {
        let file = NtfsFile { position, first_attribute_offset: 0, used_size: 1 };
        let mut list = NtfsAttributes::new(&file);
        let fs = NtfsWindow::new(position, non_resident(0x80, 0x50, "$J", 0x1234));
        assert_eq!(list.next_is_addressable(&fs), next_fits);
        let short = non_resident(0x80, 0x3F, "$J", 0x1234);
        let short_fs = NtfsWindow::new(position, short);
        assert!(list.next_is_addressable(&short_fs));
        assert!(list.next_is_addressable(&NtfsWindow::new(0, Vec::new())));
        if next_fits {
            let attribute = list.next(&fs).unwrap().unwrap();
            assert!(attribute.value_is_addressable());
            assert_eq!(list.next_position(), u64::MAX);
        } else {
            let attribute = list.next(&short_fs).unwrap().unwrap();
            assert_eq!(attribute.name_is_addressable(), name_fits);
            assert_eq!(attribute.value_is_addressable(), value_fits || position <= u64::MAX - 0x48);
        }
    }
}

#[test]
fn resident_value_beyond_64_bits() {
    for (position, fits) in [(u64::MAX - 0x18, true), (u64::MAX - 0x17, false)] {
        let file = NtfsFile { position, first_attribute_offset: 0, used_size: 1 };
        let mut list = NtfsAttributes::new(&file);
        let fs = NtfsWindow::new(position, resident(0x10, 0x10, 0x48));
        let attribute = list.next(&fs).unwrap().unwrap();
        assert_eq!(attribute.value_is_addressable(), fits);
    }
}

#[test]
fn search_finds_the_first() {
    let (mut list, fs) = list_of(&[
        resident(0x10, 0x60, 0x48),
        resident(0x30, 0x70, 0x52),
        resident(0x30, 0x78, 0x5A),
        end_marker(),
    ]);
    assert!(list.search_ends(&fs, NtfsAttributeType::FileName));
    let first = list.find_first_by_ty(&fs, NtfsAttributeType::FileName).unwrap().unwrap();
    assert_eq!((first.position(), first.value_length()), (0x4098, 0x52));
    assert_eq!(list.next_position(), 0x4108);
    let second = list.find_first_by_ty(&fs, NtfsAttributeType::FileName).unwrap().unwrap();
    assert_eq!((second.position(), second.value_length()), (0x4108, 0x5A));
    assert!(list.find_first_by_ty(&fs, NtfsAttributeType::FileName).is_none());
    assert_eq!(list.next_position(), 0x4180);
}

#[test]
fn search_finds_nothing() {
    let attributes = [resident(0x10, 0x60, 0x48), resident(0x30, 0x70, 0x52), end_marker()];
    for ty in [NtfsAttributeType::Data, NtfsAttributeType::End] {
        let (mut list, fs) = list_of(&attributes);
        assert!(list.search_ends(&fs, ty));
        assert!(list.find_first_by_ty(&fs, ty).is_none());
        assert_eq!(list.next_position(), 0x4108);
    }
}

#[test]
fn search_stops_at_an_unknown_type() {
    let (mut list, fs) = list_of(&[
        resident(0x10, 0x60, 0x48),
        resident(0x88, 0x20, 0),
        resident(0x80, 0x20, 5),
    ]);
    let expected = NtfsError::UnsupportedNtfsAttributeType { position: 0x4098, actual: 0x88 };
    assert!(list.search_ends(&fs, NtfsAttributeType::Data));
    assert_eq!(error_of(list.find_first_by_ty(&fs, NtfsAttributeType::Data)), expected);
    assert_eq!(list.next_position(), 0x40B8);
    let found = list.find_first_by_ty(&fs, NtfsAttributeType::Data).unwrap().unwrap();
    assert_eq!(found.value_length(), 5);
}

#[test]
fn search_stops_at_missing_bytes_and_resumes() {
    let attributes = [resident(0x10, 0x60, 0x48), resident(0x30, 0x70, 0x52), end_marker()];
    let (mut list, larger) = list_of(&attributes);
    let fs = NtfsWindow::new(FIRST, attributes.concat()[..0x6A].to_vec());
    let expected = NtfsError::OutOfWindow { position: 0x4098, length: 16 };
    assert!(list.search_ends(&fs, NtfsAttributeType::FileName));
    assert_eq!(error_of(list.find_first_by_ty(&fs, NtfsAttributeType::FileName)), expected);
    assert_eq!(list.next_position(), 0x4098);
    let found = list.find_first_by_ty(&larger, NtfsAttributeType::FileName).unwrap().unwrap();
    assert_eq!(found.position(), 0x4098);
}

#[test]
fn search_over_an_attribute_of_length_zero() {
    let attributes = [resident(0x10, 0x60, 0x48), resident(0x30, 0, 0x52), end_marker()];
    let (mut list, fs) = list_of(&attributes);
    assert!(!list.search_ends(&fs, NtfsAttributeType::Data));
    assert!(list.search_ends(&fs, NtfsAttributeType::FileName));
    let found = list.find_first_by_ty(&fs, NtfsAttributeType::FileName).unwrap().unwrap();
    assert_eq!((found.position(), found.attribute_length()), (0x4098, 0));
    assert_eq!(list.next_position(), 0x4098);
}

#[test]
fn search_beyond_the_last_position() {
    let file = NtfsFile {
        position: u64::MAX - 0x40,
        first_attribute_offset: 0,
        used_size: 0x40,
    };
    let list = NtfsAttributes::new(&file);
    let fs = NtfsWindow::new(u64::MAX - 0x40, resident(0x10, 0x60, 0x48));
    assert!(!list.search_ends(&fs, NtfsAttributeType::StandardInformation));
}

#[test]
fn attach_and_detach() {
    let (list, fs) = list_of(&[
        resident(0x10, 0x60, 0x48),
        resident(0x30, 0x70, 0x52),
        end_marker(),
    ]);
    let mut attached = list.attach(&fs);
    assert_eq!(attached.next().unwrap().unwrap().position(), 0x4038);
    let list = attached.detach();
    assert_eq!(list.next_position(), 0x4098);
    let mut attached = list.attach(&fs);
    assert_eq!(attached.next().unwrap().unwrap().position(), 0x4098);
    assert!(attached.next().is_none());
    assert!(attached.next().is_none());
    assert_eq!(attached.detach().next_position(), 0x4108);
}

#[test]
fn bytes_of_a_window() {
    let fs = NtfsWindow::new(0x100, vec![1, 2, 3]);
    assert_eq!(fs.bytes_from(0x100), &[1, 2, 3]);
    assert_eq!(fs.bytes_from(0x102), &[3]);
    for position in [0, 0xFF, 0x103, 0x104, u64::MAX] {
        assert!(fs.bytes_from(position).is_empty());
    }
}
