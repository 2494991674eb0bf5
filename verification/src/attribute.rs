//! A single attribute.
use crate::attribute_flags::{NtfsAttributeFlags, KNOWN_FLAGS};
use crate::attribute_header::{
    header_of, non_resident_header_of, resident_header_of, NtfsAttributeExtraHeader,
    NtfsAttributeHeader, NtfsAttributeNonResidentHeader, NtfsAttributeResidentHeader, HEADER_SIZE,
    NON_RESIDENT_HEADER_SIZE, RESIDENT_HEADER_SIZE,
};
use crate::attribute_type::{
    law_known_numbers, law_lookup_inverts_code, NtfsAttributeType, END_CODE,
};
use crate::attribute_value::{NtfsAttributeNonResidentValue, NtfsAttributeValue, NtfsDataRun};
use crate::error::NtfsError;
use crate::string::NtfsString;
use crate::structured_values::{NtfsStructuredSource, NtfsStructuredValue};
use crate::window::{NtfsWindow, WindowModel};
use vstd::prelude::*;
use vstd::slice::slice_subrange;

verus! {

/// What a [`NtfsAttribute`] holds.
pub struct AttributeModel {
    /// Absolute position of the attribute within the filesystem, in bytes.
    pub position: u64,
    pub header: NtfsAttributeHeader,
    pub extra_header: NtfsAttributeExtraHeader,
}

impl AttributeModel {
    /// Whether the generic header describes a real attribute with this extra header.
    pub open spec fn wf(self) -> bool {
        &&& self.header.ty != END_CODE
        &&& self.header.says_resident() <==> self.extra_header is Resident
    }

    /// The known type of the attribute, or the error for a type that is not known.
    pub open spec fn ty(self) -> Result<NtfsAttributeType, NtfsError> {
        match NtfsAttributeType::spec_n(self.header.ty) {
            Some(ty) => Ok(ty),
            None => Err(
                NtfsError::UnsupportedNtfsAttributeType {
                    position: self.position,
                    actual: self.header.ty,
                },
            ),
        }
    }

    /// Length of the value, in bytes.
    pub open spec fn value_length(self) -> u64 {
        match self.extra_header {
            NtfsAttributeExtraHeader::Resident(resident) => resident.value_length as u64,
            NtfsAttributeExtraHeader::NonResident(non_resident) => non_resident.data_size,
        }
    }

    /// Absolute position of the value, or of the list of its data runs.
    pub open spec fn value_position(self) -> int {
        match self.extra_header {
            NtfsAttributeExtraHeader::Resident(resident) => self.position + resident.value_offset,
            NtfsAttributeExtraHeader::NonResident(non_resident) => self.position
                + non_resident.data_runs_offset,
        }
    }

    /// Absolute position of the first byte after the attribute.
    pub open spec fn end(self) -> int {
        self.position + self.header.length
    }

    /// Whether the positions by which the value is described are ones that a 64-bit number holds.
    pub open spec fn value_is_addressable(self) -> bool {
        &&& self.value_position() <= u64::MAX
        &&& self.extra_header is NonResident ==> self.end() <= u64::MAX
    }

    /// The value of the attribute.
    pub open spec fn value(self) -> NtfsAttributeValue {
        match self.extra_header {
            NtfsAttributeExtraHeader::Resident(_) => NtfsAttributeValue::Resident(
                NtfsDataRun {
                    position: self.value_position() as u64,
                    length: self.value_length(),
                },
            ),
            NtfsAttributeExtraHeader::NonResident(_) => NtfsAttributeValue::NonResident(
                NtfsAttributeNonResidentValue {
                    data_runs_range: (self.value_position() as u64)..(self.end() as u64),
                    data_size: self.value_length(),
                },
            ),
        }
    }

    /// Absolute position of the name.
    pub open spec fn name_position(self) -> int {
        self.position + self.header.name_offset
    }

    /// Length of the name, in bytes.
    pub open spec fn name_length(self) -> int {
        2 * self.header.name_length
    }
}

/// The extra header that lies behind `header` in the bytes of an attribute, or the error if
/// the attribute at `position` has too few bytes.
pub open spec fn extra_header_of(
    bytes: Seq<u8>,
    position: u64,
    header: NtfsAttributeHeader,
) -> Result<NtfsAttributeExtraHeader, NtfsError> {
    let size = HEADER_SIZE + if header.says_resident() {
        RESIDENT_HEADER_SIZE
    } else {
        NON_RESIDENT_HEADER_SIZE
    };
    let rest = bytes.skip(HEADER_SIZE as int);
    if bytes.len() < size {
        Err(NtfsError::OutOfWindow { position, length: size as u64 })
    } else if header.says_resident() {
        Ok(NtfsAttributeExtraHeader::Resident(resident_header_of(rest)))
    } else {
        Ok(NtfsAttributeExtraHeader::NonResident(non_resident_header_of(rest)))
    }
}

/// The attribute that lies at `position`, or the error if the window does not hold its headers.
pub open spec fn attribute_at(fs: WindowModel, position: u64) -> Result<AttributeModel, NtfsError> {
    let bytes = fs.known_from(position as int);
    let header = header_of(bytes);
    if bytes.len() < HEADER_SIZE {
        Err(NtfsError::OutOfWindow { position, length: HEADER_SIZE })
    } else {
        match extra_header_of(bytes, position, header) {
            Ok(extra_header) => Ok(AttributeModel { position, header, extra_header }),
            Err(error) => Err(error),
        }
    }
}

impl NtfsAttributeExtraHeader {
    /// Reads the extra header of the attribute at `position`, which has the generic header
    /// `header`.
    pub(crate) fn new(fs: &NtfsWindow, position: u64, header: &NtfsAttributeHeader) -> (result:
        Result<NtfsAttributeExtraHeader, NtfsError>)
        requires
            fs@.covers(position as int, HEADER_SIZE as int),
        ensures
            result == extra_header_of(fs@.known_from(position as int), position, *header),
    {
        let bytes = fs.bytes_from(position);
        let rest = slice_subrange(bytes, HEADER_SIZE as usize, bytes.len());
        assert(rest@ =~= bytes@.skip(HEADER_SIZE as int));
        if header.is_resident() {
            match NtfsAttributeResidentHeader::parse(rest) {
                Ok(resident_header) => Ok(NtfsAttributeExtraHeader::Resident(resident_header)),
                Err(_) => Err(
                    NtfsError::OutOfWindow { position, length: HEADER_SIZE + RESIDENT_HEADER_SIZE },
                ),
            }
        } else {
            match NtfsAttributeNonResidentHeader::parse(rest) {
                Ok(non_resident_header) => Ok(
                    NtfsAttributeExtraHeader::NonResident(non_resident_header),
                ),
                Err(_) => Err(
                    NtfsError::OutOfWindow {
                        position,
                        length: HEADER_SIZE + NON_RESIDENT_HEADER_SIZE,
                    },
                ),
            }
        }
    }
}

/// An attribute of an NTFS file.
#[derive(Debug)]
pub struct NtfsAttribute {
    position: u64,
    header: NtfsAttributeHeader,
    extra_header: NtfsAttributeExtraHeader,
}

impl View for NtfsAttribute {
    type V = AttributeModel;

    closed spec fn view(&self) -> AttributeModel {
        AttributeModel {
            position: self.position,
            header: self.header,
            extra_header: self.extra_header,
        }
    }
}

/// What a fallible function returns, with the attribute replaced by what it holds.
pub open spec fn result_view(result: Result<NtfsAttribute, NtfsError>) -> Result<
    AttributeModel,
    NtfsError,
> {
    match result {
        Ok(attribute) => Ok(attribute@),
        Err(error) => Err(error),
    }
}

/// An attribute is replaced by what it holds, and an error by itself.
pub proof fn law_result_view_is_faithful(attribute: NtfsAttribute, error: NtfsError)
    ensures
        result_view(Ok(attribute)) == Ok::<AttributeModel, NtfsError>(attribute@),
        result_view(Err(error)) == Err::<AttributeModel, NtfsError>(error),
{
}

/// Whether `result` is the structured value of an attribute whose value was opened to `value`: an
/// error in opening it, then an unknown type, then a type without structured values are errors.
pub open spec fn is_structured_value(
    attribute: AttributeModel,
    value: Result<NtfsAttributeValue, NtfsError>,
    result: Result<NtfsStructuredValue, NtfsError>,
) -> bool {
    match (value, attribute.ty()) {
        (Err(error), _) => result == Err::<NtfsStructuredValue, NtfsError>(error),
        (Ok(_), Err(error)) => result == Err::<NtfsStructuredValue, NtfsError>(error),
        (Ok(opened), Ok(ty)) => if ty.has_structured_value() {
            &&& result matches Ok(structured)
            &&& structured.spec_ty() == ty
            &&& structured.spec_source().value == opened
            &&& structured.spec_source().length == opened.spec_len()
        } else {
            result == Err::<NtfsStructuredValue, NtfsError>(
                NtfsError::UnsupportedStructuredValue { position: attribute.position, ty },
            )
        },
    }
}

impl NtfsAttribute {
    #[verifier::type_invariant]
    spec fn well_formed(self) -> bool {
        self@.wf()
    }

    /// Reads the attribute at `position`. This must be a real attribute and not an end marker.
    pub(crate) fn new(fs: &NtfsWindow, position: u64) -> (result: Result<NtfsAttribute, NtfsError>)
        requires
            fs@.covers(position as int, HEADER_SIZE as int) ==> header_of(
                fs@.known_from(position as int),
            ).ty != END_CODE,
        ensures
            result_view(result) == attribute_at(fs@, position),
            result matches Ok(attribute) ==> attribute@.wf(),
    {
        // Read the common header for resident and non-resident attributes.
        let header = match NtfsAttributeHeader::parse(fs.bytes_from(position)) {
            Ok(header) => header,
            Err(_) => return Err(NtfsError::OutOfWindow { position, length: HEADER_SIZE }),
        };
        // Read the extra header specific to the attribute type.
        match NtfsAttributeExtraHeader::new(fs, position, &header) {
            Ok(extra_header) => Ok(NtfsAttribute { position, header, extra_header }),
            Err(error) => Err(error),
        }
    }

    /// Returns the length of this NTFS attribute, in bytes.
    ///
    /// This denotes the length of the attribute structure on disk.
    /// Apart from various headers, this structure also includes the name and,
    /// for resident attributes, the actual value.
    pub fn attribute_length(&self) -> (length: u32)
        ensures
            length == self@.header.length,
    {
        self.header.length
    }

    /// Returns flags set for this attribute as specified by [`NtfsAttributeFlags`].
    pub fn flags(&self) -> (flags: NtfsAttributeFlags)
        ensures
            flags@ == self@.header.flags & KNOWN_FLAGS,
            flags@ == self@.header.flags & 0xC001,
    {
        NtfsAttributeFlags::from_bits_truncate(self.header.flags)
    }

    /// Returns `true` if this is a resident attribute, i.e. one where its value
    /// is part of the attribute structure.
    pub fn is_resident(&self) -> (resident: bool)
        ensures
            resident == self@.header.says_resident(),
            resident == (self@.header.is_non_resident == 0),
            resident == (self@.extra_header is Resident),
    {
        proof {
            use_type_invariant(self);
        }
        self.header.is_resident()
    }

    /// Returns the length of the name of this NTFS attribute, in bytes.
    ///
    /// An attribute name has a maximum length of 255 UTF-16 code points (510 bytes).
    pub fn name_length(&self) -> (length: usize)
        ensures
            length == self@.name_length(),
            length == 2 * self@.header.name_length,
            length <= 510,
    {
        proof {
            broadcast use vstd::layout::layout_of_primitives;

        }
        self.header.name_length as usize * core::mem::size_of::<u16>()
    }

    /// Returns the absolute position of this NTFS attribute within the filesystem, in bytes.
    pub fn position(&self) -> (position: u64)
        ensures
            position == self@.position,
    {
        self.position
    }

    /// Reads the name of this NTFS attribute into the given buffer, and returns an
    /// [`NtfsString`] wrapping that buffer.
    ///
    /// Note that most NTFS attributes have no name and are distinguished by their types.
    /// Use [`NtfsAttribute::ty`] to get the attribute type.
    pub fn read_name<'a>(&self, fs: &NtfsWindow, buf: &'a mut [u8]) -> (result: Result<
        NtfsString<'a>,
        NtfsError,
    >)
        requires
            self@.name_position() <= u64::MAX,
        ensures
            result is Ok <==> self@.name_length() <= old(buf)@.len() && fs@.covers(
                self@.name_position(),
                self@.name_length(),
            ),
            result is Ok <==> 2 * self@.header.name_length <= old(buf)@.len() && (
            self@.header.name_length == 0 || (fs@.start <= self@.position + self@.header.name_offset
                && self@.position + self@.header.name_offset + 2 * self@.header.name_length
                <= fs@.start + fs@.bytes.len())),
            result matches Ok(name) ==> {
                &&& name.0@.len() == 2 * self@.header.name_length
                &&& forall|i: int|
                    0 <= i < 2 * self@.header.name_length ==> #[trigger] name.0@[i]
                        == fs@.bytes[self@.position + self@.header.name_offset - fs@.start + i]
                &&& final(buf)@ == name.0@ + old(buf)@.skip(2 * self@.header.name_length)
                &&& name@ == fs@.known_from(self@.name_position()).take(self@.name_length())
                &&& final(buf)@ == name@ + old(buf)@.skip(self@.name_length())
            },
            result matches Err(error) ==> {
                &&& final(buf)@ == old(buf)@
                &&& error == if old(buf)@.len() < self@.name_length() {
                    NtfsError::BufferTooSmall {
                        expected: self@.name_length() as usize,
                        available: old(buf)@.len() as usize,
                    }
                } else {
                    NtfsError::OutOfWindow {
                        position: self@.name_position() as u64,
                        length: self@.name_length() as u64,
                    }
                }
            },
            result matches Err(error) ==> error == if old(buf)@.len() < 2
                * self@.header.name_length {
                NtfsError::BufferTooSmall {
                    expected: (2 * self@.header.name_length) as usize,
                    available: old(buf)@.len() as usize,
                }
            } else {
                NtfsError::OutOfWindow {
                    position: (self@.position + self@.header.name_offset) as u64,
                    length: (2 * self@.header.name_length) as u64,
                }
            },
    {
        let name_position: u64 = self.position + self.header.name_offset as u64;
        NtfsString::from_window(fs, name_position, self.name_length(), buf)
    }

    /// Returns the structured value of this NTFS attribute, whose structure depends on the
    /// attribute type.
    pub fn structured_value(&self) -> (result: Result<NtfsStructuredValue, NtfsError>)
        requires
            self@.value_is_addressable(),
            self@.ty() != Ok::<NtfsAttributeType, NtfsError>(NtfsAttributeType::AttributeList),
            self@.ty() != Ok::<NtfsAttributeType, NtfsError>(NtfsAttributeType::SecurityDescriptor),
        ensures
            is_structured_value(self@, Ok(self@.value()), result),
            self@.header.ty == 0x10 <==> result is Ok && result->Ok_0 is StandardInformation,
            self@.header.ty == 0x30 <==> result is Ok && result->Ok_0 is FileName,
            self@.header.ty == 0x40 <==> result is Ok && result->Ok_0 is ObjectId,
            self@.header.ty == 0x60 <==> result is Ok && result->Ok_0 is VolumeName,
            self@.header.ty == 0x70 <==> result is Ok && result->Ok_0 is VolumeInformation,
            self@.header.ty == 0x90 <==> result is Ok && result->Ok_0 is IndexRoot,
            self@.header.ty == 0xA0 <==> result is Ok && result->Ok_0 is IndexAllocation,
            result matches Err(error) ==> if 0x10 <= self@.header.ty <= 0x100 && self@.header.ty
                % 0x10 == 0 {
                &&& error matches NtfsError::UnsupportedStructuredValue { position, ty }
                &&& position == self@.position
                &&& ty.spec_code() == self@.header.ty
            } else {
                error == (NtfsError::UnsupportedNtfsAttributeType {
                    position: self@.position,
                    actual: self@.header.ty,
                })
            },
    {
        let result = self.structured_value_from(Ok(self.value()));
        proof {
            use_type_invariant(self);
            law_structure_follows_type(self@, Ok(self@.value()), result);
        }
        result
    }

    /// Returns the structured value of this NTFS attribute, given what came of opening the
    /// attribute's value. A value that could not be opened is reported before anything else.
    pub fn structured_value_from(&self, value: Result<NtfsAttributeValue, NtfsError>) -> (result:
        Result<NtfsStructuredValue, NtfsError>)
        requires
            value is Ok ==> self@.ty() != Ok::<NtfsAttributeType, NtfsError>(
                NtfsAttributeType::AttributeList,
            ),
            value is Ok ==> self@.ty() != Ok::<NtfsAttributeType, NtfsError>(
                NtfsAttributeType::SecurityDescriptor,
            ),
        ensures
            is_structured_value(self@, value, result),
            value matches Err(error) ==> result == Err::<NtfsStructuredValue, NtfsError>(error),
            value is Ok && self@.header.ty == 0x10 <==> result is Ok && result->Ok_0
                is StandardInformation,
            value is Ok && self@.header.ty == 0x30 <==> result is Ok && result->Ok_0 is FileName,
            value is Ok && self@.header.ty == 0x40 <==> result is Ok && result->Ok_0 is ObjectId,
            value is Ok && self@.header.ty == 0x60 <==> result is Ok && result->Ok_0 is VolumeName,
            value is Ok && self@.header.ty == 0x70 <==> result is Ok && result->Ok_0
                is VolumeInformation,
            value is Ok && self@.header.ty == 0x90 <==> result is Ok && result->Ok_0 is IndexRoot,
            value is Ok && self@.header.ty == 0xA0 <==> result is Ok && result->Ok_0
                is IndexAllocation,
            result is Ok <==> value is Ok && (self@.header.ty == 0x10 || self@.header.ty == 0x30
                || self@.header.ty == 0x40 || self@.header.ty == 0x60 || self@.header.ty == 0x70
                || self@.header.ty == 0x90 || self@.header.ty == 0xA0),
    {
        let value = match value {
            Ok(value) => value,
            Err(error) => return Err(error),
        };
        let length: u64 = value.len();
        let source = NtfsStructuredSource { value, length };
        let ty = match self.ty() {
            Ok(ty) => ty,
            Err(error) => return Err(error),
        };
        match ty {
            NtfsAttributeType::StandardInformation => Ok(
                NtfsStructuredValue::StandardInformation(source),
            ),
            NtfsAttributeType::FileName => Ok(NtfsStructuredValue::FileName(source)),
            NtfsAttributeType::ObjectId => Ok(NtfsStructuredValue::ObjectId(source)),
            NtfsAttributeType::VolumeName => Ok(NtfsStructuredValue::VolumeName(source)),
            NtfsAttributeType::VolumeInformation => Ok(
                NtfsStructuredValue::VolumeInformation(source),
            ),
            NtfsAttributeType::IndexRoot => Ok(NtfsStructuredValue::IndexRoot(source)),
            NtfsAttributeType::IndexAllocation => Ok(NtfsStructuredValue::IndexAllocation(source)),
            ty => Err(NtfsError::UnsupportedStructuredValue { position: self.position, ty }),
        }
    }

    /// Returns the type of this NTFS attribute, or [`NtfsError::UnsupportedNtfsAttributeType`]
    /// if it's an unknown type.
    pub fn ty(&self) -> (result: Result<NtfsAttributeType, NtfsError>)
        ensures
            result == self@.ty(),
            result matches Ok(ty) ==> ty.spec_code() == self@.header.ty,
            result is Ok <==> 0x10 <= self@.header.ty <= 0x100 && self@.header.ty % 0x10 == 0,
            result matches Err(error) ==> error == (NtfsError::UnsupportedNtfsAttributeType {
                position: self@.position,
                actual: self@.header.ty,
            }),
            result != Ok::<NtfsAttributeType, NtfsError>(NtfsAttributeType::End),
    {
        proof {
            use_type_invariant(self);
        }
        match NtfsAttributeType::n(self.header.ty) {
            Some(ty) => Ok(ty),
            None => Err(
                NtfsError::UnsupportedNtfsAttributeType {
                    position: self.position,
                    actual: self.header.ty,
                },
            ),
        }
    }

    /// Returns `true` if the positions that [`NtfsAttribute::value`] computes fit into 64 bits.
    pub fn value_is_addressable(&self) -> (addressable: bool)
        ensures
            addressable == self@.value_is_addressable(),
            self@.extra_header matches NtfsAttributeExtraHeader::Resident(resident)
                ==> addressable == (self@.position + resident.value_offset <= u64::MAX),
            self@.extra_header matches NtfsAttributeExtraHeader::NonResident(non_resident)
                ==> addressable == (self@.position + non_resident.data_runs_offset <= u64::MAX
                && self@.position + self@.header.length <= u64::MAX),
    {
        match &self.extra_header {
            NtfsAttributeExtraHeader::Resident(resident_header) => {
                resident_header.value_offset as u64 <= u64::MAX - self.position
            },
            NtfsAttributeExtraHeader::NonResident(non_resident_header) => {
                let available: u64 = u64::MAX - self.position;
                non_resident_header.data_runs_offset as u64 <= available && self.header.length
                    as u64 <= available
            },
        }
    }

    /// Returns `true` if the position of the name, from which [`NtfsAttribute::read_name`] reads,
    /// fits into 64 bits.
    pub fn name_is_addressable(&self) -> (addressable: bool)
        ensures
            addressable == (self@.name_position() <= u64::MAX),
            addressable == (self@.position + self@.header.name_offset <= u64::MAX),
    {
        self.header.name_offset as u64 <= u64::MAX - self.position
    }

    /// Returns an [`NtfsAttributeValue`] structure to read the value of this NTFS attribute.
    pub fn value(&self) -> (value: NtfsAttributeValue)
        requires
            self@.value_is_addressable(),
        ensures
            value == self@.value(),
            self@.extra_header matches NtfsAttributeExtraHeader::Resident(resident) ==> value
                matches NtfsAttributeValue::Resident(run) && {
                &&& run.position == self@.position + resident.value_offset
                &&& run.length == resident.value_length
            },
            self@.extra_header matches NtfsAttributeExtraHeader::NonResident(non_resident)
                ==> value matches NtfsAttributeValue::NonResident(runs) && {
                &&& runs.data_runs_range.start == self@.position + non_resident.data_runs_offset
                &&& runs.data_runs_range.end == self@.position + self@.header.length
                &&& runs.data_size == non_resident.data_size
            },
    {
        match &self.extra_header {
            NtfsAttributeExtraHeader::Resident(resident_header) => {
                let value_position: u64 = self.position + resident_header.value_offset as u64;
                let value_length: u64 = resident_header.value_length as u64;
                let value = NtfsDataRun::from_byte_info(value_position, value_length);
                NtfsAttributeValue::Resident(value)
            },
            NtfsAttributeExtraHeader::NonResident(non_resident_header) => {
                let start: u64 = self.position + non_resident_header.data_runs_offset as u64;
                let end: u64 = self.position + self.header.length as u64;
                let value = NtfsAttributeNonResidentValue::new(
                    start..end,
                    non_resident_header.data_size,
                );
                NtfsAttributeValue::NonResident(value)
            },
        }
    }

    /// Returns the length of the value of this NTFS attribute, in bytes.
    pub fn value_length(&self) -> (length: u64)
        ensures
            length == self@.value_length(),
            self@.extra_header matches NtfsAttributeExtraHeader::Resident(resident) ==> length
                == resident.value_length,
            self@.extra_header matches NtfsAttributeExtraHeader::NonResident(non_resident)
                ==> length == non_resident.data_size,
    {
        match &self.extra_header {
            NtfsAttributeExtraHeader::Resident(resident_header) => {
                resident_header.value_length as u64
            },
            NtfsAttributeExtraHeader::NonResident(non_resident_header) => {
                non_resident_header.data_size
            },
        }
    }
}

/// An attribute has the known type whose number is in its header, and no other; it has an
/// unknown type if and only if no known type has that number.
pub proof fn law_type_is_the_number(attribute: AttributeModel, ty: NtfsAttributeType)
    ensures
        attribute.ty() == Ok::<NtfsAttributeType, NtfsError>(ty) <==> attribute.header.ty
            == ty.spec_code(),
        attribute.ty() is Err <==> !(0x10 <= attribute.header.ty <= 0x100 && attribute.header.ty
            % 0x10 == 0) && attribute.header.ty != 0xFFFF_FFFF,
        attribute.ty() matches Err(error) ==> error == (NtfsError::UnsupportedNtfsAttributeType {
            position: attribute.position,
            actual: attribute.header.ty,
        }),
{
    law_lookup_inverts_code(ty, attribute.header.ty);
    law_known_numbers(attribute.header.ty);
}

/// The value of a resident attribute is as long as its value length says and lies at its value
/// offset. That of a non-resident one is as long as its data size says, whatever its other
/// sizes and flags are, and its data runs are listed from their offset to the attribute's end.
pub proof fn law_value_is_as_the_headers_say(attribute: AttributeModel)
    ensures
        attribute.extra_header matches NtfsAttributeExtraHeader::Resident(resident) ==> {
            &&& attribute.value_length() == resident.value_length
            &&& attribute.value_position() == attribute.position + resident.value_offset
            &&& attribute.value_is_addressable() <==> attribute.position + resident.value_offset
                <= u64::MAX
            &&& attribute.value_is_addressable() ==> (attribute.value()
                matches NtfsAttributeValue::Resident(run) && run.position == attribute.position
                + resident.value_offset && run.length == resident.value_length)
        },
        attribute.extra_header matches NtfsAttributeExtraHeader::NonResident(non_resident) ==> {
            &&& attribute.value_length() == non_resident.data_size
            &&& attribute.value_position() == attribute.position + non_resident.data_runs_offset
            &&& attribute.value_is_addressable() <==> attribute.position
                + non_resident.data_runs_offset <= u64::MAX && attribute.position
                + attribute.header.length <= u64::MAX
            &&& attribute.value_is_addressable() ==> (attribute.value()
                matches NtfsAttributeValue::NonResident(runs) && runs.data_runs_range.start
                == attribute.position + non_resident.data_runs_offset && runs.data_runs_range.end
                == attribute.position + attribute.header.length && runs.data_size
                == non_resident.data_size)
        },
{
}

/// The name lies at its offset from the attribute, wherever the value lies, and takes two bytes
/// for each of its code points. The attribute ends where its length leads to.
pub proof fn law_name_is_as_the_header_says(attribute: AttributeModel)
    ensures
        attribute.name_position() == attribute.position + attribute.header.name_offset,
        attribute.name_length() == 2 * attribute.header.name_length,
        attribute.end() == attribute.position + attribute.header.length,
{
}

/// The type alone decides on the structure of an opened value, whatever the value holds: seven
/// types have one, and are handed the value and its length. Any other known type is reported as
/// unsupported, and an unknown one as unknown.
pub proof fn law_structure_follows_type(
    attribute: AttributeModel,
    value: Result<NtfsAttributeValue, NtfsError>,
    result: Result<NtfsStructuredValue, NtfsError>,
)
    requires
        is_structured_value(attribute, value, result),
    ensures
        value matches Err(error) ==> result == Err::<NtfsStructuredValue, NtfsError>(error),
        value is Ok && attribute.header.ty == 0x10 <==> result is Ok && result->Ok_0
            is StandardInformation,
        value is Ok && attribute.header.ty == 0x30 <==> result is Ok && result->Ok_0 is FileName,
        value is Ok && attribute.header.ty == 0x40 <==> result is Ok && result->Ok_0 is ObjectId,
        value is Ok && attribute.header.ty == 0x60 <==> result is Ok && result->Ok_0 is VolumeName,
        value is Ok && attribute.header.ty == 0x70 <==> result is Ok && result->Ok_0
            is VolumeInformation,
        value is Ok && attribute.header.ty == 0x90 <==> result is Ok && result->Ok_0 is IndexRoot,
        value is Ok && attribute.header.ty == 0xA0 <==> result is Ok && result->Ok_0
            is IndexAllocation,
        result matches Ok(structured) ==> {
            let source = match structured {
                NtfsStructuredValue::StandardInformation(source) => source,
                NtfsStructuredValue::FileName(source) => source,
                NtfsStructuredValue::ObjectId(source) => source,
                NtfsStructuredValue::VolumeName(source) => source,
                NtfsStructuredValue::VolumeInformation(source) => source,
                NtfsStructuredValue::IndexRoot(source) => source,
                NtfsStructuredValue::IndexAllocation(source) => source,
            };
            &&& value == Ok::<NtfsAttributeValue, NtfsError>(source.value)
            &&& source.length == match source.value {
                NtfsAttributeValue::Resident(run) => run.length,
                NtfsAttributeValue::NonResident(runs) => runs.data_size,
            }
        },
        forall|ty: NtfsAttributeType|
            #![trigger ty.spec_code()]
            value is Ok && attribute.header.ty == ty.spec_code() && !(result is Ok) ==> result
                == Err::<NtfsStructuredValue, NtfsError>(
                NtfsError::UnsupportedStructuredValue { position: attribute.position, ty },
            ),
        value is Ok && !(0x10 <= attribute.header.ty <= 0x100 && attribute.header.ty % 0x10 == 0)
            && attribute.header.ty != 0xFFFF_FFFF ==> result == Err::<
            NtfsStructuredValue,
            NtfsError,
        >(
            NtfsError::UnsupportedNtfsAttributeType {
                position: attribute.position,
                actual: attribute.header.ty,
            },
        ),
{
    law_type_is_the_number(attribute, NtfsAttributeType::End);
    assert forall|ty: NtfsAttributeType|
        #![trigger ty.spec_code()]
        value is Ok && attribute.header.ty == ty.spec_code() && !(result is Ok) implies result
        == Err::<NtfsStructuredValue, NtfsError>(
        NtfsError::UnsupportedStructuredValue { position: attribute.position, ty },
    ) by {
        law_type_is_the_number(attribute, ty);
    }
}

} // verus!
