//! Values that have a structure which depends on the attribute type.
use crate::attribute_type::NtfsAttributeType;
use crate::attribute_value::NtfsAttributeValue;
use vstd::prelude::*;

verus! {

/// What a structured value is read from.
#[derive(Debug, PartialEq, Eq)]
pub struct NtfsStructuredSource {
    /// The value of the attribute.
    pub value: NtfsAttributeValue,
    /// Length of the value, in bytes.
    pub length: u64,
}

/// A structured value: its structure, and what it is read from.
#[derive(Debug, PartialEq, Eq)]
pub enum NtfsStructuredValue {
    StandardInformation(NtfsStructuredSource),
    FileName(NtfsStructuredSource),
    ObjectId(NtfsStructuredSource),
    VolumeName(NtfsStructuredSource),
    VolumeInformation(NtfsStructuredSource),
    IndexRoot(NtfsStructuredSource),
    IndexAllocation(NtfsStructuredSource),
}

impl NtfsAttributeType {
    /// Whether the values of attributes of this type have a structured form.
    pub open spec fn has_structured_value(self) -> bool {
        match self {
            NtfsAttributeType::StandardInformation
            | NtfsAttributeType::FileName
            | NtfsAttributeType::ObjectId
            | NtfsAttributeType::VolumeName
            | NtfsAttributeType::VolumeInformation
            | NtfsAttributeType::IndexRoot
            | NtfsAttributeType::IndexAllocation => true,
            _ => false,
        }
    }
}

impl NtfsStructuredValue {
    /// The type of the attributes that have this structure.
    pub open spec fn spec_ty(self) -> NtfsAttributeType {
        match self {
            NtfsStructuredValue::StandardInformation(_) => NtfsAttributeType::StandardInformation,
            NtfsStructuredValue::FileName(_) => NtfsAttributeType::FileName,
            NtfsStructuredValue::ObjectId(_) => NtfsAttributeType::ObjectId,
            NtfsStructuredValue::VolumeName(_) => NtfsAttributeType::VolumeName,
            NtfsStructuredValue::VolumeInformation(_) => NtfsAttributeType::VolumeInformation,
            NtfsStructuredValue::IndexRoot(_) => NtfsAttributeType::IndexRoot,
            NtfsStructuredValue::IndexAllocation(_) => NtfsAttributeType::IndexAllocation,
        }
    }

    /// What the value is read from.
    pub open spec fn spec_source(self) -> NtfsStructuredSource {
        match self {
            NtfsStructuredValue::StandardInformation(source) => source,
            NtfsStructuredValue::FileName(source) => source,
            NtfsStructuredValue::ObjectId(source) => source,
            NtfsStructuredValue::VolumeName(source) => source,
            NtfsStructuredValue::VolumeInformation(source) => source,
            NtfsStructuredValue::IndexRoot(source) => source,
            NtfsStructuredValue::IndexAllocation(source) => source,
        }
    }
}

} // verus!
