//! Where the value of an attribute lies.
use core::ops::Range;
use vstd::prelude::*;

verus! {

/// A contiguous run of bytes of the filesystem.
#[derive(Clone, Copy, Debug, PartialEq, Eq)]
pub struct NtfsDataRun {
    /// Absolute position of the run within the filesystem, in bytes.
    pub position: u64,
    /// Length of the run, in bytes.
    pub length: u64,
}

impl NtfsDataRun {
    /// Makes the run of `length` bytes from the absolute position `position` on.
    pub fn from_byte_info(position: u64, length: u64) -> (run: NtfsDataRun)
        ensures
            run == (NtfsDataRun { position, length }),
    {
        NtfsDataRun { position, length }
    }
}

/// A value that is spread over data runs, which are listed in the attribute.
#[derive(Debug, PartialEq, Eq)]
pub struct NtfsAttributeNonResidentValue {
    /// Absolute positions of the list of data runs: its first byte, and the end of the attribute.
    pub data_runs_range: Range<u64>,
    /// Size of the value, in bytes.
    pub data_size: u64,
}

impl NtfsAttributeNonResidentValue {
    /// Makes the value of `data_size` bytes whose data runs are listed in `data_runs_range`.
    pub fn new(data_runs_range: Range<u64>, data_size: u64) -> (value:
        NtfsAttributeNonResidentValue)
        ensures
            value == (NtfsAttributeNonResidentValue { data_runs_range, data_size }),
    {
        NtfsAttributeNonResidentValue { data_runs_range, data_size }
    }
}

/// The value of an attribute, to be read from the filesystem.
#[derive(Debug, PartialEq, Eq)]
pub enum NtfsAttributeValue {
    /// The value is part of the attribute structure.
    Resident(NtfsDataRun),
    /// The value is stored elsewhere.
    NonResident(NtfsAttributeNonResidentValue),
}

impl NtfsAttributeValue {
    /// Length of the value, in bytes.
    pub open spec fn spec_len(self) -> u64 {
        match self {
            NtfsAttributeValue::Resident(run) => run.length,
            NtfsAttributeValue::NonResident(value) => value.data_size,
        }
    }

    /// Returns the length of the value, in bytes.
    pub fn len(&self) -> (length: u64)
        ensures
            length == self.spec_len(),
            self matches NtfsAttributeValue::Resident(run) ==> length == run.length,
            self matches NtfsAttributeValue::NonResident(value) ==> length == value.data_size,
    {
        match self {
            NtfsAttributeValue::Resident(run) => run.length,
            NtfsAttributeValue::NonResident(value) => value.data_size,
        }
    }
}

/// A resident value is as long as its run, and a non-resident one as long as its data size.
pub proof fn law_value_knows_its_length(
    run: NtfsDataRun,
    non_resident: NtfsAttributeNonResidentValue,
)
    ensures
        NtfsAttributeValue::Resident(run).spec_len() == run.length,
        NtfsAttributeValue::NonResident(non_resident).spec_len() == non_resident.data_size,
{
}

} // verus!
