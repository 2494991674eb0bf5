//! The file record that attributes belong to.
use vstd::prelude::*;

verus! {

/// What the attributes of a file need to know about its file record.
#[derive(Clone, Copy, Debug, PartialEq, Eq)]
pub struct NtfsFile {
    /// Absolute position of the file record within the filesystem, in bytes.
    pub position: u64,
    /// Offset to the first attribute, in bytes from the beginning of the file record.
    pub first_attribute_offset: u16,
    /// Number of bytes of the file record that are in use.
    pub used_size: u32,
}

impl NtfsFile {
    /// Absolute position of the first attribute.
    pub open spec fn attributes_start(self) -> int {
        self.position + self.first_attribute_offset
    }

    /// Absolute position of the first byte behind the used part of the file record.
    pub open spec fn attributes_end(self) -> int {
        self.position + self.used_size
    }

    /// Returns the absolute position of the file record within the filesystem, in bytes.
    pub fn position(&self) -> (position: u64)
        ensures
            position == self.position,
    {
        self.position
    }

    /// Returns the offset to the first attribute, in bytes from the beginning of the file record.
    pub fn first_attribute_offset(&self) -> (offset: u16)
        ensures
            offset == self.first_attribute_offset,
    {
        self.first_attribute_offset
    }

    /// Returns the number of bytes of the file record that are in use.
    pub fn used_size(&self) -> (size: u32)
        ensures
            size == self.used_size,
    {
        self.used_size
    }
}

/// The attributes of a file lie between the offset of the first one and the end of the part of
/// the file record that is in use.
pub proof fn law_attributes_lie_in_the_record(file: NtfsFile)
    ensures
        file.attributes_start() == file.position + file.first_attribute_offset,
        file.attributes_end() == file.position + file.used_size,
{
}

} // verus!
