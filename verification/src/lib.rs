//! Attributes of an NTFS file record: their on-disk headers, the list that they form,
//! and where their names and values lie.
//!
//! The library does no I/O. It reads the filesystem through a
//! [`NtfsWindow`](window::NtfsWindow), a run of bytes that its caller has read, and says
//! which bytes it needs when the window is too small.
#![allow(unused_imports)]

pub mod attribute;
pub mod attribute_flags;
pub mod attribute_header;
pub mod attribute_type;
pub mod attribute_value;
pub mod attributes;
pub mod error;
pub mod file;
pub mod laws;
pub mod little_endian;
pub mod string;
pub mod structured_values;
pub mod types;
pub mod window;
