//! Failures of reading index metadata back from bytes.

use vstd::prelude::*;

verus! {

/// Why bytes could not be read as index metadata.
#[derive(Debug, Clone, Copy, PartialEq, Eq, Structural)]
pub enum MetadataError {
    /// The bytes ended before a whole number had been read.
    UnexpectedEof,
    /// Fewer bytes follow the header than the state length it records.
    StateTooShort,
    /// The tag of the index type is none of the known ones.
    UnknownIndexType(u32),
}

} // verus!
