//! Architecture-independent interface of the memory mapping operations.
use vstd::prelude::*;

verus! {

/// Errors that can be returned when trying to map an address.
#[derive(Debug, Clone, Copy, PartialEq, Eq, Structural, PartialOrd, Ord, Hash)]
pub enum MapError {
    /// The address is already mapped to a frame.
    AlreadyMapped,
    /// The kernel ran out of memory while trying to allocate a new table.
    OutOfMemory,
}

/// Errors that can be returned when trying to unmap an address.
#[derive(Debug, Clone, Copy, PartialEq, Eq, Structural, PartialOrd, Ord, Hash)]
pub enum UnmapError {
    /// The address is not mapped to a frame.
    NotMapped,
}

} // verus!
