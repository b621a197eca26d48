//! Mapping and unmapping pages: how the outcome of a page table walk decides
//! the result.
use vstd::prelude::*;
use crate::addr::frame::Frame;

verus! {

/// Error returned when trying to map an address.
#[derive(Debug, Clone, Copy, PartialEq, Eq, Structural, PartialOrd, Ord, Hash)]
pub enum MapError {
    /// The kernel ran out of memory while trying to allocate a new page table.
    OutOfMemory,
    /// The address is already mapped to a frame.
    AlreadyMapped,
}

/// Error returned when trying to unmap an address.
#[derive(Debug, Clone, Copy, PartialEq, Eq, Structural, PartialOrd, Ord, Hash)]
pub enum UnmapError {
    /// The address is not mapped to a frame.
    NotMapped,
}

/// Decides the outcome of mapping an address, given whether the walk down the
/// page tables reached the last entry (allocating the missing tables) and
/// whether that entry is present. `Ok` means that the entry is to be filled
/// with the frame and the flags.
pub fn map_outcome(reached: bool, present: bool) -> (r: Result<(), MapError>)
    ensures
        !reached ==> r == Err::<(), MapError>(MapError::OutOfMemory),
        reached && present ==> r == Err::<(), MapError>(MapError::AlreadyMapped),
        reached && !present ==> r is Ok,
{
    if !reached {
        Err(MapError::OutOfMemory)
    } else if present {
        Err(MapError::AlreadyMapped)
    } else {
        Ok(())
    }
}

/// Decides the outcome of unmapping an address, given whether the walk down
/// the page tables reached the last entry (without allocating) and the frame
/// that entry maps, if any. `Ok` gives the frame that was mapped: the entry is
/// to be cleared and the address shot down from the TLBs.
pub fn unmap_outcome(reached: bool, mapped: Option<Frame>) -> (r: Result<Frame, UnmapError>)
    ensures
        reached && mapped is Some ==> r == Ok::<Frame, UnmapError>(mapped->0),
        !reached || mapped is None ==> r == Err::<Frame, UnmapError>(UnmapError::NotMapped),
{
    if !reached {
        return Err(UnmapError::NotMapped);
    }
    match mapped {
        Some(frame) => Ok(frame),
        None => Err(UnmapError::NotMapped),
    }
}

/// Decides the outcome of translating an address, given whether the walk
/// down the page tables reached the last entry and the frame it maps, if any.
pub fn translate_outcome(reached: bool, mapped: Option<Frame>) -> (r: Option<Frame>)
    ensures
        r == (if reached { mapped } else { None::<Frame> }),
{
    if reached {
        mapped
    } else {
        None
    }
}

} // verus!
