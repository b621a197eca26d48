//! Per-CPU data: each core has its own copy of the per-CPU section, and an
//! object of the section is found at the same offset in the copy.
use vstd::prelude::*;

verus! {

/// The address, in the copy of the per-CPU section at `copy`, of the object
/// at `address` in the section that starts at `section_start`: the object
/// keeps its offset from the start of the section. The object must lie after
/// the start of the section and the result must fit in a `usize`.
pub fn relocate(address: usize, section_start: usize, copy: usize) -> (r: usize)
    requires
        section_start <= address,
        copy + (address - section_start) <= usize::MAX,
    ensures
        r == copy + (address - section_start),
        r - copy == address - section_start,
{
    copy + (address - section_start)
}

/// The stack pointer of a kernel stack of `size` bytes allocated at `base`:
/// its end, as stacks grow down. The end must fit in a `usize`.
pub fn stack_top(base: usize, size: usize) -> (r: usize)
    requires
        base + size <= usize::MAX,
    ensures
        r == base + size,
{
    base + size
}

} // verus!
