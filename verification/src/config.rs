//! Compile-time configuration of the kernel.
use vstd::prelude::*;

verus! {

/// The frequency of the timer interrupt in Hz. Must be 10, 100, 250, or 1000.
pub const TIMER_HZ: u16 = 1000;

/// The size of a page in bytes. The value is always 4096.
pub const PAGE_SIZE: u16 = 4096;

/// The shift value of a page. The value is always 12.
pub const PAGE_SHIFT: u8 = 12;

/// The maximum number of kernel handles that can be allocated across all processes.
pub const MAX_HANDLES: u32 = 1024;

/// The maximum number of asynchronous tasks that can be created.
pub const MAX_TASKS: u32 = 1024;

/// The size of the kernel stack in bytes. It is a multiple of the page size and at
/// least 8192 bytes.
pub const KSTACK_SIZE: usize = 8192;

/// The configuration constants satisfy the constraints that the kernel relies on.
pub proof fn lemma_config_consistent()
    ensures
        TIMER_HZ == 10 || TIMER_HZ == 100 || TIMER_HZ == 250 || TIMER_HZ == 1000,
        PAGE_SIZE == 4096,
        PAGE_SHIFT == 12,
        (1u64 << PAGE_SHIFT) == PAGE_SIZE,
        MAX_HANDLES >= 1024,
        MAX_TASKS >= 8,
        KSTACK_SIZE >= 8192,
        KSTACK_SIZE % (PAGE_SIZE as usize) == 0,
{
    assert((1u64 << 12u8) == 4096) by (bit_vector);
    assert(8192usize % 4096usize == 0);
}

} // verus!
