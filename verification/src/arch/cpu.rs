//! The state of the CPU saved when an interrupt is triggered.
use vstd::prelude::*;

verus! {

/// The interrupt frame pushed to the stack when an interrupt is triggered: the
/// state of the CPU before the interrupt handler is called.
#[derive(Debug, Clone, PartialEq, Eq, Structural, Hash)]
pub struct InterruptFrame {
    pub rbp: u64,
    pub rbx: u64,
    pub r12: u64,
    pub r13: u64,
    pub r14: u64,
    pub r15: u64,
    pub rax: u64,
    pub rcx: u64,
    pub rdx: u64,
    pub rsi: u64,
    pub rdi: u64,
    pub r8: u64,
    pub r9: u64,
    pub r10: u64,
    pub r11: u64,
    pub padding: u64,
    /// Custom data pushed by the interrupt handler, such as the IRQ number of
    /// an interrupt.
    pub data: u64,
    /// The kind of trap: 0 for an exception, 1 for an interrupt and 2 for a
    /// system call.
    pub trap: u64,
    /// The error code, pushed by the CPU for some exceptions, 0 otherwise.
    pub error: u64,
    /// Pushed by the CPU when an interrupt is triggered.
    pub rip: u64,
    pub cs: u64,
    pub rflags: u64,
    pub rsp: u64,
    pub ss: u64,
}

impl InterruptFrame {
    /// Every register is 0.
    pub open spec fn is_zeroed(&self) -> bool {
        let r = *self;
        r.rbp == 0 && r.rbx == 0 && r.r12 == 0 && r.r13 == 0 && r.r14 == 0 && r.r15 == 0 && r.rax == 0 && r.rcx == 0 && r.rdx == 0 && r.rsi == 0 && r.rdi == 0 && r.r8 == 0 && r.r9 == 0 && r.r10 == 0 && r.r11 == 0 && r.padding == 0 && r.data == 0 && r.trap == 0 && r.error == 0 && r.rip == 0 && r.cs == 0 && r.rflags == 0 && r.rsp == 0 && r.ss == 0
    }
}

impl Default for InterruptFrame {
    /// A frame whose registers are all 0.
    fn default() -> (r: Self)
        ensures
            r.is_zeroed(),
    {
        InterruptFrame { rbp: 0, rbx: 0, r12: 0, r13: 0, r14: 0, r15: 0, rax: 0, rcx: 0, rdx: 0, rsi: 0, rdi: 0, r8: 0, r9: 0, r10: 0, r11: 0, padding: 0, data: 0, trap: 0, error: 0, rip: 0, cs: 0, rflags: 0, rsp: 0, ss: 0 }
    }
}


/// Splits a 64-bit value into its low and high 32-bit halves, as the `eax`
/// and `edx` registers carry it.
pub fn split_halves(value: u64) -> (r: (u32, u32))
    ensures
        r.0 == value % 0x1_0000_0000,
        r.1 == value / 0x1_0000_0000,
{
    let low = (value & 0xFFFF_FFFF) as u32;
    let high = (value >> 32) as u32;
    assert((value & 0xFFFF_FFFF) == value % 0x1_0000_0000 && (value >> 32u64) == value
        / 0x1_0000_0000) by (bit_vector);
    (low, high)
}

/// Joins a low and a high 32-bit half into a 64-bit value, as the `eax` and
/// `edx` registers give it.
pub fn join_halves(low: u32, high: u32) -> (r: u64)
    ensures
        r == high * 0x1_0000_0000 + low,
{
    let h = high as u64;
    let l = low as u64;
    assert((h << 32u64) | l == h * 0x1_0000_0000 + l) by (bit_vector)
        requires
            h < 0x1_0000_0000,
            l < 0x1_0000_0000,
    ;
    (h << 32) | l
}

/// Splitting a value into halves and joining them gives the value back.
pub proof fn lemma_halves_round_trip(value: u64)
    ensures
        (value / 0x1_0000_0000) * 0x1_0000_0000 + value % 0x1_0000_0000 == value,
{
}

} // verus!
