//! The state of kernel threads saved when switching between them.
use vstd::prelude::*;

verus! {

/// The state saved when switching from a kernel thread to another: the
/// callee-saved registers, the stack pointer and the instruction pointer.
#[derive(Debug, Clone, PartialEq, Eq, Structural)]
pub struct Registers {
    pub rflags: usize,
    pub rbp: usize,
    pub rbx: usize,
    pub r12: usize,
    pub r13: usize,
    pub r14: usize,
    pub r15: usize,
    pub rsp: usize,
    pub rip: usize,
}

impl Registers {
    /// Creates a set of registers where every register is 0 but the
    /// instruction pointer, which is `entry`: the address of the routine all
    /// new threads start in.
    pub fn new(entry: usize) -> (r: Self)
        ensures
            r == (Registers {
                rflags: 0,
                rbp: 0,
                rbx: 0,
                r12: 0,
                r13: 0,
                r14: 0,
                r15: 0,
                rsp: 0,
                rip: entry,
            }),
    {
        Self { rflags: 0, rbp: 0, rbx: 0, r12: 0, r13: 0, r14: 0, r15: 0, rsp: 0, rip: entry }
    }
}

/// The flags register of a new thread: interrupts enabled (bit 9).
pub const TRAMPOLINE_RFLAGS: usize = 0x200;

/// The kernel code segment selector.
pub const KERNEL_CODE_SEGMENT: usize = 0x08;

/// The kernel data segment selector.
pub const KERNEL_DATA_SEGMENT: usize = 0x10;

/// The interrupt frame written at the bottom of a new kernel stack, from
/// which a new thread starts: the entry point, the code segment, the flags
/// (interrupts enabled), the stack pointer and the stack segment, in the
/// order they are written.
pub fn trampoline(entry: usize, stack: usize, cs: usize, ss: usize) -> (r: [usize; 5])
    ensures
        r@ == seq![entry, cs, 0x200usize, stack, ss],
{
    let r = [entry, cs, TRAMPOLINE_RFLAGS, stack, ss];
    assert(r@ =~= seq![entry, cs, 0x200usize, stack, ss]);
    r
}

/// The trampoline of a kernel thread: it starts at `entry`, in the kernel
/// segments, with the stack pointer `stack`.
pub fn kernel_trampoline(entry: usize, stack: usize) -> (r: [usize; 5])
    ensures
        r@ == seq![entry, 0x08usize, 0x200usize, stack, 0x10usize],
{
    trampoline(entry, stack, KERNEL_CODE_SEGMENT, KERNEL_DATA_SEGMENT)
}

} // verus!
