//! The saved state of user threads.
use vstd::prelude::*;
use crate::arch::cpu::InterruptFrame;

verus! {

/// The registers of a user context are saved when entering kernel mode, as an
/// interrupt frame.
pub type Registers = InterruptFrame;

/// The value of the flags register of a new user context: interrupts enabled
/// (bit 9), and the always-set bit 1.
pub const USER_RFLAGS: u64 = 0x202;

/// The user 64-bit code segment selector.
pub const USER_CODE_SEGMENT: u64 = 0x2B;

/// The user 64-bit data segment selector.
pub const USER_DATA_SEGMENT: u64 = 0x23;

/// The context of a user thread: the state saved while it is not running on
/// the CPU. The extended SIMD state is kept beside it by the code that saves
/// and restores it.
#[derive(Debug)]
pub struct Context {
    registers: Registers,
    gs: u64,
    fs: u64,
}

/// The registers of a new user context that starts at `entry` with the stack
/// pointer `stack`: user segments, interrupts enabled, every other register 0.
pub open spec fn initial_registers(r: Registers, entry: usize, stack: usize) -> bool {
    &&& r.rflags == 0x202
    &&& r.rip == entry as u64
    &&& r.rsp == stack as u64
    &&& r.cs == 0x2B
    &&& r.ss == 0x23
    &&& r.rbp == 0 && r.rbx == 0 && r.r12 == 0 && r.r13 == 0 && r.r14 == 0 && r.r15 == 0
    &&& r.rax == 0 && r.rcx == 0 && r.rdx == 0 && r.rsi == 0 && r.rdi == 0
    &&& r.r8 == 0 && r.r9 == 0 && r.r10 == 0 && r.r11 == 0
    &&& r.padding == 0 && r.data == 0 && r.trap == 0 && r.error == 0
}

impl Context {
    /// The saved registers.
    pub closed spec fn spec_registers(&self) -> Registers {
        self.registers
    }

    /// The saved GS register.
    pub closed spec fn spec_gs(&self) -> u64 {
        self.gs
    }

    /// The saved FS register.
    pub closed spec fn spec_fs(&self) -> u64 {
        self.fs
    }

    /// Creates a user context that starts at `entry` with the stack pointer
    /// `stack`, in the user code and data segments with interrupts enabled.
    /// The GS and FS registers are 0.
    pub fn new(entry: usize, stack: usize) -> (r: Self)
        ensures
            initial_registers(r.spec_registers(), entry, stack),
            r.spec_gs() == 0,
            r.spec_fs() == 0,
    {
        let mut registers = InterruptFrame::default();
        registers.rflags = USER_RFLAGS;
        registers.rip = entry as u64;
        registers.rsp = stack as u64;
        registers.cs = USER_CODE_SEGMENT;
        registers.ss = USER_DATA_SEGMENT;
        Self { registers, gs: 0, fs: 0 }
    }

    /// The registers of the context.
    pub fn registers(&self) -> (r: &Registers)
        ensures
            *r == self.spec_registers(),
    {
        &self.registers
    }

    /// The registers of the context, to change them.
    pub fn registers_mut(&mut self) -> (r: &mut Registers)
        ensures
            *r == old(self).spec_registers(),
            final(self).spec_registers() == *final(r),
            final(self).spec_gs() == old(self).spec_gs(),
            final(self).spec_fs() == old(self).spec_fs(),
    {
        &mut self.registers
    }

    /// The saved GS and FS registers, as `(gs, fs)`.
    pub fn segments(&self) -> (r: (u64, u64))
        ensures
            r == (self.spec_gs(), self.spec_fs()),
    {
        (self.gs, self.fs)
    }

    /// Saves the user GS and FS registers, which the user may change with the
    /// `WRGSBASE` and `WRFSBASE` instructions.
    pub fn save_segments(&mut self, gs: u64, fs: u64)
        ensures
            final(self).spec_registers() == old(self).spec_registers(),
            final(self).spec_gs() == gs,
            final(self).spec_fs() == fs,
    {
        self.gs = gs;
        self.fs = fs;
    }
}

/// Why a user thread stopped running and entered the kernel.
#[derive(Debug, Clone, Copy, PartialEq, Eq, Structural)]
pub enum Trap {
    Exception,
    Interrupt,
    Syscall,
}

impl Trap {
    /// The trap recorded in an interrupt frame: 0 is an exception, 1 an
    /// interrupt and 2 a system call. Any other value is not a trap (running
    /// a context stops on it).
    pub fn from_code(code: u64) -> (r: Option<Trap>)
        ensures
            code == 0 ==> r == Some(Trap::Exception),
            code == 1 ==> r == Some(Trap::Interrupt),
            code == 2 ==> r == Some(Trap::Syscall),
            code > 2 ==> r is None,
    {
        match code {
            0 => Some(Trap::Exception),
            1 => Some(Trap::Interrupt),
            2 => Some(Trap::Syscall),
            _ => None,
        }
    }
}

} // verus!
