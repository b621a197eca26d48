//! Register layout and command encoding of the I/O APIC and of the local APIC.
use vstd::prelude::*;

verus! {

/// The base IRQ number of the I/O APIC.
pub const IOAPIC_IRQ_BASE: u8 = 32;

/// The IRQ vector used by the local APIC timer interrupt.
pub const TIMER_IRQ_VECTOR: u8 = IOAPIC_IRQ_BASE;

/// A register of the I/O APIC.
#[derive(Debug, Clone, Copy, PartialEq, Eq, Structural, Hash)]
pub struct Register(u32);

impl View for Register {
    type V = u32;

    closed spec fn view(&self) -> u32 {
        self.0
    }
}

impl Register {
    /// The identification register.
    pub fn id() -> (r: Register)
        ensures
            r@ == 0x00,
    {
        Register(0x00)
    }

    /// The version register.
    pub fn version() -> (r: Register)
        ensures
            r@ == 0x01,
    {
        Register(0x01)
    }

    /// The arbitration register.
    pub fn arbitration_id() -> (r: Register)
        ensures
            r@ == 0x02,
    {
        Register(0x02)
    }

    /// The first register of the redirection table.
    pub fn redirection_table_base() -> (r: Register)
        ensures
            r@ == 0x10,
    {
        Register(0x10)
    }

    /// The register holding the low 32 bits of redirection entry `n`.
    pub fn redirection_low(n: u8) -> (r: Register)
        ensures
            r@ == 0x10 + 2 * n,
    {
        Register(0x10 + (n as u32) * 2)
    }

    /// The register holding the high 32 bits of redirection entry `n`.
    pub fn redirection_high(n: u8) -> (r: Register)
        ensures
            r@ == 0x10 + 2 * n + 1,
    {
        Register(0x10 + (n as u32) * 2 + 1)
    }

    /// The register number.
    pub fn value(self) -> (r: u32)
        ensures
            r == self@,
    {
        self.0
    }
}

/// The number of redirection entries of an I/O APIC, read from its version
/// register: bits 16 to 23 hold the index of the last entry.
pub fn entry_count_from_version(version: u32) -> (r: u8)
    ensures
        r == ((version / 0x10000) + 1) % 256,
{
    let high = version >> 16;
    assert(high == version / 0x10000 && high < 0x10000) by (bit_vector)
        requires
            high == version >> 16,
    ;
    let next = high + 1;
    let masked = next & 0xFF;
    assert(masked == next % 256) by (bit_vector)
        requires
            masked == next & 0xFF,
    ;
    masked as u8
}

/// Tells whether `vector` is an IRQ of the I/O APIC, which has `entry_count`
/// entries (0 when the I/O APIC is not initialized). The sum
/// `IOAPIC_IRQ_BASE + entry_count` is computed on 8 bits and must not overflow
/// when it is reached.
pub fn is_irq(entry_count: u8, vector: u8) -> (r: bool)
    requires
        entry_count != 0 && vector >= 32 ==> 32 + entry_count <= 255,
    ensures
        r == (entry_count != 0 && 32 <= vector < 32 + entry_count),
{
    entry_count != 0 && vector >= IOAPIC_IRQ_BASE && vector < IOAPIC_IRQ_BASE + entry_count
}

/// Checks if the given IRQ is used by the local APIC timer.
pub fn own_irq(irq: u8) -> (r: bool)
    ensures
        r == (irq == TIMER_IRQ_VECTOR),
{
    irq == TIMER_IRQ_VECTOR
}

/// A register of the local APIC: its offset from the base address of the local
/// APIC.
#[derive(Debug, Clone, Copy, PartialEq, Eq, Structural, PartialOrd, Ord, Hash)]
pub struct LocalRegister(usize);

impl View for LocalRegister {
    type V = usize;

    closed spec fn view(&self) -> usize {
        self.0
    }
}

impl LocalRegister {
    /// The end-of-interrupt register.
    pub fn eoi() -> (r: LocalRegister)
        ensures
            r@ == 0xB0,
    {
        LocalRegister(0xB0)
    }

    /// The spurious interrupt vector register.
    pub fn spurious_interrupt_vector() -> (r: LocalRegister)
        ensures
            r@ == 0xF0,
    {
        LocalRegister(0xF0)
    }

    /// The low interrupt command register.
    pub fn interrupt_command0() -> (r: LocalRegister)
        ensures
            r@ == 0x300,
    {
        LocalRegister(0x300)
    }

    /// The high interrupt command register.
    pub fn interrupt_command1() -> (r: LocalRegister)
        ensures
            r@ == 0x310,
    {
        LocalRegister(0x310)
    }

    /// The timer local vector table register.
    pub fn lvt_timer() -> (r: LocalRegister)
        ensures
            r@ == 0x320,
    {
        LocalRegister(0x320)
    }

    /// The timer initial count register.
    pub fn initial_count() -> (r: LocalRegister)
        ensures
            r@ == 0x380,
    {
        LocalRegister(0x380)
    }

    /// The timer current count register.
    pub fn current_count() -> (r: LocalRegister)
        ensures
            r@ == 0x390,
    {
        LocalRegister(0x390)
    }

    /// The timer divide configuration register.
    pub fn divide_configuration() -> (r: LocalRegister)
        ensures
            r@ == 0x3E0,
    {
        LocalRegister(0x3E0)
    }

    /// The offset of the register from the base address of the local APIC.
    pub fn offset(self) -> (r: usize)
        ensures
            r == self@,
    {
        self.0
    }
}

/// The slowest local APIC timer frequency supported, in Hz.
pub const MIN_TIMER_FREQUENCY: u32 = 25_000_000;

/// The local APIC timer calibration: the timer counted down from `u32::MAX` to
/// `current_count` during 10 milliseconds. Its internal frequency is 100 times
/// the elapsed count, and the counter that raises `TIMER_HZ` interrupts per
/// second is the frequency divided by `TIMER_HZ`. Returns the frequency and the
/// counter. The products must fit in 32 bits and the frequency must be at
/// least 25 MHz: no fallback exists for slower timers.
pub fn calibration(current_count: u32) -> (r: (u32, u32))
    requires
        (u32::MAX - current_count) * 100 <= u32::MAX,
        (u32::MAX - current_count) * 100 >= MIN_TIMER_FREQUENCY,
    ensures
        r.0 == (u32::MAX - current_count) * 100,
        r.1 == (u32::MAX - current_count) * 100 / (crate::config::TIMER_HZ as int),
        r.0 > 0,
{
    let elapsed = u32::MAX - current_count;
    let counter = elapsed * 100 / crate::config::TIMER_HZ as u32;
    let frequency = elapsed * 100;
    (frequency, counter)
}

/// The destination of an inter-processor interrupt.
#[derive(Debug, Clone, Copy, PartialEq, Eq, Structural, Hash)]
pub enum IpiDestination {
    /// All cores, including the current core.
    AllIncludingSelf,
    /// All cores, excluding the current core.
    AllExcludingSelf,
    /// The current core only.
    SelfOnly,
    /// A specific core, identified by its APIC identifier.
    Single(u8),
}

/// The delivery mode of an inter-processor interrupt.
#[derive(Default, Debug, Clone, Copy, PartialEq, Eq, Structural, Hash)]
pub enum IpiPriority {
    /// A fixed priority.
    #[default]
    Fixed,
    /// A low priority.
    Low,
    /// A non-maskable interrupt: the vector is ignored.
    Nmi,
    /// A system management interrupt.
    Smi,
}

impl IpiPriority {
    /// The delivery mode number.
    pub open spec fn spec_mode(self) -> u32 {
        match self {
            IpiPriority::Fixed => 0,
            IpiPriority::Low => 1,
            IpiPriority::Nmi => 2,
            IpiPriority::Smi => 4,
        }
    }

    /// The delivery mode number of the priority.
    pub fn mode(self) -> (r: u32)
        ensures
            r == self.spec_mode(),
    {
        match self {
            IpiPriority::Fixed => 0,
            IpiPriority::Low => 1,
            IpiPriority::Nmi => 2,
            IpiPriority::Smi => 4,
        }
    }
}

/// The destination shorthand of an inter-processor interrupt: 0 when the
/// destination is given explicitly.
pub open spec fn shorthand(destination: IpiDestination) -> u32 {
    match destination {
        IpiDestination::Single(_) => 0,
        IpiDestination::SelfOnly => 1,
        IpiDestination::AllIncludingSelf => 2,
        IpiDestination::AllExcludingSelf => 3,
    }
}

/// The values written to the high and low interrupt command registers to send an
/// inter-processor interrupt: the high register holds the destination core in
/// its bits 24 to 31, the low register holds the vector in bits 0 to 7, the
/// delivery mode from bit 8 and the destination shorthand in bits 18 and 19.
pub fn ipi_command(destination: IpiDestination, priority: IpiPriority, vector: u8) -> (r: (
    u32,
    u32,
))
    ensures
        r.0 == (match destination {
            IpiDestination::Single(core) => core as int * 0x100_0000,
            _ => 0,
        }),
        r.1 == vector + priority.spec_mode() * 0x100 + shorthand(destination) * 0x4_0000,
{
    let mode = priority.mode();
    let v = vector as u32;
    proof {
        assert(forall|s: u32|
            s < 4 && mode <= 4 && v < 256 ==> #[trigger] (v | (mode << 8u32) | (s << 18u32)) == v
                + mode * 0x100 + s * 0x4_0000) by (bit_vector);
        assert(v | (mode << 8u32) == v + mode * 0x100) by (bit_vector)
            requires
                mode <= 4,
                v < 256,
        ;
    }
    match destination {
        IpiDestination::Single(core) => {
            let c = core as u32;
            assert(c << 24u32 == c * 0x100_0000) by (bit_vector)
                requires
                    c < 256,
            ;
            (c << 24, v | (mode << 8))
        },
        IpiDestination::AllIncludingSelf => (0, v | (mode << 8) | (2 << 18)),
        IpiDestination::AllExcludingSelf => (0, v | (mode << 8) | (3 << 18)),
        IpiDestination::SelfOnly => (0, v | (mode << 8) | (1 << 18)),
    }
}

/// The time between two ticks of the local APIC timer counter, in
/// nanoseconds, for a timer of internal frequency `frequency`. The frequency
/// must be between 1 Hz and 1 GHz, for the division to be defined and the
/// granularity not 0.
pub fn timer_granularity(frequency: u32) -> (r: u32)
    requires
        0 < frequency <= 1_000_000_000,
    ensures
        r == 1_000_000_000int / (frequency as int),
        r > 0,
{
    assert(1_000_000_000int / (frequency as int) >= 1) by (nonlinear_arith)
        requires
            0 < frequency <= 1_000_000_000,
    ;
    1_000_000_000 / frequency
}

/// The initial count that makes the local APIC timer raise an interrupt in
/// `ns` nanoseconds, and whether `ns` is shorter than a tick of the timer (the
/// interrupt then comes a tick later, which is logged). The frequency must be
/// between 1 Hz and 1 GHz.
pub fn irq_count(frequency: u32, ns: u32) -> (r: (u32, bool))
    requires
        0 < frequency <= 1_000_000_000,
    ensures
        r.0 == (ns as int) / (1_000_000_000int / (frequency as int)),
        r.1 == (ns < 1_000_000_000int / (frequency as int)),
{
    let granularity = timer_granularity(frequency);
    (ns / granularity, ns < granularity)
}

/// The calibrated counter makes the timer raise `TIMER_HZ` interrupts per
/// second, up to the rounding of the counter: `TIMER_HZ` periods of the
/// counter last at most one second, and one more period would exceed it.
pub proof fn lemma_calibration_period(frequency: int, counter: int)
    requires
        frequency >= 25_000_000,
        counter == frequency / (crate::config::TIMER_HZ as int),
    ensures
        counter * (crate::config::TIMER_HZ as int) <= frequency,
        frequency < (counter + 1) * (crate::config::TIMER_HZ as int),
        counter > 0,
{
    vstd::arithmetic::div_mod::lemma_fundamental_div_mod(frequency, 1000);
}

} // verus!
