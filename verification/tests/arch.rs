use silicium::arch::apic::{
    calibration, entry_count_from_version, ipi_command, irq_count, is_irq, timer_granularity,
    IpiDestination, IpiPriority, LocalRegister, Register as IoRegister,
};
use silicium::arch::cmos::{bcd2bin, bin2bcd, select_byte, years, Register as CmosRegister};
use silicium::arch::context::{Context, Trap};
use silicium::arch::cpu::InterruptFrame;
use silicium::arch::gdt::{tss_entries, Register as GdtRegister};
use silicium::arch::irq::{
    classify_interrupt, InterruptKind, InterruptVector, IrqHandler, IrqHandlers, IrqNumber,
};
use silicium::arch::paging::{map_outcome, translate_outcome, unmap_outcome, MapError, UnmapError};
use silicium::arch::pit::{
    counter_bytes, counter_from_bytes, read_back_command, sleep_counter, Channel,
};
use silicium::arch::thread::Registers;
use silicium::arch::time::{current_timespec, jiffies_granularity, jiffies_nano_offset};
use silicium::addr::frame::Frame;
use silicium::addr::phys::Physical;
use silicium::seqlock::{is_consistent_read, is_writing};
use silicium::time::unit::{Millisecond, Nanosecond, Second};
use std::cell::Cell;
use std::rc::Rc;

#[test]
fn bcd_conversions() {
    assert_eq!(bcd2bin(0x59), 59);
    assert_eq!(bcd2bin(0x07), 7);
    assert_eq!(bin2bcd(59), 0x59);
    assert_eq!(bin2bcd(0), 0);
    for v in 0..100u8 {
        assert_eq!(bcd2bin(bin2bcd(v)), v);
    }
    assert_eq!(years(24), 2024);
}

#[test]
fn cmos_register_selection_keeps_the_nmi_bit() {
    assert_eq!(select_byte(0x80, CmosRegister::Year), 0x89);
    assert_eq!(select_byte(0x7F, CmosRegister::Seconds), 0x00);
    assert_eq!(CmosRegister::Month.index(), 0x08);
}

#[test]
fn pit_sleep_counter_and_bytes() {
    assert_eq!(sleep_counter(10), 11933);
    assert_eq!(sleep_counter(1), 1193);
    assert_eq!(sleep_counter(99), (99_000_000u64 / 838) as u16);
    assert_eq!(read_back_command(Channel::Channel2), 0xE0);
    assert_eq!(Channel::Channel1.number(), 1);
    assert_eq!(counter_bytes(0x1234), (0x34, 0x12));
    assert_eq!(counter_from_bytes(0x34, 0x12), 0x1234);
    let (lo, hi) = counter_bytes(11933);
    assert_eq!(counter_from_bytes(lo, hi), 11933);
}

#[test]
fn apic_registers_and_entries() {
    assert_eq!(IoRegister::redirection_low(3).value(), 0x16);
    assert_eq!(IoRegister::redirection_high(3).value(), 0x17);
    assert_eq!(IoRegister::version().value(), 0x01);
    assert_eq!(LocalRegister::eoi().offset(), 0xB0);
    assert_eq!(LocalRegister::lvt_timer().offset(), 0x320);
    assert_eq!(entry_count_from_version(0x0017_0020), 24);
    assert!(is_irq(24, 32));
    assert!(is_irq(24, 55));
    assert!(!is_irq(24, 56));
    assert!(!is_irq(0, 33));
    assert!(!is_irq(24, 31));
}

#[test]
fn apic_timer_calibration() {
    let (frequency, counter) = calibration(u32::MAX - 1_000_000);
    assert_eq!(frequency, 100_000_000);
    assert_eq!(counter, 100_000);
    assert_eq!(timer_granularity(100_000_000), 10);
    assert_eq!(irq_count(100_000_000, 1_000), (100, false));
    assert_eq!(irq_count(100_000_000, 5), (0, true));
}

#[test]
fn ipi_commands() {
    assert_eq!(
        ipi_command(IpiDestination::Single(3), IpiPriority::Fixed, 0xA0),
        (0x0300_0000, 0xA0)
    );
    assert_eq!(
        ipi_command(IpiDestination::AllExcludingSelf, IpiPriority::Fixed, 0xA0),
        (0, 0xA0 | (3 << 18))
    );
    assert_eq!(
        ipi_command(IpiDestination::SelfOnly, IpiPriority::Nmi, 0x20),
        (0, 0x20 | (2 << 8) | (1 << 18))
    );
    assert_eq!(IpiPriority::Smi.mode(), 4);
}

#[test]
fn jiffies_time() {
    assert_eq!(jiffies_granularity(), Millisecond(1));
    assert_eq!(jiffies_nano_offset(100_000_000, 40, 100), Nanosecond(600));
    let t = current_timespec(2_500, Nanosecond(1_200_000_000));
    assert_eq!(t.seconds, Second(3));
    assert_eq!(t.nano, Nanosecond(700_000_000));
    let t = current_timespec(1_500, Nanosecond(0));
    assert_eq!(t.seconds, Second(1));
    assert_eq!(t.nano, Nanosecond(500_000_000));
}

#[test]
fn gdt_register_and_tss_descriptor() {
    let r = GdtRegister::new(0x1234);
    assert_eq!(r.limit(), 63);
    assert_eq!(r.base(), 0x1234);
    let (low, high) = tss_entries(0xFFFF_8000_1234_5678, 104);
    assert_eq!(high.value(), 0xFFFF_8000);
    let l = low.value();
    assert_eq!(l & 0xFFFF, 103);
    assert_eq!((l >> 16) & 0xFF_FFFF, 0x34_5678);
    assert_eq!((l >> 40) & 0xF, 0b1001);
    assert_eq!((l >> 47) & 1, 1);
    assert_eq!((l >> 56) & 0xFF, 0x12);
}

struct Counter(Rc<Cell<u32>>);

impl IrqHandler for Counter {
    fn handle(&mut self) {
        self.0.set(self.0.get() + 1);
    }
}

#[test]
fn irq_handlers_register_handle_unregister() {
    let mut table: IrqHandlers<Counter> = IrqHandlers::new();
    let hits = Rc::new(Cell::new(0));
    let irq = IrqNumber(1);
    assert!(!table.handle(irq));
    assert!(table.register(irq, Counter(hits.clone()), "keyboard"));
    assert!(!table.register(irq, Counter(hits.clone()), "keyboard"));
    assert!(table.register(irq, Counter(hits.clone()), "other"));
    assert!(table.handle(irq));
    assert_eq!(hits.get(), 2);
    assert!(table.unregister(irq, "keyboard"));
    assert!(!table.unregister(irq, "keyboard"));
    assert!(table.handle(irq));
    assert_eq!(hits.get(), 3);
    assert!(table.unregister(irq, "other"));
    assert!(!table.handle(irq));
    assert!(!table.handle(IrqNumber(2)));
}

#[test]
fn irq_vectors() {
    assert_eq!(InterruptVector::from_irq(IrqNumber(1)), InterruptVector(33));
    assert_eq!(IrqNumber::from_vector(InterruptVector(40)), IrqNumber(8));
    assert_eq!(InterruptVector::new(7), InterruptVector(7));
}

#[test]
fn interrupt_classification() {
    assert_eq!(classify_interrupt(32, 24), InterruptKind::IoApic { timer: true });
    assert_eq!(classify_interrupt(33, 24), InterruptKind::IoApic { timer: false });
    assert_eq!(classify_interrupt(0xA0, 24), InterruptKind::TlbShootdown);
    assert_eq!(classify_interrupt(0x1_00A0, 24), InterruptKind::TlbShootdown);
    assert_eq!(classify_interrupt(100, 24), InterruptKind::Unhandled(100));
    assert_eq!(classify_interrupt(33, 0), InterruptKind::Unhandled(33));
}

#[test]
fn user_context() {
    let c = Context::new(0x40_0000, 0x7FFF_0000);
    let r = c.registers();
    assert_eq!(r.rip, 0x40_0000);
    assert_eq!(r.rsp, 0x7FFF_0000);
    assert_eq!(r.rflags, 0x202);
    assert_eq!(r.cs, 0x2B);
    assert_eq!(r.ss, 0x23);
    assert_eq!(r.rax, 0);
    assert_eq!(c.segments(), (0, 0));
    let mut c = c;
    c.registers_mut().rax = 5;
    c.save_segments(1, 2);
    assert_eq!(c.registers().rax, 5);
    assert_eq!(c.segments(), (1, 2));
    assert_eq!(InterruptFrame::default().rip, 0);
}

#[test]
fn traps() {
    assert_eq!(Trap::from_code(0), Some(Trap::Exception));
    assert_eq!(Trap::from_code(1), Some(Trap::Interrupt));
    assert_eq!(Trap::from_code(2), Some(Trap::Syscall));
    assert_eq!(Trap::from_code(3), None);
}

#[test]
fn kernel_thread_registers() {
    let r = Registers::new(0xdead);
    assert_eq!(r.rip, 0xdead);
    assert_eq!(r.rsp, 0);
    assert_eq!(r.rflags, 0);
}

#[test]
fn paging_outcomes() {
    assert_eq!(map_outcome(false, false), Err(MapError::OutOfMemory));
    assert_eq!(map_outcome(true, true), Err(MapError::AlreadyMapped));
    assert_eq!(map_outcome(true, false), Ok(()));
    let f = Frame::new(0x5000);
    assert_eq!(unmap_outcome(true, Some(f)), Ok(f));
    assert_eq!(unmap_outcome(true, None), Err(UnmapError::NotMapped));
    assert_eq!(unmap_outcome(false, Some(f)), Err(UnmapError::NotMapped));
    assert_eq!(translate_outcome(true, Some(f)), Some(f));
    assert_eq!(translate_outcome(false, Some(f)), None);
}

#[test]
fn time_stamp_counter() {
    assert!(silicium::arch::tsc::is_invariant(1 << 8));
    assert!(!silicium::arch::tsc::is_invariant(0xFFFF_FEFF));
    assert_eq!(silicium::arch::tsc::frequency(2, 176, 24_000_000), 2_112_000_000);
}

#[test]
fn initial_gdt() {
    let t = silicium::arch::gdt::initial_table();
    assert_eq!(t[0].value(), 0);
    assert_eq!(t[1].value(), 0x00af_9b00_0000_ffff);
    assert_eq!(t[5].value(), 0x00af_fb00_0000_ffff);
    assert_eq!(t[7].value(), 0);
}

#[test]
fn sequence_protocol() {
    assert!(!is_writing(4));
    assert!(is_writing(5));
    assert!(is_consistent_read(4, 4));
    assert!(!is_consistent_read(4, 6));
    assert!(!is_consistent_read(5, 5));
}

#[test]
fn physical_memory_direct_mapping() {
    let v = silicium::arch::physical::translate(Physical::new(0));
    assert_eq!(v.as_usize(), 0xFFFF_8000_0000_0000);
    assert!(silicium::addr::phys::check_power_of_two(4096));
    assert!(!silicium::addr::phys::check_power_of_two(0));
    assert!(!silicium::addr::phys::check_power_of_two(12));
    assert!(silicium::addr::phys::check_power_of_two(1));
    assert!(silicium::addr::phys::check_power_of_two(1usize << 63));
}

#[test]
fn per_cpu_and_stacks() {
    assert_eq!(silicium::arch::percpu::relocate(0x1010, 0x1000, 0x8000), 0x8010);
    assert_eq!(silicium::arch::percpu::stack_top(0x4000, 0x2000), 0x6000);
    assert_eq!(silicium::arch::thread::trampoline(1, 2, 3, 4), [1, 3, 0x200, 2, 4]);
    assert_eq!(silicium::arch::thread::kernel_trampoline(0xAB, 0xCD), [0xAB, 0x08, 0x200, 0xCD, 0x10]);
}

#[test]
fn pit_counter_wraps_from_55_milliseconds() {
    assert_eq!(sleep_counter(54), 64439);
    assert_eq!(sleep_counter(55), 96);
    let c = u64::from(sleep_counter(30));
    assert!(c * 838 <= 30_000_000 && 30_000_000 < (c + 1) * 838);
}

#[test]
fn calibrated_counter_period() {
    let (frequency, counter) = calibration(u32::MAX - 250_001);
    assert_eq!(frequency, 25_000_100);
    assert!(u64::from(counter) * 1000 <= u64::from(frequency));
    assert!(u64::from(frequency) < (u64::from(counter) + 1) * 1000);
}

#[test]
fn register_halves() {
    let (low, high) = silicium::arch::cpu::split_halves(0x1234_5678_9ABC_DEF0);
    assert_eq!((low, high), (0x9ABC_DEF0, 0x1234_5678));
    assert_eq!(silicium::arch::cpu::join_halves(low, high), 0x1234_5678_9ABC_DEF0);
}

#[test]
fn log_prefixes() {
    assert_eq!(silicium::logging::prefix(silicium::logging::Level::Error), "\x1B[1m\x1b[31m[!]\x1b[0m");
    assert_eq!(silicium::logging::prefix(silicium::logging::Level::Trace), "\x1B[1m\x1b[35m[~]\x1b[0m");
}
