//! Logic specific to the `x86_64` architecture.
pub mod apic;
pub mod cmos;
pub mod context;
pub mod cpu;
pub mod gdt;
pub mod irq;
pub mod paging;
pub mod percpu;
pub mod physical;
pub mod pit;
pub mod thread;
pub mod time;
pub mod tlb;
pub mod tsc;
pub mod virt;
