//! The kernel clock: jiffies counted by the timer interrupt, refined by the
//! local APIC timer counter.
use vstd::prelude::*;
use crate::config::TIMER_HZ;
use crate::time::{lemma_conform_keeps_total, Timespec, NANOS_PER_SECOND};
use crate::time::unit::{Millisecond, Nanosecond, Second};

verus! {

/// Returns the frequency of the jiffies in hertz: the number of jiffies per
/// second.
pub fn jiffies_frequency() -> (r: u64)
    ensures
        r == TIMER_HZ,
{
    TIMER_HZ as u64
}

/// Returns the time between two jiffies, in milliseconds.
pub fn jiffies_granularity() -> (r: Millisecond)
    ensures
        r.0 == 1_000int / (TIMER_HZ as int),
{
    Millisecond::new(1_000 / TIMER_HZ as u64)
}

/// The time elapsed since the last jiffy, in nanoseconds, from the local APIC
/// timer: its internal `frequency` (in Hz), its current `counter` and the
/// `initial` counter it counts down from. The frequency must not be zero and the
/// counter must not exceed the initial counter.
pub fn jiffies_nano_offset(frequency: u32, counter: u32, initial: u32) -> (r: Nanosecond)
    requires
        frequency > 0,
        counter <= initial,
    ensures
        r.0 == (initial - counter) * (1_000_000_000int / (frequency as int)),
{
    let granularity = 1_000_000_000 / frequency as u64;
    let elapsed = initial - counter;
    assert(elapsed as u64 * granularity <= 0xFFFF_FFFFu64 * 1_000_000_000u64) by (nonlinear_arith)
        requires
            elapsed <= 0xFFFF_FFFFu32,
            granularity <= 1_000_000_000,
    ;
    Nanosecond::new(elapsed as u64 * granularity)
}

/// The timestamp since the kernel started, from the number of `jiffies` and the
/// nanoseconds elapsed since the last jiffy: `jiffies` periods of the timer
/// plus `nanos`, with fewer nanoseconds than a second.
pub fn current_timespec(jiffies: u64, nanos: Nanosecond) -> (r: Timespec)
    ensures
        r.is_conformant(),
        r.total() == jiffies * (1_000_000_000int / (TIMER_HZ as int)) + nanos.0,
{
    let hz = jiffies_frequency();
    let period: u64 = 1_000_000_000 / hz;
    let seconds = jiffies / hz + nanos.0 / NANOS_PER_SECOND;
    let sub = (jiffies % hz) * period + nanos.0 % NANOS_PER_SECOND;
    proof {
        let q = jiffies / 1000;
        let m = jiffies % 1000;
        let a = nanos.0 / 1_000_000_000;
        let b = nanos.0 % 1_000_000_000;
        assert(jiffies == q * 1000 + m);
        assert(nanos.0 == a * 1_000_000_000 + b);
        assert(jiffies * 1_000_000 == q * 1_000_000_000 + m * 1_000_000) by (nonlinear_arith)
            requires
                jiffies == q * 1000 + m,
        ;
        lemma_conform_keeps_total(Second(seconds), Nanosecond(sub));
    }
    Timespec::conform(Second::new(seconds), Nanosecond::new(sub))
}

} // verus!
