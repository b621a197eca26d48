//! The programmable interval timer (PIT).
use vstd::prelude::*;

verus! {

/// The channels of the PIT.
#[derive(Debug, Clone, Copy, PartialEq, Eq, Structural, PartialOrd, Ord, Hash)]
pub enum Channel {
    Channel0,
    Channel1,
    Channel2,
}

impl Channel {
    /// The channel number.
    pub open spec fn spec_number(self) -> u8 {
        match self {
            Channel::Channel0 => 0,
            Channel::Channel1 => 1,
            Channel::Channel2 => 2,
        }
    }

    /// The channel number.
    pub fn number(self) -> (r: u8)
        ensures
            r == self.spec_number(),
    {
        match self {
            Channel::Channel0 => 0,
            Channel::Channel1 => 1,
            Channel::Channel2 => 2,
        }
    }
}

/// The frequency of the internal clock that drives the PIT, in Hz.
pub const INTERNAL_FREQ: u64 = 1_193_180;

/// The number of nanoseconds between two internal ticks of the PIT.
pub const PIT_TICK_NS: u64 = 1_000_000_000 / 1_193_180;

/// The initial counter that makes channel 2 reach 0 after `ms` milliseconds:
/// the number of ticks in `ms` milliseconds, truncated to the 16 bits of the
/// counter. `ms` must be between 1 and 99.
pub fn sleep_counter(ms: u64) -> (r: u16)
    requires
        0 < ms < 100,
    ensures
        r == ((ms * 1_000_000) / (1_000_000_000int / 1_193_180int)) % 0x1_0000,
{
    assert(PIT_TICK_NS == 838);
    let initial = (ms * 1_000_000) / PIT_TICK_NS;
    let counter = initial as u16;
    assert(counter == initial % 0x1_0000) by (bit_vector)
        requires
            counter == initial as u16,
    ;
    counter
}

/// The command byte written before reading the counter of `channel`:
/// `0xE0 | (channel << 6)`. The channel bits fall on bits that `0xE0` already
/// sets, so the byte is `0xE0` for every channel.
pub fn read_back_command(channel: Channel) -> (r: u8)
    ensures
        r == 0xE0,
{
    let n = channel.number();
    assert(0xe0u8 | (n << 6u8) == 0xe0) by (bit_vector)
        requires
            n < 3,
    ;
    0xe0 | (n << 6)
}

/// The low and high bytes of a counter value, in the order they are written
/// to a channel.
pub fn counter_bytes(counter: u16) -> (r: (u8, u8))
    ensures
        r.0 == counter % 256,
        r.1 == counter / 256,
{
    let lo = (counter & 0xFF) as u8;
    let hi = (counter >> 8) as u8;
    assert((counter & 0xFF) == counter % 256 && (counter >> 8) == counter / 256) by (bit_vector);
    (lo, hi)
}

/// The counter value read from a channel as a low byte then a high byte.
pub fn counter_from_bytes(lo: u8, hi: u8) -> (r: u16)
    ensures
        r == hi * 256 + lo,
{
    let h = hi as u16;
    let l = lo as u16;
    assert((h << 8u16) | l == h * 256 + l) by (bit_vector)
        requires
            h < 256,
            l < 256,
    ;
    (h << 8) | l
}

/// Writing a counter as two bytes and reading them back gives the counter.
pub proof fn lemma_counter_bytes_round_trip(counter: u16)
    ensures
        (counter / 256) * 256 + counter % 256 == counter,
{
}

/// For up to 54 milliseconds, the counter is the number of whole ticks of
/// 838 ns in the delay: the channel reaches 0 within one tick before the
/// delay ends. From 55 milliseconds on, the count no longer fits in the 16
/// bits of the counter and wraps around.
pub proof fn lemma_sleep_counter_ticks(ms: u64)
    requires
        0 < ms <= 54,
    ensures
        ((ms * 1_000_000) / 838) < 0x1_0000,
        ((ms * 1_000_000) / 838) * 838 <= ms * 1_000_000,
        ms * 1_000_000 < ((ms * 1_000_000) / 838 + 1) * 838,
{
    let d = (ms * 1_000_000) as int;
    vstd::arithmetic::div_mod::lemma_fundamental_div_mod(d, 838);
    assert(d / 838 < 0x1_0000) by {
        vstd::arithmetic::div_mod::lemma_div_is_ordered(d, 54_000_000, 838);
    }
}

} // verus!
