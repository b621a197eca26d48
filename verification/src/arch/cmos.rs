//! CMOS real-time clock registers and their binary-coded decimal encoding.
use vstd::prelude::*;

verus! {

/// A CMOS register. Each register is 1 byte wide and holds a binary-coded
/// decimal (BCD) value.
#[derive(Debug, Clone, Copy, PartialEq, Eq, Structural, Hash)]
pub enum Register {
    Seconds,
    Minutes,
    Hours,
    Day,
    Month,
    Year,
}

impl Register {
    /// The register number.
    pub open spec fn spec_index(self) -> u8 {
        match self {
            Register::Seconds => 0x00,
            Register::Minutes => 0x02,
            Register::Hours => 0x04,
            Register::Day => 0x07,
            Register::Month => 0x08,
            Register::Year => 0x09,
        }
    }

    /// The register number, as written to the CMOS address port.
    pub fn index(self) -> (r: u8)
        ensures
            r == self.spec_index(),
    {
        match self {
            Register::Seconds => 0x00,
            Register::Minutes => 0x02,
            Register::Hours => 0x04,
            Register::Day => 0x07,
            Register::Month => 0x08,
            Register::Year => 0x09,
        }
    }
}

/// The weekday register of the real-time clock, which the clock does not read.
pub open spec fn weekday_register() -> u8 {
    0x06
}

/// Status register A of the real-time clock, which follows the date and time
/// registers.
pub open spec fn status_register_a() -> u8 {
    0x0A
}

/// The register layout of the real-time clock: the seconds, minutes and hours
/// are every other register from 0 (each followed by its alarm register), and
/// the day of the month, the month and the year are consecutive registers after
/// the weekday register and before status register A. No two registers share
/// an index.
pub proof fn lemma_rtc_layout()
    ensures
        Register::Seconds.spec_index() == 0,
        Register::Minutes.spec_index() == Register::Seconds.spec_index() + 2,
        Register::Hours.spec_index() == Register::Minutes.spec_index() + 2,
        weekday_register() < Register::Day.spec_index(),
        Register::Month.spec_index() == Register::Day.spec_index() + 1,
        Register::Year.spec_index() == Register::Month.spec_index() + 1,
        Register::Year.spec_index() < status_register_a(),
        forall|a: Register, b: Register| a.spec_index() == b.spec_index() ==> a == b,
{
}

/// The byte written to the CMOS address port to select `reg` while keeping the
/// non-maskable interrupt bit `nmi` (bit 7 of the previous port value).
pub fn select_byte(nmi_port: u8, reg: Register) -> (r: u8)
    ensures
        r == (nmi_port / 128) * 128 + reg.spec_index(),
{
    let nmi = nmi_port & 0x80;
    let index = reg.index();
    assert((nmi_port & 0x80) | index == (nmi_port / 128) * 128 + index) by (bit_vector)
        requires
            index < 16,
    ;
    nmi | index
}

/// A byte is a valid binary-coded decimal number: both nibbles are decimal
/// digits.
pub open spec fn is_bcd(value: u8) -> bool {
    value / 16 < 10 && value % 16 < 10
}

/// Converts a binary-coded decimal (BCD) value to a binary value.
pub fn bcd2bin(value: u8) -> (r: u8)
    ensures
        r == (value / 16) * 10 + value % 16,
{
    assert((value >> 4u8) == value / 16 && (value & 0x0F) == value % 16) by (bit_vector);
    (value >> 4) * 10 + (value & 0x0F)
}

/// Converts a binary value to a binary-coded decimal (BCD) value. The value
/// must be below 100, so that both digits fit in a nibble.
pub fn bin2bcd(value: u8) -> (r: u8)
    requires
        value < 100,
    ensures
        r == (value / 10) * 16 + value % 10,
        is_bcd(r),
{
    let tens = value / 10;
    assert(tens << 4u8 == tens * 16) by (bit_vector)
        requires
            tens < 10,
    ;
    (tens << 4) + (value % 10)
}

/// Decoding the encoding of a number below 100 gives the number back.
pub proof fn lemma_bcd_round_trip(value: u8)
    requires
        value < 100,
    ensures
        ((value / 10) * 16 + value % 10) / 16 * 10 + ((value / 10) * 16 + value % 10) % 16 == value,
{
    let t = value / 10;
    let u = value % 10;
    let b = t * 16 + u;
    vstd::arithmetic::div_mod::lemma_fundamental_div_mod_converse(b as int, 16, t as int, u as int);
}

/// Encoding the decoding of a valid BCD byte gives the byte back.
pub proof fn lemma_bin_round_trip(value: u8)
    requires
        is_bcd(value),
    ensures
        ((value / 16) * 10 + value % 16) / 10 * 16 + ((value / 16) * 10 + value % 16) % 10 == value,
{
    let t = value / 16;
    let u = value % 16;
    let b = t * 10 + u;
    vstd::arithmetic::div_mod::lemma_fundamental_div_mod_converse(b as int, 10, t as int, u as int);
}

/// The current year, from the value of the year register (as read, decoded
/// from BCD). The century register is not read: the 21st century is assumed.
pub fn years(year: u8) -> (r: u16)
    ensures
        r == 2000 + year,
{
    2000 + year as u16
}

} // verus!
