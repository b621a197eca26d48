//! The global descriptor table (GDT): its register and the task state segment
//! descriptor.
use vstd::prelude::*;
use bitfield::{BitMut, BitRangeMut};

verus! {

/// The number of entries of the kernel GDT.
pub const GDT_ENTRIES: usize = 8;

/// The index of the first of the two entries of the task state segment
/// descriptor in the GDT.
pub const TSS_ENTRY_INDEX: usize = 6;

/// The mask of bits `lsb` to `msb` of a 64-bit word, computed as the `bitfield`
/// crate computes it.
pub open spec fn range_mask(msb: usize, lsb: usize) -> u64 {
    ((u64::MAX << ((63 - msb) as u64)) >> ((63 - msb + lsb) as u64)) << (lsb as u64)
}

/// `bitfield::BitRangeMut::<u64>::set_bit_range` on a `u64`: replaces bits `lsb`
/// to `msb` of `word` by the low bits of `value`. The crate computes the mask of
/// these bits and writes `(word & !mask) | ((value << lsb) & mask)`; it panics
/// when `msb` is 64 or more, hence the requirement.
#[verifier::external_body]
fn set_bit_range(word: &mut u64, msb: usize, lsb: usize, value: u64)
    requires
        lsb <= msb < 64,
    ensures
        *final(word) == (*old(word) & !range_mask(msb, lsb)) | ((value << (lsb as u64)) & range_mask(
            msb,
            lsb,
        )),
{
    word.set_bit_range(msb, lsb, value);
}

/// `bitfield::BitMut::set_bit` on a `u64`: sets bit `bit` of `word` to `value`.
/// The crate writes the bit through `set_bit_range(bit, bit, value as u8)`, with
/// the same mask computation, and panics when `bit` is 64 or more.
#[verifier::external_body]
fn set_bit(word: &mut u64, bit: usize, value: bool)
    requires
        bit < 64,
    ensures
        *final(word) == (*old(word) & !range_mask(bit, bit)) | (((if value {
            1u64
        } else {
            0u64
        }) << (bit as u64)) & range_mask(bit, bit)),
{
    word.set_bit(bit, value);
}

/// A GDT entry: a 64-bit segment descriptor.
#[derive(Debug, Clone, Copy, PartialEq, Eq, Structural)]
pub struct Entry(u64);

impl View for Entry {
    type V = u64;

    closed spec fn view(&self) -> u64 {
        self.0
    }
}

impl Entry {
    /// The descriptor as a 64-bit word.
    pub fn value(self) -> (r: u64)
        ensures
            r == self@,
    {
        self.0
    }
}

/// The value of the GDT register: the limit of the table (its size minus one)
/// and its base address.
#[derive(Debug, Clone, Copy, PartialEq, Eq, Structural)]
pub struct Register {
    limit: u16,
    base: u64,
}

impl Register {
    /// The limit of the table: its size in bytes minus one.
    pub closed spec fn spec_limit(self) -> u16 {
        self.limit
    }

    /// The base address of the table.
    pub closed spec fn spec_base(self) -> u64 {
        self.base
    }

    /// A register for a table of `GDT_ENTRIES` entries at address `base`.
    pub fn new(base: u64) -> (r: Self)
        ensures
            r.spec_limit() == GDT_ENTRIES * 8 - 1,
            r.spec_base() == base,
    {
        Self { limit: (GDT_ENTRIES * 8 - 1) as u16, base }
    }

    /// An uninitialized register: limit and base are zero.
    pub fn uninitialized() -> (r: Self)
        ensures
            r.spec_limit() == 0,
            r.spec_base() == 0,
    {
        Self { limit: 0, base: 0 }
    }

    /// The limit of the table.
    pub fn limit(&self) -> (r: u16)
        ensures
            r == self.spec_limit(),
    {
        self.limit
    }

    /// The base address of the table.
    pub fn base(&self) -> (r: u64)
        ensures
            r == self.spec_base(),
    {
        self.base
    }
}

/// The low word of the descriptor of a task state segment at `address` of
/// `size` bytes: the limit (`size - 1`) in bits 0 to 15, bits 0 to 23 of the
/// address in bits 16 to 39, the type `0b1001` (available 64-bit TSS) in bits 40
/// to 43, the present bit 47, and bits 24 to 31 of the address in bits 56 to 63.
pub open spec fn tss_low_word(address: u64, size: u64) -> u64 {
    (((size - 1) as u64) & 0xFFFF) | ((address & 0xFF_FFFF) << 16u64) | (0b1001u64 << 40u64) | (1u64
        << 47u64) | (((address >> 24u64) & 0xFF) << 56u64)
}

/// The two GDT entries describing the task state segment at `address` of `size`
/// bytes: the low word, then bits 32 to 63 of the address. The size must not be
/// zero.
pub fn tss_entries(address: u64, size: u64) -> (r: (Entry, Entry))
    requires
        size > 0,
    ensures
        r.0@ == tss_low_word(address, size),
        r.1@ == address >> 32u64,
{
    let mut low: u64 = 0;
    set_bit_range(&mut low, 15, 0, size - 1);
    let l1 = low;
    set_bit_range(&mut low, 63, 56, (address >> 24) & 0xFF);
    let l2 = low;
    set_bit_range(&mut low, 39, 16, address & 0xFF_FFFF);
    let l3 = low;
    set_bit_range(&mut low, 43, 40, 0b1001);
    let l4 = low;
    set_bit(&mut low, 47, true);
    let limit = size - 1;
    assert(low == tss_low_word(address, size)) by (bit_vector)
        requires
            limit == size - 1,
            l1 == (0u64 & !range_mask(15, 0)) | ((limit << 0u64) & range_mask(15, 0)),
            l2 == (l1 & !range_mask(63, 56)) | ((((address >> 24u64) & 0xFF) << 56u64) & range_mask(
                63,
                56,
            )),
            l3 == (l2 & !range_mask(39, 16)) | (((address & 0xFF_FFFF) << 16u64) & range_mask(39, 16)),
            l4 == (l3 & !range_mask(43, 40)) | ((0b1001u64 << 40u64) & range_mask(43, 40)),
            low == (l4 & !range_mask(47, 47)) | ((1u64 << 47u64) & range_mask(47, 47)),
    ;
    (Entry(low), Entry(address >> 32))
}

/// The initial GDT of a core: the null descriptor, the kernel code and data
/// segments, the user 32-bit code segment, the user data and 64-bit code
/// segments, then two empty entries for the task state segment.
pub fn initial_table() -> (r: [Entry; 8])
    ensures
        r@.len() == 8,
        r@[0]@ == 0,
        r@[1]@ == 0x00af_9b00_0000_ffff,
        r@[2]@ == 0x00af_9300_0000_ffff,
        r@[3]@ == 0x008f_fb00_0000_ffff,
        r@[4]@ == 0x00af_f300_0000_ffff,
        r@[5]@ == 0x00af_fb00_0000_ffff,
        r@[6]@ == 0,
        r@[7]@ == 0,
{
    [
        Entry(0),
        Entry(0x00af_9b00_0000_ffff),
        Entry(0x00af_9300_0000_ffff),
        Entry(0x008f_fb00_0000_ffff),
        Entry(0x00af_f300_0000_ffff),
        Entry(0x00af_fb00_0000_ffff),
        Entry(0),
        Entry(0),
    ]
}

} // verus!
