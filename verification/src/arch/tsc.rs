//! The time stamp counter: what the CPU identification tells of it.
use vstd::prelude::*;

verus! {

/// The extended CPUID leaf that tells whether the time stamp counter is
/// invariant.
pub const INVARIANCE_LEAF: u32 = 0x8000_0007;

/// The CPUID leaf that gives the frequency of the time stamp counter.
pub const FREQUENCY_LEAF: u32 = 0x15;

/// Tells whether the time stamp counter is invariant, from the `edx` register
/// of the invariance leaf: bit 8.
pub fn is_invariant(edx: u32) -> (r: bool)
    ensures
        r == ((edx / 256) % 2 == 1),
{
    let bit = edx & (1 << 8);
    assert((edx & (1u32 << 8u32)) != 0 <==> (edx / 256) % 2 == 1) by (bit_vector);
    bit != 0
}

/// The frequency of the time stamp counter, in Hz, from the frequency leaf:
/// the crystal frequency (`ecx`) times the ratio `numerator / denominator`
/// (`ebx / eax`). The denominator must not be zero and the product must fit in
/// 32 bits.
pub fn frequency(denominator: u32, numerator: u32, crystal_frequency: u32) -> (r: u32)
    requires
        denominator != 0,
        crystal_frequency * numerator <= u32::MAX,
    ensures
        r == (crystal_frequency * numerator) / (denominator as int),
{
    (crystal_frequency * numerator) / denominator
}

} // verus!
