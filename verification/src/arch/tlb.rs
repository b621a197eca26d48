//! Translation lookaside buffer shootdowns.
use vstd::prelude::*;

verus! {

/// The vector number of the TLB shootdown interrupt.
pub const SHOOTDOWN_VECTOR: u8 = 0xA0;

/// Returns true if the given interrupt vector is the TLB shootdown vector.
pub fn own_irq(irq: u8) -> (r: bool)
    ensures
        r == (irq == SHOOTDOWN_VECTOR),
{
    irq == SHOOTDOWN_VECTOR
}

} // verus!
