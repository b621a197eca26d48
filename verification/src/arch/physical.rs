//! The direct mapping of the physical memory into the kernel address space.
use vstd::prelude::*;
use crate::addr::phys::{Physical, max_physical};
use crate::addr::virt::{Virtual, is_canonical};

verus! {

/// The first address of the direct mapping of the physical memory (the kernel
/// does not use 5-level paging, so it is always this address).
pub open spec fn hhdm_start() -> nat {
    0xFFFF_8000_0000_0000nat
}

/// Translates a physical address to the virtual address where the kernel maps
/// it: the whole physical memory is mapped from `hhdm_start()`. The virtual
/// address must fit in a `usize`; it is canonical for a valid physical
/// address.
pub fn translate(phys: Physical) -> (r: Virtual)
    requires
        hhdm_start() + phys@ <= usize::MAX,
    ensures
        r@ == hhdm_start() + phys@,
        phys.is_valid() ==> is_canonical(r@),
{
    let wide = 0xFFFF_8000_0000_0000u64 + phys.as_u64();
    Virtual::new_unchecked(wide as usize)
}

/// Distinct physical addresses are mapped to distinct virtual addresses, in
/// the kernel half of the address space, as long as the sum fits in 64 bits:
/// physical addresses from `0x8000_0000_0000` on would wrap around.
pub proof fn lemma_translate_injective(a: nat, b: nat)
    requires
        a <= max_physical(),
        b <= max_physical(),
        hhdm_start() + a <= u64::MAX,
        hhdm_start() + b <= u64::MAX,
    ensures
        hhdm_start() + a == hhdm_start() + b <==> a == b,
        is_canonical(hhdm_start() + a),
        a < 0x8000_0000_0000,
{
}

} // verus!
