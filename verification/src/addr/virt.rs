//! Canonical virtual addresses.
use vstd::prelude::*;
use crate::addr::phys::{spec_align_down, spec_align_up, lemma_mask_is_align_down, lemma_mask_is_align_up};
use crate::addr::frame::lemma_page_size_power_of_two;
use vstd::std_specs::convert::FromSpecImpl;

verus! {

/// An address is canonical when its 17 most significant bits are all zeros or all
/// ones: it is not between `0x0000_8000_0000_0000` and `0xFFFF_7FFF_FFFF_FFFF`.
pub open spec fn is_canonical(addr: nat) -> bool {
    addr < 0x0000_8000_0000_0000nat || 0xFFFF_8000_0000_0000nat <= addr
}

/// A virtual address on the `x86_64` architecture.
#[derive(Debug, Clone, Copy, PartialEq, Eq, Structural, PartialOrd, Ord, Hash)]
pub struct Virtual(pub(crate) usize);

impl View for Virtual {
    type V = nat;

    closed spec fn view(&self) -> nat {
        self.0 as nat
    }
}

impl Virtual {
    /// Creates a new `Virtual` address. The address must be canonical.
    pub fn new(addr: usize) -> (r: Self)
        requires
            is_canonical(addr as nat),
        ensures
            r@ == addr as nat,
    {
        match Self::try_new(addr) {
            None => {
                proof {
                    assert(false);
                }
                Virtual(0)
            },
            Some(v) => v,
        }
    }

    /// Creates a new `Virtual` address without checking that it is canonical:
    /// the caller guarantees it where it matters.
    pub fn new_unchecked(addr: usize) -> (r: Self)
        ensures
            r@ == addr as nat,
    {
        Virtual(addr)
    }

    /// Creates a new `Virtual` address if the given address is canonical, and
    /// returns `None` otherwise.
    pub fn try_new(addr: usize) -> (r: Option<Self>)
        ensures
            r.is_some() <==> is_canonical(addr as nat),
            r.is_some() ==> r.unwrap()@ == addr as nat,
    {
        let wide = addr as u64;
        let top = (wide & 0xFFFF_8000_0000_0000u64) >> 47u64;
        assert(top == 0 <==> wide < 0x0000_8000_0000_0000u64) by (bit_vector)
            requires
                top == (wide & 0xFFFF_8000_0000_0000u64) >> 47u64,
        ;
        assert(top == 0x1FFFF <==> wide >= 0xFFFF_8000_0000_0000u64) by (bit_vector)
            requires
                top == (wide & 0xFFFF_8000_0000_0000u64) >> 47u64,
        ;
        if top == 0 || top == 0x1FFFF {
            Some(Virtual(addr))
        } else {
            None
        }
    }

    /// Tells whether the address is page-aligned (a multiple of 4096).
    pub fn is_page_aligned(&self) -> (r: bool)
        ensures
            r == (self@ % 4096 == 0),
    {
        proof {
            lemma_page_size_power_of_two();
            lemma_mask_is_align_down(self.0, 4096);
        }
        (self.0 & 0xFFF) == 0
    }

    /// Aligns the address to the previous page-aligned address. A page-aligned
    /// address is returned unchanged.
    pub fn page_align_down(&self) -> (r: Self)
        ensures
            r@ == spec_align_down(self@, 4096),
    {
        proof {
            lemma_page_size_power_of_two();
            lemma_mask_is_align_down(self.0, 4096);
        }
        Virtual(self.0 & !0xFFF)
    }

    /// Aligns the address to the next page-aligned address. A page-aligned
    /// address is returned unchanged. The sum `self + 0xFFF` must not overflow.
    pub fn page_align_up(&self) -> (r: Self)
        requires
            self@ + 0xFFF <= usize::MAX,
        ensures
            r@ == spec_align_up(self@, 4096),
    {
        proof {
            lemma_page_size_power_of_two();
            lemma_mask_is_align_up(self.0, 4096);
        }
        Virtual((self.0 + 0xFFF) & !0xFFF)
    }

    /// Returns the address as a `usize`.
    pub fn as_usize(self) -> (r: usize)
        ensures
            r as nat == self@,
    {
        self.0
    }
}

impl From<Virtual> for usize {
    fn from(addr: Virtual) -> (r: usize) {
        addr.0
    }
}

impl FromSpecImpl<Virtual> for usize {
    open spec fn obeys_from_spec() -> bool {
        true
    }

    open spec fn from_spec(v: Virtual) -> usize {
        v@ as usize
    }
}

impl From<Virtual> for u64 {
    fn from(addr: Virtual) -> (r: u64) {
        addr.0 as u64
    }
}

impl FromSpecImpl<Virtual> for u64 {
    open spec fn obeys_from_spec() -> bool {
        true
    }

    open spec fn from_spec(v: Virtual) -> u64 {
        v@ as u64
    }
}

/// Aligning a canonical address down to a page boundary keeps it canonical.
pub proof fn lemma_page_align_down_canonical(addr: nat)
    requires
        is_canonical(addr),
    ensures
        is_canonical(spec_align_down(addr, 4096)),
{
    crate::addr::phys::lemma_align_bounds(addr, 4096);
    assert(0xFFFF_8000_0000_0000nat % 4096 == 0);
    if 0xFFFF_8000_0000_0000nat <= addr {
        let d = spec_align_down(addr, 4096) as int;
        let k = 0xFFFF_8000_0000_0000int;
        assert(d % 4096 == 0);
        assert(addr - d < 4096);
        assert(k <= d) by {
            if d < k {
                assert(d == (d / 4096) * 4096);
                assert(k == (k / 4096) * 4096);
                assert(d / 4096 < k / 4096) by (nonlinear_arith)
                    requires
                        d == (d / 4096) * 4096,
                        k == (k / 4096) * 4096,
                        d < k,
                ;
                assert((d / 4096) * 4096 + 4096 <= k) by (nonlinear_arith)
                    requires
                        d / 4096 < k / 4096,
                        k == (k / 4096) * 4096,
                ;
            }
        }
    }
}

} // verus!
