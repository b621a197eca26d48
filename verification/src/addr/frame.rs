//! Physical frames: page-aligned physical addresses.
use vstd::prelude::*;
use vstd::arithmetic::power2::{pow2, lemma2_to64};
use crate::addr::phys::{Physical, max_physical, is_power_of_two, lemma_mask_is_align_down};
use crate::config::PAGE_SHIFT;
use vstd::std_specs::convert::FromSpecImpl;

verus! {

/// The size of a page, as a power of two.
pub proof fn lemma_page_size_power_of_two()
    ensures
        is_power_of_two(4096usize),
        pow2(12) == 4096,
{
    lemma2_to64();
    assert(4096usize == pow2(12));
}

/// A frame is a physical address that represents a page in memory: a page-aligned
/// physical address (a multiple of 4096) of at most 52 bits.
#[derive(Debug, Clone, Copy, PartialEq, Eq, Structural, PartialOrd, Ord, Hash)]
pub struct Frame(pub(crate) Physical);

impl View for Frame {
    type V = nat;

    closed spec fn view(&self) -> nat {
        self.0@
    }
}

/// `addr` is a valid frame address: page-aligned and at most 52 bits wide.
pub open spec fn is_frame_address(addr: nat) -> bool {
    addr <= max_physical() && addr % 4096 == 0
}

impl Frame {
    /// The frame address is page-aligned and at most 52 bits wide.
    pub open spec fn is_valid(self) -> bool {
        is_frame_address(self@)
    }

    /// Creates a new `Frame` from the given address, which must be page-aligned
    /// and at most 52 bits wide.
    pub fn new(addr: usize) -> (r: Self)
        requires
            is_frame_address(addr as nat),
        ensures
            r@ == addr as nat,
            r.is_valid(),
    {
        match Self::try_new(addr) {
            None => {
                proof {
                    assert(false);
                }
                Frame(Physical::new(0))
            },
            Some(frame) => frame,
        }
    }

    /// Creates a new `Frame` if the given address is page-aligned and at most 52
    /// bits wide. Otherwise, returns `None`.
    pub fn try_new(addr: usize) -> (r: Option<Self>)
        ensures
            r.is_some() <==> is_frame_address(addr as nat),
            r.is_some() ==> r.unwrap()@ == addr as nat && r.unwrap().is_valid(),
    {
        match Physical::try_new(addr) {
            Some(phys) => {
                proof {
                    lemma_page_size_power_of_two();
                }
                if phys.is_aligned_to(4096) {
                    Some(Frame(phys))
                } else {
                    None
                }
            },
            None => None,
        }
    }

    /// Creates a new `Frame` without checking that the address is page-aligned
    /// and at most 52 bits wide: the caller guarantees it where it matters.
    pub fn new_unchecked(addr: usize) -> (r: Self)
        ensures
            r@ == addr as nat,
    {
        Frame(Physical::new_unchecked(addr))
    }

    /// Creates a new `Frame` from the given frame index, by shifting the index to
    /// the left by the page shift (12). The shifted index must be a valid frame
    /// address.
    pub fn from_index(index: usize) -> (r: Self)
        requires
            ((index << 12usize) as nat) <= max_physical(),
        ensures
            r@ == (index << 12usize) as nat,
            r.is_valid(),
    {
        let addr = index << PAGE_SHIFT as usize;
        proof {
            lemma_page_size_power_of_two();
            lemma_mask_is_align_down(addr, 4096);
            assert(addr & 4095usize == 0) by (bit_vector)
                requires
                    addr == index << 12usize,
            ;
        }
        Self::new(addr)
    }

    /// Returns the index of the frame: the frame number, which starts at 0 for
    /// the frame located at address 0 and increments by 1 for each frame.
    pub fn index(&self) -> (r: usize)
        ensures
            r == self@ / 4096,
    {
        let addr = self.0.as_usize();
        proof {
            vstd::bits::lemma_usize_shr_is_div(addr, 12);
            lemma_page_size_power_of_two();
        }
        addr >> PAGE_SHIFT as usize
    }

    /// Returns the frame as a physical address.
    pub fn physical(self) -> (r: Physical)
        ensures
            r@ == self@,
    {
        self.0
    }
}

impl From<Frame> for usize {
    fn from(frame: Frame) -> (r: usize) {
        frame.0.as_usize()
    }
}

impl FromSpecImpl<Frame> for usize {
    open spec fn obeys_from_spec() -> bool {
        true
    }

    open spec fn from_spec(v: Frame) -> usize {
        v@ as usize
    }
}

impl From<Frame> for u64 {
    fn from(frame: Frame) -> (r: u64) {
        frame.0.as_u64()
    }
}

impl FromSpecImpl<Frame> for u64 {
    open spec fn obeys_from_spec() -> bool {
        true
    }

    open spec fn from_spec(v: Frame) -> u64 {
        v@ as u64
    }
}

impl From<Frame> for Physical {
    fn from(frame: Frame) -> (r: Physical) {
        frame.0
    }
}

impl FromSpecImpl<Frame> for Physical {
    open spec fn obeys_from_spec() -> bool {
        true
    }

    open spec fn from_spec(v: Frame) -> Physical {
        v.physical_spec()
    }
}

impl Frame {
    /// The physical address of the frame.
    pub closed spec fn physical_spec(self) -> Physical {
        self.0
    }

    /// The physical address of the frame has the frame's address.
    pub proof fn lemma_physical_spec(self)
        ensures
            self.physical_spec()@ == self@,
    {
    }
}

} // verus!
