//! Virtual addresses that belong either to the user space or to the kernel space.
use vstd::prelude::*;
use core::marker::PhantomData;
use crate::addr::phys::{spec_align_up, lemma_mask_is_align_up};
use crate::addr::frame::lemma_page_size_power_of_two;

verus! {

/// The type of a virtual address: a user-space or a kernel-space address.
pub trait Type: Copy {

}

/// A user-space virtual address marker.
#[derive(Clone, Copy, PartialEq, Eq, Structural)]
pub struct User;

impl Type for User {

}

/// A kernel-space virtual address marker.
#[derive(Clone, Copy, PartialEq, Eq, Structural)]
pub struct Kernel;

impl Type for Kernel {

}

/// The first user virtual address.
pub open spec fn user_start() -> nat {
    0x0000_0000_0000_0000nat
}

/// The last user virtual address.
pub open spec fn user_end() -> nat {
    0x0000_7FFF_FFFF_FFFFnat
}

/// The first kernel virtual address.
pub open spec fn kernel_start() -> nat {
    0xFFFF_8000_0000_0000nat
}

/// The last kernel virtual address.
pub open spec fn kernel_end() -> nat {
    0xFFFF_FFFF_FFFF_FFFFnat
}

/// A virtual address of the user space or of the kernel space, depending on `T`.
pub struct Virtual<T>(usize, PhantomData<T>);

impl<T> Clone for Virtual<T> {
    fn clone(&self) -> (r: Self)
        ensures
            r == *self,
    {
        Virtual(self.0, PhantomData)
    }
}

impl<T> Copy for Virtual<T> {

}

impl<T> View for Virtual<T> {
    type V = nat;

    closed spec fn view(&self) -> nat {
        self.0 as nat
    }
}

impl<T: Type> Virtual<T> {
    /// Returns the address as a `usize`.
    pub fn as_usize(&self) -> (r: usize)
        ensures
            r as nat == self@,
    {
        self.0
    }

    /// Returns the address as a `u64`.
    pub fn as_u64(&self) -> (r: u64)
        ensures
            r as nat == self@,
    {
        self.0 as u64
    }

    /// Checks if the address is zero.
    pub fn is_zero(&self) -> (r: bool)
        ensures
            r == (self@ == 0),
    {
        self.0 == 0
    }

    /// The number of steps between two addresses: their difference, or `None`
    /// when `end` comes before `start`.
    pub fn steps_between(start: &Self, end: &Self) -> (r: Option<usize>)
        ensures
            r.is_some() <==> start@ <= end@,
            r.is_some() ==> r.unwrap() == end@ - start@,
    {
        if end.0 >= start.0 {
            Some(end.0 - start.0)
        } else {
            None
        }
    }
}

impl Virtual<User> {
    /// Creates a new user virtual address. The address must lie in the user
    /// address space.
    pub fn new(addr: usize) -> (r: Self)
        requires
            addr as nat <= user_end(),
        ensures
            r@ == addr as nat,
    {
        match Self::try_new(addr) {
            None => {
                proof {
                    assert(false);
                }
                Virtual(0, PhantomData)
            },
            Some(v) => v,
        }
    }

    /// Creates a new user virtual address, or returns `None` if the address is
    /// not in the user address space.
    pub fn try_new(addr: usize) -> (r: Option<Self>)
        ensures
            r.is_some() <==> addr as nat <= user_end(),
            r.is_some() ==> r.unwrap()@ == addr as nat,
    {
        if (addr as u64) <= 0x0000_7FFF_FFFF_FFFFu64 {
            Some(Virtual(addr, PhantomData))
        } else {
            None
        }
    }

    /// Advances the address by `count` bytes, or returns `None` if the result
    /// is not in the user address space. The sum must not overflow.
    pub fn forward_checked(start: Self, count: usize) -> (r: Option<Self>)
        requires
            start@ + count <= usize::MAX,
        ensures
            r.is_some() <==> start@ + count <= user_end(),
            r.is_some() ==> r.unwrap()@ == start@ + count,
    {
        Self::try_new(start.0 + count)
    }

    /// Retreats the address by `count` bytes, or returns `None` if the result
    /// is not in the user address space. The difference must not underflow.
    pub fn backward_checked(start: Self, count: usize) -> (r: Option<Self>)
        requires
            count <= start@,
        ensures
            r.is_some() <==> start@ - count <= user_end(),
            r.is_some() ==> r.unwrap()@ == start@ - count,
    {
        Self::try_new(start.0 - count)
    }
}

impl Virtual<Kernel> {
    /// Creates a new kernel virtual address. The address must lie in the kernel
    /// address space.
    pub fn new(addr: usize) -> (r: Self)
        requires
            addr as nat >= kernel_start(),
        ensures
            r@ == addr as nat,
    {
        match Self::try_new(addr) {
            None => {
                proof {
                    assert(false);
                }
                Virtual(0, PhantomData)
            },
            Some(v) => v,
        }
    }

    /// Creates a new kernel virtual address, or returns `None` if the address
    /// is not in the kernel address space.
    pub fn try_new(addr: usize) -> (r: Option<Self>)
        ensures
            r.is_some() <==> addr as nat >= kernel_start(),
            r.is_some() ==> r.unwrap()@ == addr as nat,
    {
        if (addr as u64) >= 0xFFFF_8000_0000_0000u64 {
            Some(Virtual(addr, PhantomData))
        } else {
            None
        }
    }

    /// Aligns the address up to the nearest page boundary. A page-aligned address
    /// is returned as is. The sum `self + 4096` must not overflow and the result
    /// must stay in the kernel address space.
    pub fn page_align_up(&self) -> (r: Self)
        requires
            self@ + 4096 <= usize::MAX,
            spec_align_up(self@, 4096) >= kernel_start(),
        ensures
            r@ == spec_align_up(self@, 4096),
    {
        proof {
            lemma_page_size_power_of_two();
            lemma_mask_is_align_up(self.0, 4096);
        }
        Self::new((self.0 + 4096 - 1) & !(4096 - 1))
    }

    /// Advances the address by `count` bytes. Returns `None` if the sum
    /// overflows or leaves the kernel address space.
    pub fn forward_checked(start: Self, count: usize) -> (r: Option<Self>)
        ensures
            r.is_some() <==> (start@ + count <= usize::MAX && start@ + count >= kernel_start()),
            r.is_some() ==> r.unwrap()@ == start@ + count,
    {
        match start.0.checked_add(count) {
            Some(addr) => Self::try_new(addr),
            None => None,
        }
    }

    /// Retreats the address by `count` bytes. Returns `None` if the difference
    /// underflows or leaves the kernel address space.
    pub fn backward_checked(start: Self, count: usize) -> (r: Option<Self>)
        ensures
            r.is_some() <==> (count <= start@ && start@ - count >= kernel_start()),
            r.is_some() ==> r.unwrap()@ == start@ - count,
    {
        match start.0.checked_sub(count) {
            Some(addr) => Self::try_new(addr),
            None => None,
        }
    }
}

} // verus!
