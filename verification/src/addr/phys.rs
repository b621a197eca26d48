//! Physical addresses.
use vstd::prelude::*;
use vstd::arithmetic::div_mod::{lemma_fundamental_div_mod, lemma_fundamental_div_mod_converse};
use vstd::arithmetic::power2::{pow2, lemma_pow2_pos};
use vstd::bits::{low_bits_mask, lemma_usize_low_bits_mask_is_mod};
use core::ops::{Add, Sub};
use vstd::std_specs::ops::{AddSpecImpl, SubSpecImpl};
use vstd::std_specs::convert::FromSpecImpl;

verus! {

/// The last valid physical address on the `x86_64` architecture (52 bits wide).
pub open spec fn max_physical() -> nat {
    0x000F_FFFF_FFFF_FFFFnat
}

/// `n` is a power of two that a `usize` can hold.
pub open spec fn is_power_of_two(n: usize) -> bool {
    exists|k: nat| k < usize::BITS && n == pow2(k)
}

/// `value` rounded down to a multiple of `align`.
pub open spec fn spec_align_down(value: nat, align: nat) -> nat
    recommends
        align > 0,
{
    (value - value % align) as nat
}

/// `value` rounded up to a multiple of `align`.
pub open spec fn spec_align_up(value: nat, align: nat) -> nat
    recommends
        align > 0,
{
    if value % align == 0 {
        value
    } else {
        spec_align_down(value, align) + align
    }
}

/// Masking with `align - 1` extracts the remainder modulo a power of two, and
/// masking with `!(align - 1)` rounds down to a multiple of it.
pub proof fn lemma_mask_is_align_down(a: usize, align: usize)
    requires
        is_power_of_two(align),
    ensures
        align > 0,
        (a & ((align - 1) as usize)) as nat == (a as nat) % (align as nat),
        (a & !((align - 1) as usize)) as nat == spec_align_down(a as nat, align as nat),
{
    let k = choose|k: nat| k < usize::BITS && align == pow2(k);
    lemma_pow2_pos(k);
    lemma_usize_low_bits_mask_is_mod(a, k);
    assert(low_bits_mask(k) == pow2(k) - 1) by {
        reveal(low_bits_mask);
    }
    let m = (align - 1) as usize;
    let lo = a & m;
    let hi = a & !m;
    assert(hi == a - lo) by (bit_vector)
        requires
            lo == a & m,
            hi == a & !m,
    ;
}

/// Rounding `a + align - 1` down to a multiple of `align` rounds `a` up.
pub proof fn lemma_mask_is_align_up(a: usize, align: usize)
    requires
        is_power_of_two(align),
        a + align - 1 <= usize::MAX,
    ensures
        ((a + align - 1) as usize & !((align - 1) as usize)) as nat == spec_align_up(
            a as nat,
            align as nat,
        ),
{
    lemma_mask_is_align_down(a, align);
    lemma_mask_is_align_down((a + align - 1) as usize, align);
    let al = align as int;
    let an = a as int;
    let s = an + al - 1;
    let q = an / al;
    let r = an % al;
    lemma_fundamental_div_mod(an, al);
    if r == 0 {
        assert(s == q * al + (al - 1));
        lemma_fundamental_div_mod_converse(s, al, q, al - 1);
    } else {
        assert((q + 1) * al == q * al + al) by (nonlinear_arith);
        assert(s == (q + 1) * al + (r - 1));
        lemma_fundamental_div_mod_converse(s, al, q + 1, r - 1);
    }
}

/// A physical address. It is 52 bits wide or less, the maximum supported
/// physical address on the `x86_64` architecture.
#[derive(Debug, Clone, Copy, PartialEq, Eq, Structural, PartialOrd, Ord, Hash)]
pub struct Physical(pub(crate) usize);

impl View for Physical {
    type V = nat;

    closed spec fn view(&self) -> nat {
        self.0 as nat
    }
}

impl Physical {
    /// The physical address `n`.
    pub closed spec fn from_nat(n: nat) -> Physical {
        Physical(n as usize)
    }

    /// `from_nat` builds the address of its argument.
    pub broadcast proof fn lemma_from_nat(n: nat)
        requires
            n <= usize::MAX,
        ensures
            #[trigger] Self::from_nat(n)@ == n,
    {
    }

    /// A physical address is determined by its value.
    pub broadcast proof fn lemma_view_injective(a: Physical, b: Physical)
        ensures
            #![trigger a@, b@]
            a@ == b@ ==> a == b,
    {
    }

    /// The address fits in 52 bits.
    pub open spec fn is_valid(self) -> bool {
        self@ <= max_physical()
    }

    /// Creates a new `Physical` address. The address must be less or equal to the
    /// maximum supported physical address.
    pub fn new(addr: usize) -> (r: Self)
        requires
            addr as nat <= max_physical(),
        ensures
            r@ == addr as nat,
            r.is_valid(),
    {
        match Self::try_new(addr) {
            Some(p) => p,
            None => {
                proof {
                    assert(false);
                }
                Physical(0)
            },
        }
    }

    /// Creates a new `Physical` address without checking that it fits in 52
    /// bits: the caller guarantees it where it matters.
    pub fn new_unchecked(addr: usize) -> (r: Self)
        ensures
            r@ == addr as nat,
    {
        Physical(addr)
    }

    /// Creates a new `Physical` address if the given address fits in 52 bits,
    /// otherwise returns `None`.
    pub fn try_new(addr: usize) -> (r: Option<Self>)
        ensures
            r.is_some() <==> addr as nat <= max_physical(),
            r.is_some() ==> r.unwrap()@ == addr as nat && r.unwrap().is_valid(),
    {
        if (addr as u64) <= 0x000F_FFFF_FFFF_FFFFu64 {
            Some(Physical(addr))
        } else {
            None
        }
    }

    /// Creates a new `Physical` address by truncating the given address to 52 bits.
    pub fn new_truncate(addr: usize) -> (r: Self)
        ensures
            r@ == (addr as nat) % 0x0010_0000_0000_0000nat,
            r.is_valid(),
    {
        let wide = addr as u64;
        let masked = wide & 0x000F_FFFF_FFFF_FFFFu64;
        assert(masked == wide % 0x0010_0000_0000_0000u64) by (bit_vector)
            requires
                masked == wide & 0x000F_FFFF_FFFF_FFFFu64,
        ;
        assert(masked <= 0x000F_FFFF_FFFF_FFFFu64) by (bit_vector)
            requires
                masked == wide & 0x000F_FFFF_FFFF_FFFFu64,
        ;
        assert(masked <= wide) by (bit_vector)
            requires
                masked == wide & 0x000F_FFFF_FFFF_FFFFu64,
        ;
        Self::new(masked as usize)
    }

    /// Aligns the address down to `align`, which must be a power of two.
    /// An aligned address is left unchanged.
    pub fn align_down(self, align: usize) -> (r: Self)
        requires
            is_power_of_two(align),
        ensures
            r@ == spec_align_down(self@, align as nat),
    {
        proof {
            lemma_mask_is_align_down(self.0, align);
        }
        Physical(self.0 & !(align - 1))
    }

    /// Aligns the address up to `align`, which must be a power of two. An aligned
    /// address is left unchanged. The rounded address must still fit in 52 bits,
    /// and the sum `self + align` must not overflow.
    pub fn align_up(self, align: usize) -> (r: Self)
        requires
            is_power_of_two(align),
            self@ + align <= usize::MAX,
            spec_align_up(self@, align as nat) <= max_physical(),
        ensures
            r@ == spec_align_up(self@, align as nat),
            r.is_valid(),
    {
        proof {
            lemma_mask_is_align_down(self.0, align);
            lemma_mask_is_align_up(self.0, align);
        }
        Physical((self.0 + align - 1) & !(align - 1))
    }

    /// Tells whether the address is a multiple of `align`, which must be a power
    /// of two.
    pub fn is_aligned_to(self, align: usize) -> (r: bool)
        requires
            is_power_of_two(align),
        ensures
            r == (self@ % (align as nat) == 0),
    {
        proof {
            lemma_mask_is_align_down(self.0, align);
        }
        self.0 & (align - 1) == 0
    }

    /// Returns the address as a `usize`.
    pub fn as_usize(self) -> (r: usize)
        ensures
            r as nat == self@,
    {
        self.0
    }

    /// Returns the address as a `u64`.
    pub fn as_u64(self) -> (r: u64)
        ensures
            r as nat == self@,
    {
        self.0 as u64
    }

    /// Checks if the address is zero.
    pub fn is_zero(&self) -> (r: bool)
        ensures
            r == (self@ == 0),
    {
        self.0 == 0
    }

    /// The number of bytes from `start` to `end`, or `None` when `end` comes
    /// before `start`.
    pub fn steps_between(start: &Self, end: &Self) -> (r: Option<usize>)
        ensures
            r.is_some() <==> start@ <= end@,
            r.is_some() ==> r.unwrap() == end@ - start@,
    {
        if end.0 >= start.0 {
            Some(end.0 - start.0)
        } else {
            None
        }
    }

    /// Advances the address by `count` bytes, or `None` when the result
    /// overflows or exceeds the maximum physical address.
    pub fn forward_checked(start: Self, count: usize) -> (r: Option<Self>)
        ensures
            r.is_some() <==> start@ + count <= usize::MAX && start@ + count <= max_physical(),
            r.is_some() ==> r.unwrap()@ == start@ + count,
    {
        match start.0.checked_add(count) {
            Some(addr) => Self::try_new(addr),
            None => None,
        }
    }

    /// Moves the address back by `count` bytes, or `None` when the result
    /// underflows or exceeds the maximum physical address.
    pub fn backward_checked(start: Self, count: usize) -> (r: Option<Self>)
        ensures
            r.is_some() <==> count <= start@ && start@ - count <= max_physical(),
            r.is_some() ==> r.unwrap()@ == start@ - count,
    {
        match start.0.checked_sub(count) {
            Some(addr) => Self::try_new(addr),
            None => None,
        }
    }
}

impl From<Physical> for usize {
    fn from(addr: Physical) -> (r: usize) {
        addr.0
    }
}

impl FromSpecImpl<Physical> for usize {
    open spec fn obeys_from_spec() -> bool {
        true
    }

    open spec fn from_spec(v: Physical) -> usize {
        v@ as usize
    }
}

impl From<Physical> for u64 {
    fn from(addr: Physical) -> (r: u64) {
        addr.0 as u64
    }
}

impl FromSpecImpl<Physical> for u64 {
    open spec fn obeys_from_spec() -> bool {
        true
    }

    open spec fn from_spec(v: Physical) -> u64 {
        v@ as u64
    }
}

/// Adding an offset to an address: the result must not exceed the maximum
/// physical address.
impl Add<usize> for Physical {
    type Output = Self;

    fn add(self, rhs: usize) -> (r: Self) {
        Self::new(self.0 + rhs)
    }
}

impl AddSpecImpl<usize> for Physical {
    open spec fn obeys_add_spec() -> bool {
        true
    }

    open spec fn add_req(self, rhs: usize) -> bool {
        self@ + rhs <= max_physical() && self@ + rhs <= usize::MAX
    }

    open spec fn add_spec(self, rhs: usize) -> Physical {
        Physical::from_nat((self@ + rhs) as nat)
    }
}

/// Adding an offset, converted to a `usize`, to an address: the result must
/// not exceed the maximum physical address.
impl Add<u64> for Physical {
    type Output = Self;

    fn add(self, rhs: u64) -> (r: Self) {
        Self::new(self.0 + rhs as usize)
    }
}

impl AddSpecImpl<u64> for Physical {
    open spec fn obeys_add_spec() -> bool {
        true
    }

    open spec fn add_req(self, rhs: u64) -> bool {
        self@ + (rhs as usize) <= max_physical() && self@ + (rhs as usize) <= usize::MAX
    }

    open spec fn add_spec(self, rhs: u64) -> Physical {
        Physical::from_nat((self@ + (rhs as usize)) as nat)
    }
}

/// Subtracting an offset from an address: the result must not underflow, and
/// must be a valid address.
impl Sub<usize> for Physical {
    type Output = Self;

    fn sub(self, rhs: usize) -> (r: Self) {
        Self::new(self.0 - rhs)
    }
}

impl SubSpecImpl<usize> for Physical {
    open spec fn obeys_sub_spec() -> bool {
        true
    }

    open spec fn sub_req(self, rhs: usize) -> bool {
        rhs <= self@ && self@ - rhs <= max_physical()
    }

    open spec fn sub_spec(self, rhs: usize) -> Physical {
        Physical::from_nat((self@ - rhs) as nat)
    }
}

/// Subtracting an offset, converted to a `usize`, from an address: the
/// result must not underflow, and must be a valid address.
impl Sub<u64> for Physical {
    type Output = Self;

    fn sub(self, rhs: u64) -> (r: Self) {
        Self::new(self.0 - rhs as usize)
    }
}

impl SubSpecImpl<u64> for Physical {
    open spec fn obeys_sub_spec() -> bool {
        true
    }

    open spec fn sub_req(self, rhs: u64) -> bool {
        (rhs as usize) <= self@ && self@ - (rhs as usize) <= max_physical()
    }

    open spec fn sub_spec(self, rhs: u64) -> Physical {
        Physical::from_nat((self@ - (rhs as usize)) as nat)
    }
}

/// Rounding down to a multiple of `align` gives the largest multiple not
/// above the value, and rounding up the smallest multiple not below it. A
/// multiple is left unchanged, and rounding twice changes nothing more.
pub proof fn lemma_align_bounds(value: nat, align: nat)
    requires
        align > 0,
    ensures
        spec_align_down(value, align) <= value,
        spec_align_down(value, align) % align == 0,
        value - spec_align_down(value, align) < align,
        value <= spec_align_up(value, align),
        spec_align_up(value, align) % align == 0,
        spec_align_up(value, align) - value < align,
        value % align == 0 ==> spec_align_down(value, align) == value && spec_align_up(value, align)
            == value,
        spec_align_down(spec_align_down(value, align), align) == spec_align_down(value, align),
        spec_align_up(spec_align_up(value, align), align) == spec_align_up(value, align),
{
    let v = value as int;
    let a = align as int;
    lemma_fundamental_div_mod(v, a);
    let q = v / a;
    assert(a * q == q * a) by (nonlinear_arith);
    assert(spec_align_down(value, align) == q * a);
    vstd::arithmetic::div_mod::lemma_mod_multiples_basic(q, a);
    if value % align != 0 {
        assert((q + 1) * a == q * a + a) by (nonlinear_arith);
        vstd::arithmetic::div_mod::lemma_mod_multiples_basic(q + 1, a);
    }
}

/// Moving an address forward by some bytes and back by the same number gives
/// the address back, and the distance between the two is that number.
pub proof fn lemma_forward_backward(start: nat, count: nat)
    requires
        start + count <= max_physical(),
        start + count <= usize::MAX,
    ensures
        (start + count) - count == start,
        count <= start + count,
        (start + count) - count <= max_physical(),
        (start + count) - start == count,
{
}

/// Tells whether `n` is a power of two, as `usize::is_power_of_two` does.
pub fn check_power_of_two(n: usize) -> (r: bool)
    ensures
        r == is_power_of_two(n),
{
    let bits = usize::BITS as usize;
    let mut k: usize = 0;
    while k < bits
        invariant
            bits == usize::BITS,
            k <= bits,
            forall|j: nat| j < k ==> n != pow2(j),
        decreases bits - k,
    {
        proof {
            vstd::bits::lemma_usize_pow2_no_overflow(k as nat);
            vstd::bits::lemma_usize_shl_is_mul(1, k);
        }
        if n == (1usize << k) {
            proof {
                assert(n == pow2(k as nat));
            }
            return true;
        }
        k = k + 1;
    }
    proof {
        if is_power_of_two(n) {
            let j = choose|j: nat| j < usize::BITS && n == pow2(j);
            assert(n != pow2(j));
        }
    }
    false
}

} // verus!
