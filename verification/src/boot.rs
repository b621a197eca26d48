//! The memory map given by the bootloader, and the boot allocator that carves
//! memory out of it before the memory manager exists.
use vstd::prelude::*;
use arrayvec::ArrayVec;
use crate::addr::phys::{
    Physical,
    max_physical,
    is_power_of_two,
    spec_align_up,
    lemma_mask_is_align_down,
    check_power_of_two,
};

verus! {

broadcast use Physical::lemma_from_nat, Physical::lemma_view_injective;

/// The number of entries a memory map can hold.
pub const MMAP_CAPACITY: usize = 32;

/// The kind of a memory region: what it is used for.
#[derive(Debug, Clone, Copy, PartialEq, Eq, Structural)]
pub enum Kind {
    /// Usable memory, available for allocation.
    Usable,
    /// Memory currently used by the kernel.
    Kernel,
    /// Memory reserved by the hardware.
    Reserved,
    /// Memory used by the ACPI tables, that can be reclaimed.
    AcpiReclaimable,
    /// Memory used by the bootloader, that can be reclaimed.
    BootloaderReclaimable,
    /// Defective memory that must not be used.
    BadMemory,
}

impl Kind {
    /// Regular memory is memory available for allocation and not reserved by the
    /// hardware: usable, kernel, ACPI reclaimable and bootloader reclaimable
    /// memory.
    pub fn regular_memory(self) -> (r: bool)
        ensures
            r == (self == Kind::Usable || self == Kind::Kernel || self == Kind::AcpiReclaimable
                || self == Kind::BootloaderReclaimable),
    {
        match self {
            Kind::Usable | Kind::Kernel | Kind::AcpiReclaimable | Kind::BootloaderReclaimable => true,
            _ => false,
        }
    }

    /// Tells whether the memory is used by the kernel.
    pub fn is_kernel(self) -> (r: bool)
        ensures
            r == (self == Kind::Kernel),
    {
        match self {
            Kind::Kernel => true,
            _ => false,
        }
    }

    /// Tells whether the memory is usable.
    pub fn is_usable(self) -> (r: bool)
        ensures
            r == (self == Kind::Usable),
    {
        match self {
            Kind::Usable => true,
            _ => false,
        }
    }
}

/// A memory map entry.
#[derive(Debug, Clone, Copy, PartialEq, Eq, Structural)]
pub struct Entry {
    /// The start address of the memory region.
    pub start: Physical,
    /// The length of the memory region.
    pub length: usize,
    /// The kind of memory region.
    pub kind: Kind,
}

impl Entry {
    /// The end address of the region (excluded) is a valid physical address.
    pub open spec fn has_valid_end(self) -> bool {
        self.start@ + self.length <= max_physical() && self.start@ + self.length <= usize::MAX
    }

    /// Returns the end address of the memory region (excluded). It must be a
    /// valid physical address.
    pub fn end(&self) -> (r: Physical)
        requires
            self.has_valid_end(),
        ensures
            r@ == self.start@ + self.length,
    {
        Physical::new(self.start.as_usize() + self.length)
    }
}

impl Default for Entry {
    fn default() -> (r: Self)
        ensures
            r.start@ == 0,
            r.length == 0,
            r.kind == Kind::Reserved,
    {
        Self { start: Physical::new(0), length: 0, kind: Kind::Reserved }
    }
}

#[verifier::external_type_specification]
#[verifier::external_body]
#[verifier::reject_recursive_types(T)]
pub struct ExArrayVec<T, const CAP: usize>(ArrayVec<T, CAP>);

/// The entries of a memory map, in order.
pub uninterp spec fn map_entries(map: ArrayVec<Entry, 32>) -> Seq<Entry>;

/// `ArrayVec::len`: the number of entries, which never exceeds the capacity.
#[verifier::external_body]
fn entries_len(map: &ArrayVec<Entry, 32>) -> (r: usize)
    ensures
        r == map_entries(*map).len(),
        r <= MMAP_CAPACITY,
{
    map.len()
}

/// Indexing an `ArrayVec` (through its slice): entry `i`, which must exist (the
/// slice panics otherwise).
#[verifier::external_body]
fn entry_at(map: &ArrayVec<Entry, 32>, i: usize) -> (r: Entry)
    requires
        i < map_entries(*map).len(),
    ensures
        r == map_entries(*map)[i as int],
{
    map[i]
}

/// Assigning through the index of an `ArrayVec` (through its mutable slice):
/// replaces entry `i`, which must exist, and leaves the others.
#[verifier::external_body]
fn set_entry(map: &mut ArrayVec<Entry, 32>, i: usize, entry: Entry)
    requires
        i < map_entries(*old(map)).len(),
    ensures
        map_entries(*final(map)) == map_entries(*old(map)).update(i as int, entry),
{
    map[i] = entry;
}

/// `ArrayVec::push`: appends an entry. The map must not be full (the crate
/// panics otherwise).
#[verifier::external_body]
fn push_entry(map: &mut ArrayVec<Entry, 32>, entry: Entry)
    requires
        map_entries(*old(map)).len() < MMAP_CAPACITY,
    ensures
        map_entries(*final(map)) == map_entries(*old(map)).push(entry),
{
    map.push(entry);
}

/// `e` is a kernel region that ends at `addr`.
pub open spec fn kernel_ends_at(e: Entry, addr: nat) -> bool {
    e.kind == Kind::Kernel && e.start@ + e.length == addr
}

/// `j` is the first kernel region of `s` that ends at `addr`.
pub open spec fn is_first_kernel_end(s: Seq<Entry>, addr: nat, j: int) -> bool {
    &&& 0 <= j < s.len()
    &&& kernel_ends_at(s[j], addr)
    &&& forall|k: int| 0 <= k < j ==> !kernel_ends_at(s[k], addr)
}

/// Recording `size` bytes allocated at `start` can be done without panicking:
/// the end of every region looked at is a valid address, and either the kernel
/// region that ends at `start` can grow by `size` bytes, or there is room for a
/// new kernel region.
pub open spec fn record_ok(s: Seq<Entry>, start: Physical, size: nat) -> bool {
    &&& forall|k: int|
        0 <= k < s.len() && (forall|j: int| 0 <= j < k ==> !kernel_ends_at(s[j], start@))
            ==> #[trigger] s[k].has_valid_end()
    &&& if exists|j: int| is_first_kernel_end(s, start@, j) {
        s[choose|j: int| is_first_kernel_end(s, start@, j)].length + size <= usize::MAX
    } else {
        s.len() < MMAP_CAPACITY && size <= usize::MAX
    }
}

/// The memory map after recording `size` bytes allocated at `start`: the first
/// kernel region that ends at `start` grows by `size` bytes, or, when there is
/// none, a kernel region of `size` bytes at `start` is appended.
pub open spec fn recorded(s: Seq<Entry>, start: Physical, size: nat) -> Seq<Entry> {
    if exists|j: int| is_first_kernel_end(s, start@, j) {
        let j = choose|j: int| is_first_kernel_end(s, start@, j);
        s.update(j, Entry { length: (s[j].length + size) as usize, ..s[j] })
    } else {
        s.push(Entry { start, length: size as usize, kind: Kind::Kernel })
    }
}

proof fn lemma_first_kernel_end_unique(s: Seq<Entry>, addr: nat, j1: int, j2: int)
    requires
        is_first_kernel_end(s, addr, j1),
        is_first_kernel_end(s, addr, j2),
    ensures
        j1 == j2,
{
}

/// Records in the memory map that `size` bytes were allocated at `start`, by
/// growing the kernel region that ends at `start` or by adding one.
fn update_memory_map(map: &mut ArrayVec<Entry, 32>, start: Physical, size: usize)
    requires
        record_ok(map_entries(*old(map)), start, size as nat),
    ensures
        map_entries(*final(map)) == recorded(map_entries(*old(map)), start, size as nat),
{
    let ghost s = map_entries(*map);
    let len = entries_len(map);
    let mut index: usize = 0;
    let mut found = false;
    while index < len
        invariant_except_break
            !found,
        invariant
            map_entries(*map) == s,
            len == s.len(),
            index <= len,
            record_ok(s, start, size as nat),
            forall|k: int| 0 <= k < index ==> !kernel_ends_at(s[k], start@),
            found ==> index < len && kernel_ends_at(s[index as int], start@),
        ensures
            found ==> is_first_kernel_end(s, start@, index as int),
            !found ==> index == len,
        decreases len - index,
    {
        let entry = entry_at(map, index);
        assert(s[index as int].has_valid_end());
        if entry.end() == start && entry.kind.is_kernel() {
            found = true;
            break;
        }
        index = index + 1;
    }
    if !found {
        proof {
            assert(!exists|j: int| is_first_kernel_end(s, start@, j));
        }
        push_entry(map, Entry { start, length: 0, kind: Kind::Kernel });
        index = len;
    } else {
        proof {
            let j = choose|j: int| is_first_kernel_end(s, start@, j);
            lemma_first_kernel_end_unique(s, start@, j, index as int);
        }
    }
    let mut entry = entry_at(map, index);
    entry.length = entry.length + size;
    set_entry(map, index, entry);
    proof {
        assert(map_entries(*map) =~= recorded(s, start, size as nat));
    }
}

/// A region can serve an allocation of `need` bytes.
pub open spec fn fits(e: Entry, need: nat) -> bool {
    e.kind == Kind::Usable && e.length >= need
}

/// `i` is the first region of `s` that can serve `need` bytes.
pub open spec fn is_first_fit(s: Seq<Entry>, need: nat, i: int) -> bool {
    &&& 0 <= i < s.len()
    &&& fits(s[i], need)
    &&& forall|k: int| 0 <= k < i ==> !fits(s[k], need)
}

/// The first region of `s` that can serve `need` bytes.
pub open spec fn first_fit(s: Seq<Entry>, need: nat) -> int {
    choose|i: int| is_first_fit(s, need, i)
}

/// The number of bytes to skip from `address` to reach a multiple of `align`.
pub open spec fn align_offset(address: nat, align: nat) -> nat {
    ((align as int - address as int % align as int) % align as int) as nat
}

/// Region `e` once `size` bytes aligned to `align` were taken from its start.
pub open spec fn shrunk(e: Entry, size: nat, align: nat) -> Entry {
    let offset = align_offset(e.start@, align);
    Entry {
        start: Physical::from_nat(e.start@ + offset + size),
        length: (e.length - offset - size) as usize,
        kind: e.kind,
    }
}

/// An allocation of `size` bytes aligned to `align` can be served without
/// panicking: the alignment is a power of two, some usable region holds
/// `size + align` bytes, the first one keeps a valid start address once the
/// allocation is taken from it, and the allocation can be recorded.
pub open spec fn allocation_ok(s: Seq<Entry>, size: nat, align: usize) -> bool {
    &&& is_power_of_two(align)
    &&& size + align <= usize::MAX
    &&& exists|i: int| #[trigger] is_first_fit(s, (size + align) as nat, i)
    &&& {
        let i = first_fit(s, (size + align) as nat);
        let offset = align_offset(s[i].start@, align as nat);
        &&& s[i].start@ + offset + size <= max_physical()
        &&& s[i].start@ + offset + size <= usize::MAX
        &&& record_ok(
            s.update(i, shrunk(s[i], size, align as nat)),
            s[i].start,
            (size + offset) as nat,
        )
    }
}

proof fn lemma_first_fit_unique(s: Seq<Entry>, need: nat, i1: int, i2: int)
    requires
        is_first_fit(s, need, i1),
        is_first_fit(s, need, i2),
    ensures
        i1 == i2,
{
}

/// Finds the first region that can serve `need` bytes.
fn find_first_fit(map: &ArrayVec<Entry, 32>, need: usize) -> (r: Option<usize>)
    ensures
        match r {
            Some(i) => is_first_fit(map_entries(*map), need as nat, i as int),
            None => forall|k: int|
                0 <= k < map_entries(*map).len() ==> !fits(map_entries(*map)[k], need as nat),
        },
{
    let ghost s = map_entries(*map);
    let len = entries_len(map);
    let mut i: usize = 0;
    while i < len
        invariant
            map_entries(*map) == s,
            len == s.len(),
            i <= len,
            forall|k: int| 0 <= k < i ==> !fits(s[k], need as nat),
        decreases len - i,
    {
        let entry = entry_at(map, i);
        if entry.kind.is_usable() && entry.length >= need {
            return Some(i);
        }
        i = i + 1;
    }
    None
}

/// Allocates `size` bytes aligned to `align` (a power of two) from the first
/// usable region holding at least `size + align` bytes: the region then starts
/// after the allocation, and the allocated bytes (with the bytes skipped for
/// the alignment) are recorded as kernel memory. The memory cannot be freed.
/// The request must be one that can be served: `try_allocate_align_physical`
/// checks it first.
pub fn allocate_align_physical(map: &mut ArrayVec<Entry, 32>, size: usize, align: usize) -> (r:
    Physical)
    requires
        allocation_ok(map_entries(*old(map)), size as nat, align),
    ensures
        ({
            let s = map_entries(*old(map));
            let i = first_fit(s, (size + align) as nat);
            let offset = align_offset(s[i].start@, align as nat);
            &&& r@ == s[i].start@ + offset
            &&& map_entries(*final(map)) == recorded(
                s.update(i, shrunk(s[i], size as nat, align as nat)),
                s[i].start,
                (size + offset) as nat,
            )
        }),
{
    let ghost s = map_entries(*map);
    let need = size + align;
    let index = match find_first_fit(map, need) {
        Some(i) => i,
        None => {
            proof {
                let i = choose|i: int| is_first_fit(s, need as nat, i);
                assert(fits(s[i], need as nat));
            }
            return Physical::new(0);
        },
    };
    proof {
        lemma_first_fit_unique(s, need as nat, index as int, first_fit(s, need as nat));
    }
    let region = entry_at(map, index);
    let address = region.start.as_usize();
    proof {
        lemma_mask_is_align_down(address, align);
        let low = address & ((align - 1) as usize);
        lemma_mask_is_align_down((align - low) as usize, align);
    }
    let offset = (align - (address & (align - 1))) & (align - 1);
    let shrunk_region = Entry {
        start: Physical::new(address + offset + size),
        length: region.length - (offset + size),
        kind: region.kind,
    };
    proof {
        let target = shrunk(s[index as int], size as nat, align as nat);
        assert(shrunk_region.start@ == target.start@);
        Physical::lemma_view_injective(shrunk_region.start, target.start);
        assert(shrunk_region == target);
    }
    set_entry(map, index, shrunk_region);
    update_memory_map(map, region.start, size + offset);
    Physical::new(address + offset)
}

/// The allocated address is a multiple of the alignment and the allocation lies
/// within the region it was taken from.
pub proof fn lemma_allocation_aligned(s: Seq<Entry>, size: nat, align: usize)
    requires
        allocation_ok(s, size, align),
    ensures
        ({
            let i = first_fit(s, (size + align) as nat);
            let a = s[i].start@ + align_offset(s[i].start@, align as nat);
            &&& a % (align as nat) == 0
            &&& a == spec_align_up(s[i].start@, align as nat)
            &&& s[i].start@ <= a
            &&& a + size <= s[i].start@ + s[i].length
        }),
{
    let i = first_fit(s, (size + align) as nat);
    lemma_mask_is_align_down(0, align);
    let al = align as int;
    let start = s[i].start@ as int;
    let r = start % al;
    vstd::arithmetic::div_mod::lemma_fundamental_div_mod(start, al);
    if r == 0 {
        vstd::arithmetic::div_mod::lemma_mod_self_0(al);
        assert(align_offset(s[i].start@, align as nat) == 0);
    } else {
        vstd::arithmetic::div_mod::lemma_small_mod((al - r) as nat, al as nat);
        assert(align_offset(s[i].start@, align as nat) == al - r);
        let q = start / al;
        assert(start + (al - r) == (q + 1) * al) by (nonlinear_arith)
            requires
                start == q * al + r,
        ;
        vstd::arithmetic::div_mod::lemma_mod_multiples_basic(q + 1, al);
    }
}

/// Region `e` once its start is moved up to the next page boundary, the bytes
/// skipped being removed from its length. Only usable regions are aligned.
pub open spec fn page_aligned_region(e: Entry) -> Entry {
    if e.kind == Kind::Usable && e.start@ % 4096 != 0 {
        let correction = (4096 - e.start@ % 4096) as nat;
        Entry {
            start: Physical::from_nat(e.start@ + correction),
            length: (e.length - correction) as usize,
            kind: e.kind,
        }
    } else {
        e
    }
}

/// Every usable region that is not page-aligned is long enough to be aligned and
/// stays below the maximum physical address once aligned.
pub open spec fn alignment_ok(s: Seq<Entry>) -> bool {
    forall|k: int|
        0 <= k < s.len() && s[k].kind == Kind::Usable && s[k].start@ % 4096 != 0 ==> {
            let correction = 4096 - s[k].start@ % 4096;
            &&& s[k].length >= correction
            &&& s[k].start@ + correction <= max_physical()
            &&& s[k].start@ + correction <= usize::MAX
        }
}

/// Aligns the start of every usable region to the page size, by moving it up to
/// the next page boundary and shortening the region accordingly. This is what
/// is done to the memory map when the boot allocator is disabled, before the
/// memory manager takes it over.
pub fn align_usable_regions(map: &mut ArrayVec<Entry, 32>)
    requires
        alignment_ok(map_entries(*old(map))),
    ensures
        map_entries(*final(map)) == map_entries(*old(map)).map_values(
            |e: Entry| page_aligned_region(e),
        ),
{
    let ghost s = map_entries(*map);
    let len = entries_len(map);
    let mut i: usize = 0;
    proof {
        crate::addr::frame::lemma_page_size_power_of_two();
    }
    while i < len
        invariant
            len == s.len(),
            i <= len,
            is_power_of_two(4096usize),
            alignment_ok(s),
            map_entries(*map).len() == len,
            forall|k: int| 0 <= k < i ==> map_entries(*map)[k] == page_aligned_region(s[k]),
            forall|k: int| i <= k < len ==> map_entries(*map)[k] == s[k],
        decreases len - i,
    {
        let region = entry_at(map, i);
        if region.kind.is_usable() && !region.start.is_aligned_to(4096) {
            let offset = region.start.as_usize() % 4096;
            let correction = 4096 - offset;
            let aligned = Entry {
                start: Physical::new(region.start.as_usize() + correction),
                length: region.length - correction,
                kind: region.kind,
            };
            proof {
                let target = page_aligned_region(s[i as int]);
                assert(aligned.start@ == target.start@);
                Physical::lemma_view_injective(aligned.start, target.start);
                assert(aligned == target);
            }
            set_entry(map, i, aligned);
        } else {
            proof {
                assert(region == page_aligned_region(s[i as int]));
            }
        }
        i = i + 1;
    }
    assert(map_entries(*map) =~= s.map_values(|e: Entry| page_aligned_region(e)));
}

/// An allocation is taken from the first usable region long enough for it:
/// the region it comes from is usable and holds at least `size + align` bytes,
/// every region before it is either not usable or shorter than that, and the
/// allocated bytes lie within it.
pub proof fn lemma_allocation_from_first_fitting_region(s: Seq<Entry>, size: nat, align: usize)
    requires
        allocation_ok(s, size, align),
    ensures
        ({
            let i = first_fit(s, (size + align) as nat);
            let a = s[i].start@ + align_offset(s[i].start@, align as nat);
            &&& 0 <= i < s.len()
            &&& s[i].kind == Kind::Usable
            &&& s[i].length >= size + align
            &&& forall|k: int|
                0 <= k < i ==> s[k].kind != Kind::Usable || s[k].length < size + align
            &&& s[i].start@ <= a
            &&& a + size <= s[i].start@ + s[i].length
        }),
{
    lemma_allocation_aligned(s, size, align);
    let i = first_fit(s, (size + align) as nat);
    assert(is_first_fit(s, (size + align) as nat, i));
}

/// Once aligned, a usable region starts on a page boundary and still ends
/// where it ended; other regions are left as they are.
pub proof fn lemma_aligned_region(e: Entry)
    requires
        e.kind == Kind::Usable && e.start@ % 4096 != 0 ==> {
            let correction = 4096 - e.start@ % 4096;
            &&& e.length >= correction
            &&& e.start@ + correction <= max_physical()
            &&& e.start@ + correction <= usize::MAX
        },
    ensures
        page_aligned_region(e).kind == e.kind,
        e.kind == Kind::Usable ==> page_aligned_region(e).start@ % 4096 == 0,
        page_aligned_region(e).start@ + page_aligned_region(e).length == e.start@ + e.length,
        e.kind != Kind::Usable ==> page_aligned_region(e) == e,
{
    if e.kind == Kind::Usable && e.start@ % 4096 != 0 {
        let start = e.start@ as int;
        vstd::arithmetic::div_mod::lemma_fundamental_div_mod(start, 4096);
        let q = start / 4096;
        assert(start + (4096 - start % 4096) == (q + 1) * 4096);
        vstd::arithmetic::div_mod::lemma_mod_multiples_basic(q + 1, 4096);
    }
}

/// The region an allocation is taken from is split without loss: the bytes
/// skipped for the alignment and the allocated bytes are followed by what is
/// left of the region, which still ends where the region ended.
pub proof fn lemma_allocation_splits_region(s: Seq<Entry>, size: nat, align: usize)
    requires
        allocation_ok(s, size, align),
    ensures
        ({
            let i = first_fit(s, (size + align) as nat);
            let offset = align_offset(s[i].start@, align as nat);
            let rest = shrunk(s[i], size, align as nat);
            &&& offset < align
            &&& rest.start@ == s[i].start@ + offset + size
            &&& rest.start@ + rest.length == s[i].start@ + s[i].length
            &&& rest.kind == Kind::Usable
        }),
{
    let i = first_fit(s, (size + align) as nat);
    lemma_allocation_aligned(s, size, align);
    lemma_mask_is_align_down(0, align);
}

/// Why the boot allocator cannot serve an allocation.
#[derive(Debug, Clone, Copy, PartialEq, Eq, Structural)]
pub enum AllocationError {
    /// The alignment is not a power of two.
    NotPowerOfTwo,
    /// The size plus the alignment overflows.
    TooLarge,
    /// No usable region holds the size plus the alignment.
    NoFreeRegion,
    /// An address or a length would leave its range, or the memory map is
    /// full and the allocation cannot be recorded.
    Unrepresentable,
}

/// Why an allocation of `size` bytes aligned to `align` cannot be served from
/// the memory map `s`, if it cannot.
pub open spec fn allocation_error(s: Seq<Entry>, size: nat, align: usize) -> Option<AllocationError> {
    if !is_power_of_two(align) {
        Some(AllocationError::NotPowerOfTwo)
    } else if size + align > usize::MAX {
        Some(AllocationError::TooLarge)
    } else if !exists|i: int| #[trigger] is_first_fit(s, (size + align) as nat, i) {
        Some(AllocationError::NoFreeRegion)
    } else if !allocation_ok(s, size, align) {
        Some(AllocationError::Unrepresentable)
    } else {
        None
    }
}

/// Tells whether `amount` bytes allocated at `start` can be recorded in the
/// memory map once its entry `i` is replaced by `replaced`.
fn can_record(
    map: &ArrayVec<Entry, 32>,
    i: usize,
    replaced: Entry,
    start: Physical,
    amount: usize,
) -> (r: bool)
    requires
        i < map_entries(*map).len(),
    ensures
        r == record_ok(map_entries(*map).update(i as int, replaced), start, amount as nat),
{
    let ghost s = map_entries(*map).update(i as int, replaced);
    let len = entries_len(map);
    let mut k: usize = 0;
    while k < len
        invariant
            s == map_entries(*map).update(i as int, replaced),
            len == s.len(),
            len == map_entries(*map).len(),
            i < len,
            k <= len,
            forall|j: int| 0 <= j < k ==> !kernel_ends_at(s[j], start@) && s[j].has_valid_end(),
        decreases len - k,
    {
        let e = if k == i {
            replaced
        } else {
            entry_at(map, k)
        };
        assert(e == s[k as int]);
        let end = match e.start.as_usize().checked_add(e.length) {
            Some(end) => end,
            None => {
                assert(!s[k as int].has_valid_end());
                return false;
            },
        };
        if (end as u64) > 0x000F_FFFF_FFFF_FFFFu64 {
            assert(!s[k as int].has_valid_end());
            return false;
        }
        if end == start.as_usize() && e.kind.is_kernel() {
            proof {
                assert(is_first_kernel_end(s, start@, k as int));
                let j = choose|j: int| is_first_kernel_end(s, start@, j);
                lemma_first_kernel_end_unique(s, start@, j, k as int);
                assert forall|q: int|
                    0 <= q < s.len() && (forall|j: int| 0 <= j < q ==> !kernel_ends_at(
                        s[j],
                        start@,
                    )) implies #[trigger] s[q].has_valid_end() by {
                    if q > k {
                        assert(kernel_ends_at(s[k as int], start@));
                    }
                }
            }
            return e.length.checked_add(amount).is_some();
        }
        k = k + 1;
    }
    proof {
        assert(!exists|j: int| is_first_kernel_end(s, start@, j));
    }
    len < MMAP_CAPACITY
}

/// Allocates `size` bytes aligned to `align` as `allocate_align_physical`
/// does, when the request can be served; otherwise returns why it cannot, the
/// memory map being left unchanged. This is where the boot allocator panics:
/// on an alignment that is not a power of two, and when no region is large
/// enough.
pub fn try_allocate_align_physical(map: &mut ArrayVec<Entry, 32>, size: usize, align: usize) -> (r:
    Result<Physical, AllocationError>)
    ensures
        r is Ok <==> allocation_error(map_entries(*old(map)), size as nat, align) is None,
        r matches Err(e) ==> allocation_error(map_entries(*old(map)), size as nat, align) == Some(e)
            && map_entries(*final(map)) == map_entries(*old(map)),
        r matches Ok(p) ==> ({
            let s = map_entries(*old(map));
            let i = first_fit(s, (size + align) as nat);
            let offset = align_offset(s[i].start@, align as nat);
            &&& p@ == s[i].start@ + offset
            &&& map_entries(*final(map)) == recorded(
                s.update(i, shrunk(s[i], size as nat, align as nat)),
                s[i].start,
                (size + offset) as nat,
            )
        }),
{
    let ghost s = map_entries(*map);
    if !check_power_of_two(align) {
        return Err(AllocationError::NotPowerOfTwo);
    }
    let need = match size.checked_add(align) {
        Some(n) => n,
        None => {
            return Err(AllocationError::TooLarge);
        },
    };
    let index = match find_first_fit(map, need) {
        Some(i) => i,
        None => {
            proof {
                if exists|i: int| #[trigger] is_first_fit(s, need as nat, i) {
                    let i = choose|i: int| is_first_fit(s, need as nat, i);
                    assert(fits(s[i], need as nat));
                }
            }
            return Err(AllocationError::NoFreeRegion);
        },
    };
    proof {
        lemma_first_fit_unique(s, need as nat, index as int, first_fit(s, need as nat));
    }
    let region = entry_at(map, index);
    let address = region.start.as_usize();
    proof {
        lemma_mask_is_align_down(address, align);
        let low = address & ((align - 1) as usize);
        lemma_mask_is_align_down((align - low) as usize, align);
    }
    let offset = (align - (address & (align - 1))) & (align - 1);
    let end = match address.checked_add(offset) {
        Some(a) => match a.checked_add(size) {
            Some(e) => e,
            None => {
                return Err(AllocationError::Unrepresentable);
            },
        },
        None => {
            return Err(AllocationError::Unrepresentable);
        },
    };
    if (end as u64) > 0x000F_FFFF_FFFF_FFFFu64 {
        return Err(AllocationError::Unrepresentable);
    }
    let shrunk_region = Entry {
        start: Physical::new(end),
        length: region.length - (offset + size),
        kind: region.kind,
    };
    proof {
        let target = shrunk(s[index as int], size as nat, align as nat);
        assert(shrunk_region.start@ == target.start@);
        Physical::lemma_view_injective(shrunk_region.start, target.start);
        assert(shrunk_region == target);
    }
    if !can_record(map, index, shrunk_region, region.start, size + offset) {
        return Err(AllocationError::Unrepresentable);
    }
    Ok(allocate_align_physical(map, size, align))
}

/// Tells whether every usable region can be aligned to the page size as
/// `align_usable_regions` does: a usable region too short to be aligned, or
/// one that would start beyond the physical addresses, cannot.
pub fn can_align_usable_regions(map: &ArrayVec<Entry, 32>) -> (r: bool)
    ensures
        r == alignment_ok(map_entries(*map)),
{
    let ghost s = map_entries(*map);
    let len = entries_len(map);
    let mut k: usize = 0;
    while k < len
        invariant
            s == map_entries(*map),
            len == s.len(),
            k <= len,
            forall|j: int|
                0 <= j < k && s[j].kind == Kind::Usable && s[j].start@ % 4096 != 0 ==> {
                    let correction = 4096 - s[j].start@ % 4096;
                    &&& s[j].length >= correction
                    &&& s[j].start@ + correction <= max_physical()
                    &&& s[j].start@ + correction <= usize::MAX
                },
        decreases len - k,
    {
        let e = entry_at(map, k);
        let start = e.start.as_usize();
        if e.kind.is_usable() && start % 4096 != 0 {
            let correction = 4096 - start % 4096;
            if e.length < correction {
                return false;
            }
            match start.checked_add(correction) {
                Some(aligned) => {
                    if (aligned as u64) > 0x000F_FFFF_FFFF_FFFFu64 {
                        return false;
                    }
                },
                None => {
                    return false;
                },
            }
        }
        k = k + 1;
    }
    true
}

} // verus!
