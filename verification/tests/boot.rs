use arrayvec::ArrayVec;
use silicium::addr::phys::Physical;
use silicium::boot::{
    align_usable_regions, allocate_align_physical, can_align_usable_regions,
    try_allocate_align_physical, AllocationError, Entry, Kind,
};

fn region(start: usize, length: usize, kind: Kind) -> Entry {
    Entry { start: Physical::new(start), length, kind }
}

#[test]
fn kinds() {
    assert!(Kind::Usable.regular_memory());
    assert!(Kind::BootloaderReclaimable.regular_memory());
    assert!(!Kind::Reserved.regular_memory());
    assert!(!Kind::BadMemory.regular_memory());
    assert!(Kind::Kernel.is_kernel());
    assert!(Kind::Usable.is_usable());
    let d = Entry::default();
    assert_eq!(d.length, 0);
    assert_eq!(d.kind, Kind::Reserved);
    assert_eq!(region(0x1000, 0x2000, Kind::Usable).end().as_usize(), 0x3000);
}

#[test]
fn allocation_takes_from_the_first_fitting_region() {
    let mut map: ArrayVec<Entry, 32> = ArrayVec::new();
    map.push(region(0x0, 0x100, Kind::Usable));
    map.push(region(0x1000, 0x1000, Kind::Reserved));
    map.push(region(0x10010, 0x10000, Kind::Usable));
    let a = allocate_align_physical(&mut map, 0x100, 0x1000);
    assert_eq!(a.as_usize(), 0x11000);
    assert_eq!(map[2].start.as_usize(), 0x11100);
    assert_eq!(map[2].length, 0x10000 - 0xFF0 - 0x100);
    assert_eq!(map.len(), 4);
    assert_eq!(map[3].start.as_usize(), 0x10010);
    assert_eq!(map[3].length, 0x100 + 0xFF0);
    assert_eq!(map[3].kind, Kind::Kernel);
}

#[test]
fn consecutive_allocations_grow_the_kernel_region() {
    let mut map: ArrayVec<Entry, 32> = ArrayVec::new();
    map.push(region(0x10000, 0x10000, Kind::Usable));
    let a = allocate_align_physical(&mut map, 0x1000, 0x1000);
    let b = allocate_align_physical(&mut map, 0x1000, 0x1000);
    assert_eq!(a.as_usize(), 0x10000);
    assert_eq!(b.as_usize(), 0x11000);
    assert_eq!(map.len(), 2);
    assert_eq!(map[1].start.as_usize(), 0x10000);
    assert_eq!(map[1].length, 0x2000);
    assert_eq!(map[0].start.as_usize(), 0x12000);
    assert_eq!(map[0].length, 0xE000);
}

#[test]
fn allocated_addresses_are_aligned() {
    let mut map: ArrayVec<Entry, 32> = ArrayVec::new();
    map.push(region(0x1234, 0x100000, Kind::Usable));
    for align in [8usize, 64, 4096, 0x10000] {
        let a = allocate_align_physical(&mut map, 10, align);
        assert_eq!(a.as_usize() % align, 0);
    }
}

#[test]
fn usable_regions_are_moved_up_to_page_boundaries() {
    let mut map: ArrayVec<Entry, 32> = ArrayVec::new();
    map.push(region(0x1010, 0x3000, Kind::Usable));
    map.push(region(0x5010, 0x3000, Kind::Reserved));
    map.push(region(0x9000, 0x1000, Kind::Usable));
    align_usable_regions(&mut map);
    assert_eq!(map[0].start.as_usize(), 0x2000);
    assert_eq!(map[0].length, 0x3000 - 0xFF0);
    assert_eq!(map[0].end().as_usize(), 0x4010);
    assert_eq!(map[1].start.as_usize(), 0x5010);
    assert_eq!(map[2].start.as_usize(), 0x9000);
    assert_eq!(map[2].length, 0x1000);
}

#[test]
fn checked_allocation_errors() {
    let mut map: ArrayVec<Entry, 32> = ArrayVec::new();
    map.push(region(0x10000, 0x1000, Kind::Usable));
    assert_eq!(try_allocate_align_physical(&mut map, 0x10, 3), Err(AllocationError::NotPowerOfTwo));
    assert_eq!(try_allocate_align_physical(&mut map, 0x10, 0), Err(AllocationError::NotPowerOfTwo));
    assert_eq!(
        try_allocate_align_physical(&mut map, usize::MAX, 2),
        Err(AllocationError::TooLarge)
    );
    assert_eq!(
        try_allocate_align_physical(&mut map, 0x1000, 0x10),
        Err(AllocationError::NoFreeRegion)
    );
    assert_eq!(map.len(), 1);
    assert_eq!(map[0].length, 0x1000);
    let a = try_allocate_align_physical(&mut map, 0x100, 0x10).unwrap();
    assert_eq!(a.as_usize(), 0x10000);
    assert_eq!(map.len(), 2);
}

#[test]
fn checked_allocation_with_a_full_map() {
    let mut map: ArrayVec<Entry, 32> = ArrayVec::new();
    map.push(region(0x10000, 0x10000, Kind::Usable));
    for i in 1..32 {
        map.push(region(0x100000 * i, 0x1000, Kind::Reserved));
    }
    assert_eq!(
        try_allocate_align_physical(&mut map, 0x100, 0x10),
        Err(AllocationError::Unrepresentable)
    );
    assert_eq!(map[0].start.as_usize(), 0x10000);
}

#[test]
fn alignment_checks() {
    let mut map: ArrayVec<Entry, 32> = ArrayVec::new();
    map.push(region(0x1010, 0x10, Kind::Usable));
    assert!(!can_align_usable_regions(&map));
    map[0].length = 0x2000;
    assert!(can_align_usable_regions(&map));
}

#[test]
fn direct_mapping() {
    let v = silicium::arch::physical::translate(Physical::new(0x1234));
    assert_eq!(v.as_usize(), 0xFFFF_8000_0000_1234);
}
