use silicium::addr::frame::Frame;
use silicium::addr::phys::Physical;
use silicium::addr::virt::Virtual;
use silicium::arch::virt::{Kernel, User};

#[test]
fn physical_try_new_bounds() {
    assert!(Physical::try_new(0x000F_FFFF_FFFF_FFFF).is_some());
    assert!(Physical::try_new(0x0010_0000_0000_0000).is_none());
}

#[test]
fn frame_try_new_alignment() {
    assert!(Frame::try_new(0x1000).is_some());
    assert!(Frame::try_new(0x1001).is_none());
}

#[test]
fn physical_new_truncate_keeps_low_bits() {
    let p = Physical::new_truncate(0xFFF0_0000_0000_1234);
    assert_eq!(p.as_usize(), 0x1234);
    assert_eq!(Physical::new_truncate(0x42).as_u64(), 0x42);
}

#[test]
fn physical_alignment() {
    let p = Physical::new(0x1234);
    assert_eq!(p.align_down(0x1000).as_usize(), 0x1000);
    assert_eq!(p.align_up(0x1000).as_usize(), 0x2000);
    assert_eq!(Physical::new(0x2000).align_up(0x1000).as_usize(), 0x2000);
    assert_eq!(Physical::new(0x2000).align_down(0x1000).as_usize(), 0x2000);
    assert!(Physical::new(0x2000).is_aligned_to(0x1000));
    assert!(!p.is_aligned_to(0x10));
    assert!(p.is_aligned_to(4));
    assert!(Physical::new(0).is_zero());
    assert!(!p.is_zero());
}

#[test]
fn physical_steps_and_offsets() {
    let a = Physical::new(0x1000);
    let b = Physical::new(0x3000);
    assert_eq!(Physical::steps_between(&a, &b), Some(0x2000));
    assert_eq!(Physical::steps_between(&b, &a), None);
    let c = Physical::forward_checked(a, 0x2000).unwrap();
    assert_eq!(c.as_usize(), 0x3000);
    assert_eq!(Physical::backward_checked(c, 0x2000).unwrap().as_usize(), 0x1000);
    assert!(Physical::forward_checked(Physical::new(0x000F_FFFF_FFFF_FFFF), 1).is_none());
    assert!(Physical::backward_checked(a, 0x1001).is_none());
    assert_eq!((a + 0x10usize).as_usize(), 0x1010);
    assert_eq!((a + 0x10u64).as_usize(), 0x1010);
    assert_eq!((a - 0x10usize).as_usize(), 0xFF0);
    assert_eq!((a - 0x10u64).as_usize(), 0xFF0);
    assert_eq!(usize::from(a), 0x1000);
    assert_eq!(u64::from(b), 0x3000);
}

#[test]
fn frame_index_round_trip() {
    let f = Frame::from_index(5);
    assert_eq!(f.index(), 5);
    assert_eq!(f.physical().as_usize(), 0x5000);
    assert_eq!(Frame::new(0x7000).index(), 7);
    assert_eq!(usize::from(Frame::new(0x3000)), 0x3000);
    assert_eq!(Physical::from(Frame::new(0x3000)).as_usize(), 0x3000);
}

#[test]
fn canonical_virtual_addresses() {
    assert!(Virtual::try_new(0x0000_7FFF_FFFF_FFFF).is_some());
    assert!(Virtual::try_new(0x0000_8000_0000_0000).is_none());
    assert!(Virtual::try_new(0xFFFF_7FFF_FFFF_FFFF).is_none());
    assert!(Virtual::try_new(0xFFFF_8000_0000_0000).is_some());
    let v = Virtual::new(0x1234);
    assert!(!v.is_page_aligned());
    assert_eq!(v.page_align_down().as_usize(), 0x1000);
    assert_eq!(v.page_align_up().as_usize(), 0x2000);
    assert!(Virtual::new(0x3000).is_page_aligned());
}

#[test]
fn page_align_up_can_leave_the_canonical_range() {
    let v = Virtual::new(0x0000_7FFF_FFFF_F001);
    let up = v.page_align_up();
    assert_eq!(up.as_usize(), 0x0000_8000_0000_0000);
    assert!(Virtual::try_new(up.as_usize()).is_none());
}

#[test]
fn user_and_kernel_spaces() {
    assert!(silicium::arch::virt::Virtual::<User>::try_new(0x1000).is_some());
    assert!(silicium::arch::virt::Virtual::<User>::try_new(0xFFFF_8000_0000_0000).is_none());
    assert!(silicium::arch::virt::Virtual::<Kernel>::try_new(0xFFFF_8000_0000_0000).is_some());
    assert!(silicium::arch::virt::Virtual::<Kernel>::try_new(0x1000).is_none());
    let u = silicium::arch::virt::Virtual::<User>::new(0x1000);
    let w = silicium::arch::virt::Virtual::<User>::forward_checked(u, 0x10).unwrap();
    assert_eq!(w.as_usize(), 0x1010);
    assert_eq!(silicium::arch::virt::Virtual::<User>::steps_between(&u, &w), Some(0x10));
    assert_eq!(silicium::arch::virt::Virtual::<User>::steps_between(&w, &u), None);
}

#[test]
fn unchecked_constructors_keep_the_address() {
    assert_eq!(Physical::new_unchecked(0x0010_0000_0000_0000).as_usize(), 0x0010_0000_0000_0000);
    assert_eq!(Virtual::new_unchecked(0x0000_8000_0000_0000).as_usize(), 0x0000_8000_0000_0000);
    assert_eq!(Frame::new_unchecked(0x1001).physical().as_usize(), 0x1001);
}
