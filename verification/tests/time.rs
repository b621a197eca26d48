use silicium::time::hertz::{Hertz, Hertz32};
use silicium::time::unit::{
    Millisecond, Millisecond32, Nanosecond, Nanosecond32, Overflow, Second, Second32,
};
use silicium::time::Timespec;

#[test]
fn conform_moves_whole_seconds() {
    let t = Timespec::conform(Second(1), Nanosecond(2_500_000_000));
    assert_eq!(t.seconds, Second(3));
    assert_eq!(t.nano, Nanosecond(500_000_000));
}

#[test]
fn new_keeps_values_and_zero_is_zero() {
    let t = Timespec::new(Second(1), Nanosecond(2_000_000_000));
    assert_eq!(t.nano, Nanosecond(2_000_000_000));
    let z = Timespec::zero();
    assert_eq!(z.seconds, Second(0));
    assert_eq!(z.nano, Nanosecond(0));
}

#[test]
fn add_seconds_and_nanoseconds() {
    let t = Timespec::new(Second(1), Nanosecond(900_000_000));
    let u = t + Second(2);
    assert_eq!(u.seconds, Second(3));
    assert_eq!(u.nano, Nanosecond(900_000_000));
    let v = t + Nanosecond(200_000_000);
    assert_eq!(v.seconds, Second(2));
    assert_eq!(v.nano, Nanosecond(100_000_000));
}

#[test]
fn add_timespec_returns_the_left_operand() {
    let t = Timespec::new(Second(1), Nanosecond(5));
    let u = Timespec::new(Second(2), Nanosecond(7));
    assert_eq!(t + u, t);
}

#[test]
fn add_assign_adds_and_normalizes() {
    let mut t = Timespec::new(Second(1), Nanosecond(600_000_000));
    t.add_assign(Timespec::new(Second(2), Nanosecond(700_000_000)));
    assert_eq!(t.seconds, Second(4));
    assert_eq!(t.nano, Nanosecond(300_000_000));
}

#[test]
fn sub_seconds_then_add_gives_back() {
    let t = Timespec::new(Second(10), Nanosecond(3));
    assert_eq!((t + Second(4)) - Second(4), t);
}

#[test]
fn sub_nanoseconds_borrows_a_second() {
    let t = Timespec::new(Second(5), Nanosecond(100));
    let u = t - Nanosecond(200);
    assert_eq!(u.seconds, Second(4));
    assert_eq!(u.nano, Nanosecond(999_999_900));
    let v = t - Nanosecond(50);
    assert_eq!(v.seconds, Second(5));
    assert_eq!(v.nano, Nanosecond(50));
}

#[test]
fn sub_a_whole_second_of_nanoseconds_borrows_two() {
    let t = Timespec::new(Second(5), Nanosecond(0));
    let u = t - Nanosecond(1_000_000_000);
    assert_eq!(u.seconds, Second(3));
    assert_eq!(u.nano, Nanosecond(0));
}

#[test]
fn sub_timespec() {
    let t = Timespec::new(Second(5), Nanosecond(100));
    let u = Timespec::new(Second(2), Nanosecond(300));
    let d = t - u;
    assert_eq!(d.seconds, Second(2));
    assert_eq!(d.nano, Nanosecond(999_999_800));
}

#[test]
fn unit_arithmetic() {
    assert_eq!(Second(3) + Second(4), Second(7));
    assert_eq!(Second(7) - Second(4), Second(3));
    assert_eq!(Millisecond(3) + Millisecond(4), Millisecond(7));
    assert_eq!(Nanosecond(9) - Nanosecond(4), Nanosecond(5));
    assert_eq!(Second32(3) + Second32(4), Second32(7));
    assert_eq!(Millisecond32(9) - Millisecond32(4), Millisecond32(5));
    assert_eq!(Nanosecond32(3) + Nanosecond32(4), Nanosecond32(7));
    assert_eq!(Second::new(5).0, 5);
}

#[test]
fn conversions_to_coarser_units_truncate() {
    assert_eq!(Second::from(Millisecond(2_999)), Second(2));
    assert_eq!(Second::from(Nanosecond(1_999_999_999)), Second(1));
    assert_eq!(Second32::from(Millisecond32(2_999)), Second32(2));
    assert_eq!(Second32::from(Nanosecond32(1_999_999_999)), Second32(1));
    assert_eq!(Millisecond::try_from(Nanosecond(3_999_999)), Ok(Millisecond(3)));
    assert_eq!(Millisecond32::try_from(Nanosecond32(3_999_999)), Ok(Millisecond32(3)));
}

#[test]
fn conversions_to_finer_units_may_overflow() {
    assert_eq!(Millisecond::from_second(Second(3)), Millisecond(3_000));
    assert_eq!(Millisecond32::from_second(Second32(3)), Millisecond32(3_000));
    assert_eq!(Nanosecond::try_from(Second(3)), Ok(Nanosecond(3_000_000_000)));
    assert_eq!(Nanosecond::try_from(Second(u64::MAX)), Err(Overflow::default()));
    assert_eq!(Nanosecond::try_from(Millisecond(7)), Ok(Nanosecond(7_000_000)));
    assert_eq!(Nanosecond::try_from(Millisecond(u64::MAX)), Err(Overflow::default()));
    assert_eq!(Nanosecond32::try_from(Second32(5)), Err(Overflow::default()));
    assert_eq!(Nanosecond32::try_from(Second32(4)), Ok(Nanosecond32(4_000_000_000)));
    assert!(Nanosecond32::try_from(Second32(5)).is_err());
    assert_eq!(Nanosecond32::try_from(Second32(2)), Ok(Nanosecond32(2_000_000_000)));
    assert_eq!(Nanosecond32::try_from(Millisecond32(5)), Ok(Nanosecond32(5_000_000)));
    assert!(Nanosecond32::try_from(Millisecond32(5_000)).is_err());
}

#[test]
fn round_trips_between_units() {
    let s = Second(12);
    let n = Nanosecond::try_from(s).unwrap();
    assert_eq!(Second::from(n), s);
    let ms = Millisecond::from_second(s);
    assert_eq!(Second::from(ms), s);
    let m = Millisecond(42);
    assert_eq!(Millisecond::try_from(Nanosecond::try_from(m).unwrap()), Ok(m));
}

#[test]
fn frequencies() {
    assert_eq!(Hertz::from(100u32), Hertz(100));
    assert_eq!(Hertz::from(Hertz32(50)), Hertz(50));
    assert_eq!(Hertz::new(7).0, 7);
}
