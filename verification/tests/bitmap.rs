use silicium::bitmap::Bitmap;

#[test]
fn zeroes_and_ones() {
    let z = Bitmap::<2>::zeroes();
    let o = Bitmap::<2>::ones();
    assert_eq!(z.count(), 128);
    assert_eq!(z.capacity(), 16);
    for i in 0..128 {
        assert!(!z.get(i));
        assert!(o.get(i));
    }
}

#[test]
fn set_clear_toggle_get() {
    let mut b = Bitmap::<2>::zeroes();
    b.set(70);
    assert!(b.get(70));
    assert!(!b.get(69));
    assert!(!b.get(6));
    b.clear(70);
    assert!(!b.get(70));
    b.toggle(3);
    assert!(b.get(3));
    b.toggle(3);
    assert!(!b.get(3));
}

#[test]
fn toggle_twice_restores_every_bit() {
    let mut b = Bitmap::<1>::zeroes();
    b.set(5);
    b.set(63);
    let before: Vec<bool> = (0..64).map(|i| b.get(i)).collect();
    b.toggle(5);
    b.toggle(5);
    b.toggle(10);
    b.toggle(10);
    let after: Vec<bool> = (0..64).map(|i| b.get(i)).collect();
    assert_eq!(before, after);
}

#[test]
fn first_zero_hands_out_increasing_indices() {
    let mut b = Bitmap::<1>::zeroes();
    assert_eq!(b.get_first_zero(), Some(0));
    assert_eq!(b.get_first_zero(), Some(1));
    assert_eq!(b.get_first_zero(), Some(2));
    assert!(b.get(0) && b.get(1) && b.get(2));
    b.clear(1);
    assert_eq!(b.get_first_zero(), Some(1));
}

#[test]
fn first_zero_crosses_words() {
    let mut b = Bitmap::<2>::zeroes();
    for i in 0..64 {
        b.set(i);
    }
    assert_eq!(b.get_first_zero(), Some(64));
}

#[test]
fn first_one_clears_the_bit() {
    let mut b = Bitmap::<2>::zeroes();
    assert_eq!(b.get_first_one(), None);
    b.set(100);
    b.set(7);
    assert_eq!(b.get_first_one(), Some(7));
    assert!(!b.get(7));
    assert_eq!(b.get_first_one(), Some(100));
    assert_eq!(b.get_first_one(), None);
}

#[test]
fn exhausted_pool_gives_none_and_stays_full() {
    let mut b = Bitmap::<1>::ones();
    assert_eq!(b.get_first_zero(), None);
    assert_eq!(b.get_next_zero(17), None);
    for i in 0..64 {
        assert!(b.get(i));
    }
}

#[test]
fn next_zero_starts_at_start_and_wraps_around() {
    let mut b = Bitmap::<2>::zeroes();
    assert_eq!(b.get_next_zero(10), Some(10));
    assert_eq!(b.get_next_zero(10), Some(11));
    for i in 12..128 {
        b.set(i);
    }
    assert_eq!(b.get_next_zero(120), Some(0));
    assert!(b.get(0));
}

#[test]
fn next_one_wraps_around() {
    let mut b = Bitmap::<2>::zeroes();
    b.set(3);
    b.set(90);
    assert_eq!(b.get_next_one(91), Some(3));
    assert_eq!(b.get_next_one(91), Some(90));
    assert_eq!(b.get_next_one(0), None);
}

#[test]
fn next_zero_within_the_start_word() {
    let mut b = Bitmap::<1>::zeroes();
    for i in 0..40 {
        b.set(i);
    }
    assert_eq!(b.get_next_zero(5), Some(40));
}

#[test]
fn identifiers_are_unique_until_released() {
    let mut b = Bitmap::<1>::zeroes();
    let mut ids = Vec::new();
    for _ in 0..64 {
        ids.push(b.get_next_zero(0).unwrap());
    }
    let mut sorted = ids.clone();
    sorted.sort();
    sorted.dedup();
    assert_eq!(sorted.len(), 64);
    assert_eq!(b.get_next_zero(0), None);
}

#[test]
fn taking_an_identifier_uses_exactly_one() {
    let mut b = Bitmap::<2>::zeroes();
    b.set(3);
    b.set(77);
    let free = |b: &Bitmap<2>| (0..128).filter(|i| !b.get(*i)).count();
    let before = free(&b);
    assert_eq!(b.get_next_zero(3), Some(4));
    assert_eq!(free(&b) + 1, before);
    assert_eq!(b.get_next_one(0), Some(3));
    assert_eq!(free(&b), before);
}
