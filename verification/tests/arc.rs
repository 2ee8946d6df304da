use mio_serial::from_raw_arc::{overlapped2arc, Arena, FromRawArc};

#[test]
fn block_lives_until_the_last_reference_is_dropped() {
    let mut arena: Arena<String> = Arena::new();
    let a = FromRawArc::new(&mut arena, 0x1000, "port".to_string());
    assert_eq!(arena.count(0x1000), 1);
    let b = a.clone(&mut arena);
    assert_eq!(arena.count(0x1000), 2);
    assert_eq!(b.as_raw(), 0x1000);
    assert_eq!(a.deref(&arena), "port");
    assert_eq!(a.drop(&mut arena), None);
    assert!(arena.contains(0x1000));
    assert_eq!(b.deref(&arena), "port");
    assert_eq!(b.drop(&mut arena), Some("port".to_string()));
    assert!(!arena.contains(0x1000));
    assert_eq!(arena.count(0x1000), 0);
}

#[test]
fn a_drop_undoes_a_clone() {
    let mut arena: Arena<u32> = Arena::new();
    let a = FromRawArc::new(&mut arena, 8, 5);
    let other = FromRawArc::new(&mut arena, 16, 6);
    let b = a.clone(&mut arena);
    assert_eq!(b.drop(&mut arena), None);
    assert_eq!(arena.count(8), 1);
    assert_eq!(*a.deref(&arena), 5);
    assert_eq!(arena.count(16), 1);
    assert_eq!(*other.deref(&arena), 6);
}

#[test]
fn a_lent_reference_is_taken_up_from_an_address_in_the_block() {
    let mut arena: Arena<u32> = Arena::new();
    let a = FromRawArc::new(&mut arena, 0x2000, 9);
    let _lent = a.clone(&mut arena);
    assert_eq!(a.drop(&mut arena), None);
    assert!(arena.contains(0x2000));
    let taken: FromRawArc<u32> = overlapped2arc(0x2000 + 40, 40, 96);
    assert_eq!(taken.as_raw(), 0x2000);
    assert_eq!(arena.count(0x2000), 1);
    assert_eq!(taken.drop(&mut arena), Some(9));
    assert!(!arena.contains(0x2000));
}

#[test]
fn a_reference_from_a_raw_address_leaves_the_count_alone() {
    let mut arena: Arena<u32> = Arena::new();
    let a = FromRawArc::new(&mut arena, 64, 1);
    let b: FromRawArc<u32> = FromRawArc::from_raw(64);
    assert_eq!(arena.count(64), 1);
    *b.deref_mut(&mut arena) = 2;
    assert_eq!(*a.deref(&arena), 2);
    assert_eq!(arena.count(64), 1);
}
