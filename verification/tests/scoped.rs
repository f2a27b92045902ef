use scoped_reference::ScopedBorrow;
use scoped_reference::ScopedReference;

struct StaticBorrow(ScopedBorrow<i32>);

#[test]
fn test_borrow_mut() {
    let mut scoped_ref = ScopedReference::new_mut(10);

    let mut mut_ref_to_x = scoped_ref.borrow_mut();
    mut_ref_to_x.set(9);

    scoped_ref.release_borrow_mut(mut_ref_to_x);

    let static_borrow = StaticBorrow(scoped_ref.borrow());
    assert_eq!(*static_borrow.0.get(), 9);

    scoped_ref.release_borrow(static_borrow.0);
    scoped_ref.into_inner();
}

#[test]
fn new_starts_free() {
    let owner = ScopedReference::new(41_u64);
    assert_eq!(owner.outstanding_count(), 0);
    assert!(!owner.has_outstanding_borrows());
    assert!(owner.can_borrow());
    assert!(owner.can_borrow_mut());
    assert_eq!(owner.into_inner(), 41);
}

#[test]
fn new_mut_starts_free() {
    let owner = ScopedReference::new_mut(-7_i64);
    assert_eq!(owner.outstanding_count(), 0);
    assert!(!owner.has_outstanding_borrows());
    assert!(owner.can_borrow());
    assert!(owner.can_borrow_mut());
    assert_eq!(owner.into_inner(), -7);
}

#[test]
fn shared_borrows_read_together_and_release_to_zero() {
    let mut owner = ScopedReference::new(7_u32);
    let first = owner.borrow();
    let second = owner.borrow();
    let third = owner.borrow();
    assert_eq!(owner.outstanding_count(), 3);
    assert_eq!(*first.get(), 7);
    assert_eq!(*second.get(), 7);
    assert_eq!(*third.get(), 7);
    owner.release_borrow(first);
    owner.release_borrow(second);
    owner.release_borrow(third);
    assert_eq!(owner.outstanding_count(), 0);
    assert_eq!(owner.into_inner(), 7);
}

#[test]
fn released_write_is_read_by_later_borrow() {
    let mut owner = ScopedReference::new_mut(100_i32);
    let mut writer = owner.borrow_mut();
    writer.set(-5);
    assert_eq!(*writer.get(), -5);
    owner.release_borrow_mut(writer);
    let reader = owner.borrow();
    assert_eq!(*reader.get(), -5);
    owner.release_borrow(reader);
    assert_eq!(owner.into_inner(), -5);
}

#[test]
fn shared_borrow_refused_while_exclusive_outstanding() {
    let mut owner = ScopedReference::new_mut(1_u8);
    let writer = owner.borrow_mut();
    assert!(!owner.can_borrow());
    owner.release_borrow_mut(writer);
    assert!(owner.can_borrow());
}

#[test]
fn exclusive_borrow_refused_while_shared_outstanding() {
    let mut owner = ScopedReference::new(2_u16);
    let reader = owner.borrow();
    assert!(!owner.can_borrow_mut());
    owner.release_borrow(reader);
    assert!(owner.can_borrow_mut());
}

#[test]
fn second_exclusive_borrow_refused() {
    let mut owner = ScopedReference::new_mut(3_i8);
    let writer = owner.borrow_mut();
    assert!(!owner.can_borrow_mut());
    owner.release_borrow_mut(writer);
    assert!(owner.can_borrow_mut());
}

#[test]
fn owner_must_outlive_its_borrows() {
    let mut owner = ScopedReference::new(30_u64);
    let first = owner.borrow();
    let second = owner.borrow();
    assert!(owner.has_outstanding_borrows());
    owner.release_borrow(first);
    assert!(owner.has_outstanding_borrows());
    owner.release_borrow(second);
    assert!(!owner.has_outstanding_borrows());
    assert_eq!(owner.into_inner(), 30);
}

#[test]
fn clones_release_to_exactly_zero() {
    let mut owner = ScopedReference::new(8_u32);
    let original = owner.borrow();
    let clone_one = owner.clone_borrow(&original);
    let clone_two = owner.clone_borrow(&clone_one);
    assert_eq!(owner.outstanding_count(), 3);
    assert_eq!(*original.get(), 8);
    assert_eq!(*clone_one.get(), 8);
    assert_eq!(*clone_two.get(), 8);
    owner.release_borrow(clone_two);
    owner.release_borrow(original);
    owner.release_borrow(clone_one);
    assert_eq!(owner.outstanding_count(), 0);
    assert_eq!(owner.into_inner(), 8);
}

#[test]
fn exclusive_borrow_marks_counter_with_sentinel() {
    let mut owner = ScopedReference::new_mut(4_u8);
    let writer = owner.borrow_mut();
    assert_eq!(owner.outstanding_count(), usize::MAX);
    assert!(owner.has_outstanding_borrows());
    owner.release_borrow_mut(writer);
    assert_eq!(owner.outstanding_count(), 0);
}

#[test]
fn exclusive_borrow_granted_on_shared_origin_owner() {
    let mut owner = ScopedReference::new(11_i32);
    let mut writer = owner.borrow_mut();
    writer.set(12);
    owner.release_borrow_mut(writer);
    assert_eq!(owner.into_inner(), 12);
}
