use grpc::lock::SpinLock;

#[test]
fn test_lock() {
    let mut lock = SpinLock::new(2);
    let first: u64 = 1;
    let second: u64 = 2;
    // The first thread takes the lock twice.
    assert!(lock.lock(first));
    assert!(lock.lock(first));
    // Another thread spins.
    assert!(!lock.lock(second));

    lock.unlock(first);
    assert!(!lock.lock(second));

    lock.unlock(first);
    assert!(lock.lock(second));
    assert_eq!(*lock.get(second), 2);
}

#[test]
fn reentrant_lock_value_changes_through_holder() {
    let mut lock = SpinLock::new(10u32);
    assert!(lock.lock(7));
    *lock.get_mut(7) += 5;
    assert!(lock.lock(7));
    assert_eq!(*lock.get(7), 15);
    lock.unlock(7);
    lock.unlock(7);
    assert!(lock.lock(8));
    assert_eq!(*lock.get(8), 15);
}
