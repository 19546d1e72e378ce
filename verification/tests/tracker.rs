use shared_resources::BorrowTracker;

#[test]
fn shared_borrows_stack_and_block_exclusive() {
    let mut tracker = BorrowTracker::new();
    assert!(tracker.try_acquire_shared());
    assert!(tracker.try_acquire_shared());
    assert!(!tracker.try_acquire_exclusive());

    tracker.release_shared();
    assert!(!tracker.try_acquire_exclusive());
    tracker.release_shared();
    assert!(tracker.try_acquire_exclusive());
}

#[test]
fn exclusive_borrow_blocks_everything() {
    let mut tracker = BorrowTracker::new();
    assert!(tracker.try_acquire_exclusive());
    assert!(!tracker.try_acquire_shared());
    assert!(!tracker.try_acquire_exclusive());

    tracker.release_exclusive();
    assert!(tracker.try_acquire_shared());
}

#[test]
fn failed_requests_leave_the_state_alone() {
    let mut tracker = BorrowTracker::new();
    assert!(tracker.try_acquire_shared());
    assert!(!tracker.try_acquire_exclusive());

    // The refused exclusive request was not queued: releasing the one
    // shared borrow frees the slot, and both kinds of request succeed
    // again from there.
    tracker.release_shared();
    assert!(tracker.try_acquire_exclusive());
    tracker.release_exclusive();
    assert!(tracker.try_acquire_shared());
}
