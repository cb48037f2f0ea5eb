//! Scenario tests for the container's stated guarantees: isolation between
//! threads, persistence within a thread, the default-absent value, freedom
//! from cross-thread blocking, and reentrant-conflict detection.

use by_thread_cell::BorrowConflict;
use by_thread_cell::ByThreadCell;

#[test]
fn isolation_between_threads() {
    let mut cell = ByThreadCell::new();
    let a: u64 = 1;
    let b: u64 = 2;

    let m = cell.borrow_mut(a).unwrap();
    *cell.get_mut(&m) = Some(41);
    cell.release_mut(m);

    // Neither a shared nor an exclusive view on another thread sees it.
    let r = cell.borrow(b).unwrap();
    assert_eq!(*cell.get(&r), None);
    cell.release(r);
    let m = cell.borrow_mut(b).unwrap();
    assert_eq!(*cell.get_mut(&m), None);
    cell.release_mut(m);

    // And the other thread's slot creation disturbed nothing.
    let r = cell.borrow(a).unwrap();
    assert_eq!(*cell.get(&r), Some(41));
    cell.release(r);
}

#[test]
fn persistence_within_thread() {
    let mut cell = ByThreadCell::new();
    let t: u64 = 7;

    let m = cell.borrow_mut(t).unwrap();
    *cell.get_mut(&m) = Some(10);
    cell.release_mut(m);

    let r = cell.borrow(t).unwrap();
    assert_eq!(*cell.get(&r), Some(10));
    cell.release(r);
    let r = cell.borrow(t).unwrap();
    assert_eq!(*cell.get(&r), Some(10));
    cell.release(r);
    let m = cell.borrow_mut(t).unwrap();
    assert_eq!(*cell.get_mut(&m), Some(10));
    *cell.get_mut(&m) = Some(11);
    cell.release_mut(m);

    let r = cell.borrow(t).unwrap();
    assert_eq!(*cell.get(&r), Some(11));
    cell.release(r);
}

#[test]
fn default_absent() {
    let mut cell: ByThreadCell<i32> = ByThreadCell::new();

    let r = cell.borrow(9).unwrap();
    assert_eq!(*cell.get(&r), None);
    cell.release(r);

    // A shared borrow creates no slot: a later first exclusive borrow still
    // finds the value unset.
    let m = cell.borrow_mut(9).unwrap();
    assert_eq!(*cell.get_mut(&m), None);
    cell.release_mut(m);
}

#[test]
fn clearing_restores_absent() {
    let mut cell = ByThreadCell::new();
    let t: u64 = 3;

    let m = cell.borrow_mut(t).unwrap();
    *cell.get_mut(&m) = Some(8);
    *cell.get_mut(&m) = None;
    cell.release_mut(m);

    let r = cell.borrow(t).unwrap();
    assert_eq!(*cell.get(&r), None);
    cell.release(r);
}

#[test]
fn no_cross_thread_blocking() {
    let mut cell = ByThreadCell::new();
    let a: u64 = 1;
    let b: u64 = 2;

    // Thread `a` holds its exclusive guard, value unset, for the whole test.
    let held = cell.borrow_mut(a).unwrap();

    // Thread `b` can still create and use its own slot.
    let m = cell.borrow_mut(b).unwrap();
    *cell.get_mut(&m) = Some(5);
    cell.release_mut(m);
    let r = cell.borrow(b).unwrap();
    assert_eq!(*cell.get(&r), Some(5));
    cell.release(r);

    // And `a`'s guard still works, its value still unset.
    assert_eq!(*cell.get_mut(&held), None);
    cell.release_mut(held);
}

#[test]
fn reentrant_conflict_detected() {
    let mut cell: ByThreadCell<i32> = ByThreadCell::new();
    let t: u64 = 4;

    let held = cell.borrow_mut(t).unwrap();
    assert_eq!(cell.borrow(t).unwrap_err(), BorrowConflict);
    assert_eq!(cell.borrow_mut(t).unwrap_err(), BorrowConflict);
    cell.release_mut(held);

    // With the guard given back, both acquisitions succeed again.
    let r = cell.borrow(t).unwrap();
    cell.release(r);
    let m = cell.borrow_mut(t).unwrap();
    cell.release_mut(m);
}

#[test]
fn shared_guards_count_and_block_writers() {
    let mut cell: ByThreadCell<i32> = ByThreadCell::new();
    let t: u64 = 5;

    let m = cell.borrow_mut(t).unwrap();
    cell.release_mut(m);

    // Two shared guards at once; an exclusive acquisition conflicts until
    // both are given back.
    let r1 = cell.borrow(t).unwrap();
    let r2 = cell.borrow(t).unwrap();
    assert_eq!(cell.borrow_mut(t).unwrap_err(), BorrowConflict);
    cell.release(r1);
    assert_eq!(cell.borrow_mut(t).unwrap_err(), BorrowConflict);
    cell.release(r2);
    let m = cell.borrow_mut(t).unwrap();
    cell.release_mut(m);
}

#[test]
fn scenario_two_threads_stable_values() {
    let mut cell = ByThreadCell::new();
    let a: u64 = 1;
    let b: u64 = 2;

    // Thread `a` sets its value.
    let m = cell.borrow_mut(a).unwrap();
    *cell.get_mut(&m) = Some(2);
    cell.release_mut(m);

    // Thread `b` begins, observes the absent value, and sets its own.
    let r = cell.borrow(b).unwrap();
    assert_eq!(*cell.get(&r), None);
    cell.release(r);
    let m = cell.borrow_mut(b).unwrap();
    *cell.get_mut(&m) = Some(5);
    cell.release_mut(m);

    // After an arbitrary interleaving, both threads hold shared guards at
    // the same time and each reads back its own last-written value.
    let ra = cell.borrow(a).unwrap();
    let rb = cell.borrow(b).unwrap();
    assert_eq!(*cell.get(&ra), Some(2));
    assert_eq!(*cell.get(&rb), Some(5));
    cell.release(ra);
    cell.release(rb);
}
