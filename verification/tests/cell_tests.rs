//! The container exercised the way its callers use it: one guard per
//! acquisition, explicit thread-identity tokens standing in for the calling
//! threads, and every cross-thread sequence run as one interleaving that a
//! rendezvous between the threads would enforce.

use by_thread_cell::ByThreadCell;

fn do_something<T>(_: T) {}

#[test]
fn one_thread() {
    let mut by_thread = ByThreadCell::new();

    let m = by_thread.borrow_mut(1).unwrap();
    *by_thread.get_mut(&m) = Some(2);
    by_thread.release_mut(m);

    let r = by_thread.borrow(1).unwrap();
    assert_eq!(*by_thread.get(&r), Some(2));
    by_thread.release(r);
}

#[test]
fn diff_between_threads() {
    let mut by_thread = ByThreadCell::new();
    let a: u64 = 1;
    let b: u64 = 2;

    let m = by_thread.borrow_mut(a).unwrap();
    *by_thread.get_mut(&m) = Some(2);
    by_thread.release_mut(m);

    let r = by_thread.borrow(b).unwrap();
    assert_eq!(*by_thread.get(&r), None);
    by_thread.release(r);
}

#[test]
fn multiple_values() {
    let mut by_thread = ByThreadCell::new();
    let a: u64 = 1;
    let b: u64 = 2;

    let r = by_thread.borrow(a).unwrap();
    assert_eq!(*by_thread.get(&r), None);
    by_thread.release(r);
    let m = by_thread.borrow_mut(a).unwrap();
    *by_thread.get_mut(&m) = Some(2);
    by_thread.release_mut(m);
    let r = by_thread.borrow(a).unwrap();
    assert_eq!(*by_thread.get(&r), Some(2));
    by_thread.release(r);

    let r = by_thread.borrow(b).unwrap();
    assert_eq!(*by_thread.get(&r), None);
    by_thread.release(r);
    let m = by_thread.borrow_mut(b).unwrap();
    *by_thread.get_mut(&m) = Some(5);
    by_thread.release_mut(m);
    let r = by_thread.borrow(b).unwrap();
    assert_eq!(*by_thread.get(&r), Some(5));
    by_thread.release(r);

    let r = by_thread.borrow(a).unwrap();
    assert_eq!(*by_thread.get(&r), Some(2));
    by_thread.release(r);
    let m = by_thread.borrow_mut(a).unwrap();
    *by_thread.get_mut(&m) = Some(3);
    by_thread.release_mut(m);
    let r = by_thread.borrow(a).unwrap();
    assert_eq!(*by_thread.get(&r), Some(3));
    by_thread.release(r);

    let r = by_thread.borrow(b).unwrap();
    assert_eq!(*by_thread.get(&r), Some(5));
    by_thread.release(r);

    let r = by_thread.borrow(a).unwrap();
    assert_eq!(*by_thread.get(&r), Some(3));
    by_thread.release(r);
}

#[test]
fn automatically_cleans_up() {
    let mut by_thread: ByThreadCell<i32> = ByThreadCell::new();

    let _borrow_mut = by_thread.borrow_mut(1).unwrap();
    let _ = by_thread.borrow(1);
}

#[test]
#[should_panic]
fn bad_borrowing() {
    let mut by_thread: ByThreadCell<i32> = ByThreadCell::new();

    let borrow_mut = by_thread.borrow_mut(1).unwrap();
    by_thread.borrow(1).unwrap();
    do_something(borrow_mut);
}

#[test]
fn no_deadlock() {
    let mut by_thread = ByThreadCell::new();
    let a: u64 = 1;
    let b: u64 = 2;

    let r = by_thread.borrow(a).unwrap();
    assert_eq!(*by_thread.get(&r), None);
    by_thread.release(r);
    let m = by_thread.borrow_mut(a).unwrap();
    *by_thread.get_mut(&m) = Some(2);
    by_thread.release_mut(m);
    let r = by_thread.borrow(a).unwrap();
    assert_eq!(*by_thread.get(&r), Some(2));
    by_thread.release(r);

    // The other thread begins and keeps its exclusive guard across the
    // rendezvous.
    let r = by_thread.borrow(b).unwrap();
    assert_eq!(*by_thread.get(&r), None);
    by_thread.release(r);
    let borrow_b = by_thread.borrow_mut(b).unwrap();
    assert_eq!(*by_thread.get_mut(&borrow_b), None);
    *by_thread.get_mut(&borrow_b) = Some(5);
    assert_eq!(*by_thread.get_mut(&borrow_b), Some(5));

    // The first thread is not blocked by the guard the other thread holds.
    let r = by_thread.borrow(a).unwrap();
    assert_eq!(*by_thread.get(&r), Some(2));
    by_thread.release(r);
    let borrow_a = by_thread.borrow_mut(a).unwrap();
    assert_eq!(*by_thread.get_mut(&borrow_a), Some(2));
    *by_thread.get_mut(&borrow_a) = Some(3);

    // After the rendezvous the other thread still sees its own value, then
    // gives its guard back and reads once more.
    assert_eq!(*by_thread.get_mut(&borrow_b), Some(5));
    by_thread.release_mut(borrow_b);
    let r = by_thread.borrow(b).unwrap();
    assert_eq!(*by_thread.get(&r), Some(5));
    by_thread.release(r);

    // The first thread reads through its held guard, releases it, and reads
    // once more.
    assert_eq!(*by_thread.get_mut(&borrow_a), Some(3));
    by_thread.release_mut(borrow_a);
    let r = by_thread.borrow(a).unwrap();
    assert_eq!(*by_thread.get(&r), Some(3));
    by_thread.release(r);
}
