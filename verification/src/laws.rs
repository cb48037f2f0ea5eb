//! The container's guarantees, stated and proved over the transition
//! relations that the operations' contracts establish.
//!
//! Each law quantifies over container states related by the transitions of
//! `borrow`, `borrow_mut`, writes through an exclusive guard, and releases,
//! and concludes something about what a thread observes — `value_of`, the
//! value that `get` and `get_mut` present for that thread.

use vstd::prelude::*;

use crate::cell::borrow_mut_transition;
use crate::cell::borrow_transition;
use crate::cell::release_mut_transition;
use crate::cell::release_transition;
use crate::cell::write_transition;
use crate::cell::ByThreadCell;

verus! {

/// Isolation: a value written through thread `a`'s exclusive guard is never
/// observed by any other thread `b`.  Acquiring the guard and writing
/// through it leave `b`'s slot, value and borrow-check state exactly as
/// they were.
pub proof fn law_isolation<T>(
    pre: ByThreadCell<T>,
    mid: ByThreadCell<T>,
    post: ByThreadCell<T>,
    a: u64,
    b: u64,
    v: Option<T>,
)
    requires
        a != b,
        borrow_mut_transition(pre, mid, a),
        write_transition(mid, post, a, v),
    ensures
        post.value_of(b) == pre.value_of(b),
        post.has_slot(b) == pre.has_slot(b),
        post.state_of(b) == pre.state_of(b),
{
}

/// Persistence within a thread: once `v` is written through thread `t`'s
/// exclusive guard, releasing that guard and acquiring a shared guard on the
/// same thread still observes `v`.
pub proof fn law_persistence_borrow<T>(
    s0: ByThreadCell<T>,
    s1: ByThreadCell<T>,
    s2: ByThreadCell<T>,
    s3: ByThreadCell<T>,
    t: u64,
    v: Option<T>,
)
    requires
        write_transition(s0, s1, t, v),
        release_mut_transition(s1, s2, t),
        borrow_transition(s2, s3, t),
    ensures
        s3.value_of(t) == v,
{
}

/// Persistence within a thread, across a further exclusive acquisition:
/// once `v` is written through thread `t`'s exclusive guard, releasing the
/// guard and acquiring a fresh exclusive guard on the same thread still
/// observes `v`, until the thread overwrites it.
pub proof fn law_persistence_borrow_mut<T>(
    s0: ByThreadCell<T>,
    s1: ByThreadCell<T>,
    s2: ByThreadCell<T>,
    s3: ByThreadCell<T>,
    t: u64,
    v: Option<T>,
)
    requires
        write_transition(s0, s1, t, v),
        release_mut_transition(s1, s2, t),
        borrow_mut_transition(s2, s3, t),
    ensures
        s3.value_of(t) == v,
{
}

/// Default-absent: a shared acquisition by a thread that has no slot — one
/// that has never called `borrow_mut` — creates nothing and observes the
/// absent value.
pub proof fn law_default_absent<T>(pre: ByThreadCell<T>, post: ByThreadCell<T>, t: u64)
    requires
        !pre.has_slot(t),
        borrow_transition(pre, post, t),
    ensures
        !post.has_slot(t),
        post.value_of(t) is None,
{
}

/// No cross-thread blocking on value access: however long thread `a` holds
/// its exclusive guard, a thread `b` with no outstanding access can still
/// acquire its own guards, and `b`'s acquisition and use of its own slot
/// leave `a`'s guard and value untouched.
pub proof fn law_no_cross_thread_blocking<T>(
    pre: ByThreadCell<T>,
    mid: ByThreadCell<T>,
    post: ByThreadCell<T>,
    a: u64,
    b: u64,
    v: Option<T>,
)
    requires
        a != b,
        pre.state_of(a) is Exclusive,
        pre.state_of(b) is Free,
        borrow_mut_transition(pre, mid, b),
        write_transition(mid, post, b, v),
    ensures
        pre.can_borrow_mut(b),
        pre.can_borrow(b),
        post.state_of(a) is Exclusive,
        post.value_of(a) == pre.value_of(a),
{
}

/// Reentrant-conflict detection: while a thread holds an exclusive guard
/// for its slot, neither a shared nor an exclusive acquisition by that same
/// thread can succeed; and while it holds any shared guard, an exclusive
/// acquisition cannot succeed.
pub proof fn law_reentrant_conflict<T>(c: ByThreadCell<T>, t: u64)
    ensures
        c.state_of(t) is Exclusive ==> !c.can_borrow(t) && !c.can_borrow_mut(t),
        c.state_of(t) is Shared ==> !c.can_borrow_mut(t),
{
}

/// Shared guards released in full free the slot again: a thread that took
/// one reader ticket and gives it back may acquire exclusively.
pub proof fn law_release_restores<T>(
    pre: ByThreadCell<T>,
    mid: ByThreadCell<T>,
    post: ByThreadCell<T>,
    t: u64,
)
    requires
        pre.state_of(t) is Free,
        pre.has_slot(t),
        borrow_transition(pre, mid, t),
        release_transition(mid, post, t, true),
    ensures
        post.state_of(t) is Free,
        post.can_borrow_mut(t),
{
}

} // verus!
