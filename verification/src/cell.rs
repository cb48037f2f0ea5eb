//! The container: per-thread slots of `Option<T>` behind one shared handle.
//!
//! `ByThreadCell` composes the directory (thread identity to slot) with each
//! slot's borrow-check lock.  `borrow` yields a shared guard over the calling
//! thread's own value without ever creating a slot; `borrow_mut` creates the
//! calling thread's slot on first use and yields an exclusive guard.  A
//! conflicting nested acquisition from the same thread is reported as
//! `BorrowConflict` rather than blocking, since no other thread could ever
//! release the slot.
//!
//! Thread identity is an explicit `u64` token passed to every operation; the
//! caller resolves its own identity once per call.  Each operation's effect
//! is stated as a transition relation over the three per-thread observations
//! `has_slot`, `value_of` and `state_of`, and those relations are what the
//! laws module reasons from.

use vstd::prelude::*;

use crate::directory::Directory;
use crate::slot::BorrowConflict;
use crate::slot::BorrowState;

verus! {

/// A shared guard over the calling thread's slot value, returned by
/// `borrow`.  While it is outstanding, the slot (if one exists) counts one
/// more reader; `release` gives the reader ticket back.  A guard is keyed to
/// the thread identity it was created with and is meaningful only there.
#[derive(Debug)]
pub struct Ref {
    tid: u64,
    ticketed: bool,
}

impl Ref {
    /// The thread identity this guard is keyed to.
    pub closed spec fn tid(self) -> u64 {
        self.tid
    }

    /// Whether the guard holds a reader ticket on an existing slot.  A
    /// `borrow` by a thread with no slot takes no ticket: it observes the
    /// absent value without creating anything.
    pub closed spec fn ticketed(self) -> bool {
        self.ticketed
    }
}

/// An exclusive guard over the calling thread's slot value, returned by
/// `borrow_mut`.  While it is outstanding the slot admits no other access
/// from its thread; `release_mut` gives the writer ticket back.
#[derive(Debug)]
pub struct RefMut {
    tid: u64,
}

impl RefMut {
    /// The thread identity this guard is keyed to.
    pub closed spec fn tid(self) -> u64 {
        self.tid
    }
}

/// No thread's value changes.
pub open spec fn values_unchanged<T>(pre: ByThreadCell<T>, post: ByThreadCell<T>) -> bool {
    forall|u: u64| #[trigger] post.value_of(u) == pre.value_of(u)
}

/// No thread gains or loses a slot.
pub open spec fn slots_unchanged<T>(pre: ByThreadCell<T>, post: ByThreadCell<T>) -> bool {
    forall|u: u64| #[trigger] post.has_slot(u) == pre.has_slot(u)
}

/// No thread's borrow-check state changes.
pub open spec fn states_unchanged<T>(pre: ByThreadCell<T>, post: ByThreadCell<T>) -> bool {
    forall|u: u64| #[trigger] post.state_of(u) == pre.state_of(u)
}

/// No thread other than `t` has its borrow-check state changed.
pub open spec fn states_unchanged_except<T>(
    pre: ByThreadCell<T>,
    post: ByThreadCell<T>,
    t: u64,
) -> bool {
    forall|u: u64| u != t ==> #[trigger] post.state_of(u) == pre.state_of(u)
}

/// Nothing any thread can observe changes.
pub open spec fn unchanged<T>(pre: ByThreadCell<T>, post: ByThreadCell<T>) -> bool {
    values_unchanged(pre, post) && slots_unchanged(pre, post) && states_unchanged(pre, post)
}

/// The effect of a successful `borrow` by thread `t`: no value changes, no
/// slot is created or removed, and only `t`'s own slot (when it has one)
/// counts one more reader.
pub open spec fn borrow_transition<T>(pre: ByThreadCell<T>, post: ByThreadCell<T>, t: u64) -> bool {
    &&& values_unchanged(pre, post)
    &&& slots_unchanged(pre, post)
    &&& states_unchanged_except(pre, post, t)
    &&& pre.has_slot(t) ==> post.state_of(t) == pre.state_of(t).after_acquire_shared()
    &&& !pre.has_slot(t) ==> post.state_of(t) == pre.state_of(t)
}

/// The effect of a successful `borrow_mut` by thread `t`: no value changes
/// (a freshly created slot holds the absent value, which is also what a
/// slotless thread observes), no other thread's slot or state changes, and
/// `t` now has a slot under exclusive access.
pub open spec fn borrow_mut_transition<T>(
    pre: ByThreadCell<T>,
    post: ByThreadCell<T>,
    t: u64,
) -> bool {
    &&& values_unchanged(pre, post)
    &&& forall|u: u64| u != t ==> #[trigger] post.has_slot(u) == pre.has_slot(u)
    &&& post.has_slot(t)
    &&& states_unchanged_except(pre, post, t)
    &&& post.state_of(t) is Exclusive
}

/// The effect of writing `v` through thread `t`'s exclusive guard: `t`'s
/// value becomes `v` and nothing any other thread can observe changes.
pub open spec fn write_transition<T>(
    pre: ByThreadCell<T>,
    post: ByThreadCell<T>,
    t: u64,
    v: Option<T>,
) -> bool {
    &&& post.value_of(t) == v
    &&& forall|u: u64| u != t ==> #[trigger] post.value_of(u) == pre.value_of(u)
    &&& slots_unchanged(pre, post)
    &&& states_unchanged(pre, post)
}

/// The effect of releasing thread `t`'s shared guard: one reader ticket (if
/// the guard held one) is given back, and nothing else changes.
pub open spec fn release_transition<T>(
    pre: ByThreadCell<T>,
    post: ByThreadCell<T>,
    t: u64,
    ticketed: bool,
) -> bool {
    &&& values_unchanged(pre, post)
    &&& slots_unchanged(pre, post)
    &&& states_unchanged_except(pre, post, t)
    &&& ticketed ==> post.state_of(t) == pre.state_of(t).after_release_shared()
    &&& !ticketed ==> post.state_of(t) == pre.state_of(t)
}

/// The effect of releasing thread `t`'s exclusive guard: `t`'s slot becomes
/// free again, and nothing else changes.
pub open spec fn release_mut_transition<T>(
    pre: ByThreadCell<T>,
    post: ByThreadCell<T>,
    t: u64,
) -> bool {
    &&& values_unchanged(pre, post)
    &&& slots_unchanged(pre, post)
    &&& states_unchanged_except(pre, post, t)
    &&& post.state_of(t) is Free
}

/// The container: every thread's own independent, mutable slot of
/// `Option<T>`, reachable through this single handle.
pub struct ByThreadCell<T> {
    /// The directory mapping thread identity to slot.
    pub dir: Directory<T>,
    /// The absent value, handed out by reference when a thread with no slot
    /// borrows.  Always `None`.
    pub absent: Option<T>,
}

impl<T> ByThreadCell<T> {
    /// Well-formed: the directory is, and the absent value really is absent.
    pub open spec fn wf(self) -> bool {
        self.dir.wf() && self.absent is None
    }

    /// Whether thread `t` has a slot, that is, has ever called `borrow_mut`.
    pub open spec fn has_slot(self, t: u64) -> bool {
        self.dir@.dom().contains(t)
    }

    /// The value thread `t` observes: its slot's value, or the absent value
    /// when it has no slot.
    pub open spec fn value_of(self, t: u64) -> Option<T> {
        if self.has_slot(t) {
            self.dir@[t].value
        } else {
            None
        }
    }

    /// The borrow-check state of thread `t`'s slot; a thread with no slot
    /// has no outstanding access.
    pub open spec fn state_of(self, t: u64) -> BorrowState {
        if self.has_slot(t) {
            self.dir@[t].state
        } else {
            BorrowState::Free
        }
    }

    /// Thread `t` may acquire a shared guard: no writer is outstanding.
    pub open spec fn can_borrow(self, t: u64) -> bool {
        self.state_of(t).can_acquire_shared()
    }

    /// Thread `t` may acquire an exclusive guard: no access is outstanding.
    pub open spec fn can_borrow_mut(self, t: u64) -> bool {
        self.state_of(t).can_acquire_exclusive()
    }

    /// Create an empty container: no thread has a slot, every thread
    /// observes the absent value, and nothing is outstanding.
    pub fn new() -> (c: Self)
        ensures
            c.wf(),
            forall|t: u64| !(#[trigger] c.has_slot(t)),
            forall|t: u64| #[trigger] c.value_of(t) is None,
            forall|t: u64| #[trigger] c.state_of(t) is Free,
    {
        ByThreadCell { dir: Directory::new(), absent: None }
    }

    /// The borrow-check state of thread `t`'s slot, for callers that must
    /// know whether an acquisition would conflict before attempting it.
    pub fn borrow_state(&self, t: u64) -> (s: BorrowState)
        requires
            self.wf(),
        ensures
            s == self.state_of(t),
    {
        match self.dir.get_slot(t) {
            Some(slot) => slot.state,
            None => BorrowState::Free,
        }
    }

    /// Acquire a shared guard over the calling thread's own value.  Never
    /// creates a slot: a thread that has no slot observes the absent value.
    /// Fails with `BorrowConflict` exactly when the calling thread already
    /// holds an exclusive guard for its slot, leaving the container
    /// untouched.
    pub fn borrow(&mut self, t: u64) -> (r: Result<Ref, BorrowConflict>)
        requires
            old(self).wf(),
            old(self).state_of(t).reader_count() < u64::MAX,
        ensures
            final(self).wf(),
            r is Ok <==> old(self).can_borrow(t),
            r matches Ok(g) ==> g.tid() == t && g.ticketed() == old(self).has_slot(t)
                && borrow_transition(*old(self), *final(self), t),
            r is Err ==> unchanged(*old(self), *final(self)),
    {
        let st = match self.dir.get_slot(t) {
            Some(slot) => Some(slot.state),
            None => None,
        };
        match st {
            None => Ok(Ref { tid: t, ticketed: false }),
            Some(st) => match st.acquire_shared() {
                Ok(st2) => {
                    self.dir.set_state(t, st2);
                    Ok(Ref { tid: t, ticketed: true })
                },
                Err(conflict) => Err(conflict),
            },
        }
    }

    /// Acquire an exclusive guard over the calling thread's own value,
    /// creating the thread's slot on first use.  Fails with
    /// `BorrowConflict` exactly when the calling thread already holds any
    /// guard for its slot, leaving the container untouched.
    pub fn borrow_mut(&mut self, t: u64) -> (r: Result<RefMut, BorrowConflict>)
        requires
            old(self).wf(),
        ensures
            final(self).wf(),
            r is Ok <==> old(self).can_borrow_mut(t),
            r matches Ok(g) ==> g.tid() == t && borrow_mut_transition(*old(self), *final(self), t),
            r is Err ==> unchanged(*old(self), *final(self)),
    {
        self.dir.get_or_create_slot(t);
        let st = match self.dir.get_slot(t) {
            Some(slot) => slot.state,
            None => BorrowState::Free,
        };
        match st.acquire_exclusive() {
            Ok(st2) => {
                self.dir.set_state(t, st2);
                Ok(RefMut { tid: t })
            },
            Err(conflict) => Err(conflict),
        }
    }

    /// The value a shared guard presents: the guard's thread's own value.
    pub fn get<'a>(&'a self, g: &Ref) -> (v: &'a Option<T>)
        requires
            self.wf(),
        ensures
            *v == self.value_of(g.tid()),
    {
        match self.dir.get_slot(g.tid) {
            Some(slot) => &slot.value,
            None => &self.absent,
        }
    }

    /// The value an exclusive guard presents, by mutable reference: the
    /// guard's thread's own value, which the caller may overwrite or clear.
    /// Whatever the caller leaves behind the reference becomes that thread's
    /// value; no other thread can observe any of it.
    pub fn get_mut<'a>(&'a mut self, g: &RefMut) -> (v: &'a mut Option<T>)
        requires
            old(self).wf(),
            old(self).state_of(g.tid()) is Exclusive,
        ensures
            final(self).wf(),
            *v == old(self).value_of(g.tid()),
            write_transition(*old(self), *final(self), g.tid(), *final(v)),
    {
        self.dir.value_mut(g.tid)
    }

    /// Give back a shared guard's reader ticket.  Only the guard's own
    /// thread's borrow-check state changes; a guard that took no ticket
    /// changes nothing.
    pub fn release(&mut self, g: Ref)
        requires
            old(self).wf(),
            g.ticketed() ==> old(self).state_of(g.tid()) is Shared,
        ensures
            final(self).wf(),
            release_transition(*old(self), *final(self), g.tid(), g.ticketed()),
    {
        if g.ticketed {
            let st = match self.dir.get_slot(g.tid) {
                Some(slot) => slot.state,
                None => BorrowState::Free,
            };
            let st2 = st.release_shared();
            self.dir.set_state(g.tid, st2);
        }
    }

    /// Give back an exclusive guard's writer ticket, freeing the slot for
    /// the thread's next acquisition.  Only the guard's own thread's
    /// borrow-check state changes.
    pub fn release_mut(&mut self, g: RefMut)
        requires
            old(self).wf(),
            old(self).state_of(g.tid()) is Exclusive,
        ensures
            final(self).wf(),
            release_mut_transition(*old(self), *final(self), g.tid()),
    {
        let st = match self.dir.get_slot(g.tid) {
            Some(slot) => slot.state,
            None => BorrowState::Free,
        };
        let st2 = st.release_exclusive();
        self.dir.set_state(g.tid, st2);
    }
}

} // verus!
