//! One thread's slot: the stored `Option<T>` value together with the
//! borrow-check lock that guards it against conflicting access from its
//! owning thread.

use vstd::prelude::*;

verus! {

/// The error raised when a thread attempts a conflicting nested access to its
/// own slot: acquiring exclusive access while any access is outstanding, or
/// acquiring shared access while exclusive access is outstanding.
///
/// The conflict can only arise from the same thread re-entering, so blocking
/// would deadlock; the conflict is instead reported immediately.
#[derive(Clone, Copy, Debug, PartialEq, Eq)]
pub struct BorrowConflict;

/// The state of a slot's borrow-check lock: no outstanding access, `n`
/// concurrent readers, or one writer.
#[derive(Clone, Copy, Debug)]
pub enum BorrowState {
    Free,
    Shared(u64),
    Exclusive,
}

impl BorrowState {
    /// A shared state always counts at least one outstanding reader.
    pub open spec fn wf(self) -> bool {
        self matches BorrowState::Shared(n) ==> n >= 1
    }

    /// How many readers are outstanding (zero unless the state is shared).
    pub open spec fn reader_count(self) -> u64 {
        match self {
            BorrowState::Shared(n) => n,
            _ => 0,
        }
    }

    /// Shared access can be acquired unless a writer is outstanding.
    pub open spec fn can_acquire_shared(self) -> bool {
        !(self is Exclusive)
    }

    /// Exclusive access can be acquired only when no access is outstanding.
    pub open spec fn can_acquire_exclusive(self) -> bool {
        self is Free
    }

    /// The state after one more reader acquires shared access.
    pub open spec fn after_acquire_shared(self) -> BorrowState
        recommends
            self.can_acquire_shared(),
    {
        BorrowState::Shared((self.reader_count() + 1) as u64)
    }

    /// The state after one reader releases shared access.
    pub open spec fn after_release_shared(self) -> BorrowState
        recommends
            self is Shared,
    {
        if self.reader_count() <= 1 {
            BorrowState::Free
        } else {
            BorrowState::Shared((self.reader_count() - 1) as u64)
        }
    }

    /// Acquire shared access: succeeds unless exclusive access is
    /// outstanding, in which case the conflict is reported.
    pub fn acquire_shared(self) -> (r: Result<BorrowState, BorrowConflict>)
        requires
            self.wf(),
            self.reader_count() < u64::MAX,
        ensures
            r is Ok <==> self.can_acquire_shared(),
            r matches Ok(s) ==> s == self.after_acquire_shared() && s.wf(),
    {
        match self {
            BorrowState::Free => Ok(BorrowState::Shared(1)),
            BorrowState::Shared(n) => Ok(BorrowState::Shared(n + 1)),
            BorrowState::Exclusive => Err(BorrowConflict),
        }
    }

    /// Acquire exclusive access: succeeds only when no access is
    /// outstanding; any outstanding access is a conflict.
    pub fn acquire_exclusive(self) -> (r: Result<BorrowState, BorrowConflict>)
        ensures
            r is Ok <==> self.can_acquire_exclusive(),
            r matches Ok(s) ==> s == BorrowState::Exclusive && s.wf(),
    {
        match self {
            BorrowState::Free => Ok(BorrowState::Exclusive),
            _ => Err(BorrowConflict),
        }
    }

    /// Release one reader's shared access, restoring `Free` when it was the
    /// last outstanding reader.
    pub fn release_shared(self) -> (s: BorrowState)
        requires
            self.wf(),
            self is Shared,
        ensures
            s == self.after_release_shared(),
            s.wf(),
    {
        match self {
            BorrowState::Shared(n) => {
                if n <= 1 {
                    BorrowState::Free
                } else {
                    BorrowState::Shared(n - 1)
                }
            },
            _ => self,
        }
    }

    /// Release the writer's exclusive access, restoring `Free`.
    pub fn release_exclusive(self) -> (s: BorrowState)
        requires
            self is Exclusive,
        ensures
            s == BorrowState::Free,
            s.wf(),
    {
        BorrowState::Free
    }
}

/// One thread's slot: exactly one `Option<T>` (`None` meaning "no value set
/// yet") plus the borrow-check lock guarding it.
pub struct Slot<T> {
    pub value: Option<T>,
    pub state: BorrowState,
}

impl<T> Slot<T> {
    /// A slot is well-formed when its borrow-check state is.
    pub open spec fn wf(self) -> bool {
        self.state.wf()
    }

    /// A brand-new slot: no value set yet, no outstanding access.
    pub open spec fn new_spec() -> Slot<T> {
        Slot { value: None, state: BorrowState::Free }
    }

    /// Create a brand-new slot.
    pub fn new() -> (s: Slot<T>)
        ensures
            s == Slot::<T>::new_spec(),
    {
        Slot { value: None, state: BorrowState::Free }
    }
}

} // verus!
