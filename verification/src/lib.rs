//! A container that gives every thread its own independent, mutable slot of
//! type `Option<T>`, reachable through a single shared handle.
//!
//! The container is split into two components, mirroring its two-level locking
//! scheme: a [`directory`] mapping thread identities to slots, and a per-slot
//! borrow-check lock ([`slot`]) guarding value access.  The [`cell`] module
//! composes the two into the public [`ByThreadCell`] type with its guard
//! values [`Ref`] and [`RefMut`], and [`laws`] states and proves the
//! container's isolation and persistence guarantees.
//!
//! Thread identity is an explicit input: every operation takes the calling
//! thread's identity as a plain `u64` token, resolved once per call by the
//! caller.  This keeps the directory lookup, slot creation and borrow check
//! free of any hidden global, and lets them be exercised with injected
//! identities.

pub mod cell;
pub mod directory;
pub mod laws;
pub mod slot;

pub use cell::ByThreadCell;
pub use cell::Ref;
pub use cell::RefMut;
pub use slot::BorrowConflict;
pub use slot::BorrowState;
