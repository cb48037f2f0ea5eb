//! The directory: a mapping from thread identity to that thread's slot.
//!
//! The directory is stored as a vector of entries with pairwise-distinct
//! keys, and is specified through its abstraction to a `Map` from thread
//! identity to slot.  At most one slot exists per thread identity, and once
//! inserted a slot is never removed.

use vstd::prelude::*;

use crate::slot::BorrowState;
use crate::slot::Slot;

verus! {

/// One directory entry: a thread identity and that thread's slot.
pub struct Entry<T> {
    pub key: u64,
    pub slot: Slot<T>,
}

/// The entries' keys are pairwise distinct: at most one slot per thread.
pub open spec fn unique_keys<T>(s: Seq<Entry<T>>) -> bool {
    forall|i: int, j: int|
        0 <= i < j < s.len() ==> (#[trigger] s[i]).key != (#[trigger] s[j]).key
}

/// Every stored slot is well-formed.
pub open spec fn slots_wf<T>(s: Seq<Entry<T>>) -> bool {
    forall|i: int| 0 <= i < s.len() ==> (#[trigger] s[i]).slot.wf()
}

/// The mapping that a sequence of entries represents, read left to right.
pub open spec fn entries_map<T>(s: Seq<Entry<T>>) -> Map<u64, Slot<T>>
    decreases s.len(),
{
    if s.len() == 0 {
        Map::empty()
    } else {
        entries_map(s.drop_last()).insert(s.last().key, s.last().slot)
    }
}

/// A key is in the represented mapping exactly when some entry holds it.
pub proof fn lemma_entries_map_contains<T>(s: Seq<Entry<T>>, k: u64)
    ensures
        entries_map(s).dom().contains(k) <==> (exists|i: int|
            0 <= i < s.len() && (#[trigger] s[i]).key == k),
    decreases s.len(),
{
    if s.len() > 0 {
        lemma_entries_map_contains(s.drop_last(), k);
        if s.last().key == k {
            assert(s[s.len() - 1].key == k);
        } else if exists|i: int| 0 <= i < s.len() && (#[trigger] s[i]).key == k {
            let i = choose|i: int| 0 <= i < s.len() && (#[trigger] s[i]).key == k;
            assert(s.drop_last()[i] == s[i]);
        }
    }
}

/// With distinct keys, the mapping sends each entry's key to that entry's
/// slot.
pub proof fn lemma_entries_map_at<T>(s: Seq<Entry<T>>, i: int)
    requires
        unique_keys(s),
        0 <= i < s.len(),
    ensures
        entries_map(s).dom().contains(s[i].key),
        entries_map(s)[s[i].key] == s[i].slot,
    decreases s.len(),
{
    if i < s.len() - 1 {
        lemma_entries_map_at(s.drop_last(), i);
        assert(s.drop_last()[i] == s[i]);
    }
}

/// Appending an entry with a fresh key inserts that key into the mapping.
pub proof fn lemma_entries_map_push<T>(s: Seq<Entry<T>>, e: Entry<T>)
    ensures
        entries_map(s.push(e)) == entries_map(s).insert(e.key, e.slot),
{
    assert(s.push(e).drop_last() =~= s);
    assert(s.push(e).last() == e);
}

/// Replacing the entry at `i` by one with the same key updates the mapping
/// at that key alone.
pub proof fn lemma_entries_map_update<T>(s: Seq<Entry<T>>, i: int, e: Entry<T>)
    requires
        unique_keys(s),
        0 <= i < s.len(),
        e.key == s[i].key,
    ensures
        entries_map(s.update(i, e)) =~= entries_map(s).insert(e.key, e.slot),
        unique_keys(s.update(i, e)),
    decreases s.len(),
{
    let t = s.update(i, e);
    assert(forall|j: int| 0 <= j < s.len() && j != i ==> t[j] == s[j]);
    if i == s.len() - 1 {
        assert(t.drop_last() =~= s.drop_last());
        assert(entries_map(t) == entries_map(s.drop_last()).insert(e.key, e.slot));
        assert(entries_map(t) =~= entries_map(s).insert(e.key, e.slot));
    } else {
        assert(t.drop_last() =~= s.drop_last().update(i, e));
        lemma_entries_map_update(s.drop_last(), i, e);
        assert(s.last().key != e.key);
        assert(entries_map(t) == entries_map(s.drop_last()).insert(e.key, e.slot).insert(
            s.last().key,
            s.last().slot,
        ));
        assert(entries_map(t) =~= entries_map(s).insert(e.key, e.slot));
    }
}

/// The mapping-level effect of every same-key replacement of the entry at
/// `i`, stated for all replacement entries so that it is available when the
/// replacement is only known once an outstanding mutable borrow ends.
pub proof fn lemma_entries_map_update_all<T>(s: Seq<Entry<T>>, i: int)
    requires
        unique_keys(s),
        0 <= i < s.len(),
    ensures
        forall|e: Entry<T>|
            e.key == s[i].key ==> entries_map(#[trigger] s.update(i, e)) == entries_map(s).insert(
                e.key,
                e.slot,
            ) && unique_keys(s.update(i, e)),
        forall|e: Entry<T>|
            e.key == s[i].key && e.slot.wf() && slots_wf(s) ==> slots_wf(#[trigger] s.update(i, e)),
{
    assert forall|e: Entry<T>| e.key == s[i].key implies entries_map(#[trigger] s.update(i, e))
        == entries_map(s).insert(e.key, e.slot) && unique_keys(s.update(i, e)) by {
        lemma_entries_map_update(s, i, e);
    }
    assert forall|e: Entry<T>|
        e.key == s[i].key && e.slot.wf() && slots_wf(s) implies slots_wf(
        #[trigger] s.update(i, e),
    ) by {
        let t = s.update(i, e);
        assert(forall|j: int| 0 <= j < t.len() && j != i ==> t[j] == s[j]);
    }
}

/// The directory: thread identity to slot, with at most one slot per
/// identity.
pub struct Directory<T> {
    pub entries: Vec<Entry<T>>,
}

impl<T> View for Directory<T> {
    type V = Map<u64, Slot<T>>;

    open spec fn view(&self) -> Map<u64, Slot<T>> {
        entries_map(self.entries@)
    }
}

impl<T> Directory<T> {
    /// Well-formed: one slot per thread identity, every slot well-formed.
    pub open spec fn wf(self) -> bool {
        unique_keys(self.entries@) && slots_wf(self.entries@)
    }

    /// Create an empty directory: no thread has a slot.
    pub fn new() -> (d: Self)
        ensures
            d.wf(),
            d@ == Map::<u64, Slot<T>>::empty(),
    {
        Directory { entries: Vec::new() }
    }

    /// Locate the entry holding `key`, if any.
    fn find(&self, key: u64) -> (r: Option<usize>)
        ensures
            match r {
                Some(i) => i < self.entries@.len() && self.entries@[i as int].key == key,
                None => forall|i: int|
                    0 <= i < self.entries@.len() ==> (#[trigger] self.entries@[i]).key != key,
            },
    {
        let mut i: usize = 0;
        while i < self.entries.len()
            invariant
                i <= self.entries@.len(),
                forall|j: int| 0 <= j < i ==> (#[trigger] self.entries@[j]).key != key,
            decreases self.entries@.len() - i,
        {
            if self.entries[i].key == key {
                return Some(i);
            }
            i = i + 1;
        }
        None
    }

    /// Look up the slot of the thread `key`, without creating one.
    pub fn get_slot<'a>(&'a self, key: u64) -> (r: Option<&'a Slot<T>>)
        requires
            self.wf(),
        ensures
            r is Some <==> self@.dom().contains(key),
            r matches Some(s) ==> *s == self@[key] && s.wf(),
    {
        match self.find(key) {
            Some(i) => {
                proof {
                    lemma_entries_map_at(self.entries@, i as int);
                }
                Some(&self.entries[i].slot)
            },
            None => {
                proof {
                    lemma_entries_map_contains(self.entries@, key);
                }
                None
            },
        }
    }

    /// Ensure the thread `key` has a slot, creating an empty one (no value
    /// set, no outstanding access) when it has none.  A slot that already
    /// exists is left exactly as it is.
    pub fn get_or_create_slot(&mut self, key: u64)
        requires
            old(self).wf(),
        ensures
            final(self).wf(),
            final(self)@.dom().contains(key),
            old(self)@.dom().contains(key) ==> final(self)@ == old(self)@,
            !old(self)@.dom().contains(key) ==> final(self)@ == old(self)@.insert(
                key,
                Slot::<T>::new_spec(),
            ),
    {
        match self.find(key) {
            Some(i) => {
                proof {
                    lemma_entries_map_at(self.entries@, i as int);
                }
            },
            None => {
                proof {
                    lemma_entries_map_contains(self.entries@, key);
                    lemma_entries_map_push(self.entries@, Entry { key, slot: Slot::<T>::new_spec() });
                }
                self.entries.push(Entry { key, slot: Slot::new() });
                proof {
                    let s = old(self).entries@;
                    let t = self.entries@;
                    assert(forall|j: int| 0 <= j < s.len() ==> t[j] == s[j]);
                    assert(t[t.len() - 1].key == key);
                    assert(unique_keys(t));
                    assert(slots_wf(t));
                }
            },
        }
    }

    /// Replace the borrow-check state of the slot of the thread `key`,
    /// leaving its value and every other slot untouched.
    pub fn set_state(&mut self, key: u64, st: BorrowState)
        requires
            old(self).wf(),
            old(self)@.dom().contains(key),
            st.wf(),
        ensures
            final(self).wf(),
            final(self)@ == old(self)@.insert(
                key,
                Slot { value: old(self)@[key].value, state: st },
            ),
    {
        match self.find(key) {
            Some(i) => {
                proof {
                    lemma_entries_map_at(self.entries@, i as int);
                    lemma_entries_map_update_all(self.entries@, i as int);
                }
                self.entries[i].slot.state = st;
            },
            None => {
                proof {
                    lemma_entries_map_contains(self.entries@, key);
                }
            },
        }
    }

    /// Mutable access to the value of the slot of the thread `key`.  The
    /// final mapping holds whatever the caller leaves behind the returned
    /// reference, under the same key and borrow-check state.
    pub fn value_mut<'a>(&'a mut self, key: u64) -> (v: &'a mut Option<T>)
        requires
            old(self).wf(),
            old(self)@.dom().contains(key),
        ensures
            *v == old(self)@[key].value,
            final(self)@ == old(self)@.insert(
                key,
                Slot { value: *final(v), state: old(self)@[key].state },
            ),
            final(self).wf(),
    {
        match self.find(key) {
            Some(i) => {
                proof {
                    lemma_entries_map_at(self.entries@, i as int);
                    lemma_entries_map_update_all(self.entries@, i as int);
                }
                &mut self.entries[i].slot.value
            },
            None => {
                proof {
                    lemma_entries_map_contains(self.entries@, key);
                }
                vstd::pervasive::unreached()
            },
        }
    }
}

} // verus!
