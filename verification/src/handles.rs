//! The callback-interface handle table.
//!
//! When the native side holds a host-implemented interface, it holds only an
//! integer handle; this table maps live handles to host object instances,
//! with insert-on-registration and remove-on-native-free.  Handles start at
//! one — zero stands for no object — and are never reused, so a freed
//! handle can only ever miss, never alias a live object.  The table is
//! shared state: its callers serialize access to it.

use vstd::prelude::*;

verus! {

/// A table of live host objects keyed by the integer handles handed to the
/// native side.
pub struct HandleTable<T> {
    slots: Vec<Option<T>>,
}

/// The object a handle designates in a run of slots, if it is live.
pub open spec fn slot_lookup<T>(slots: Seq<Option<T>>, h: u64) -> Option<T> {
    if 1 <= h <= slots.len() {
        slots[h - 1]
    } else {
        None
    }
}

impl<T> HandleTable<T> {
    /// The slots, one per handle ever issued, in issue order.
    pub closed spec fn slots(&self) -> Seq<Option<T>> {
        self.slots@
    }

    /// The object a handle designates, if it is live.
    pub open spec fn lookup(&self, h: u64) -> Option<T> {
        slot_lookup(self.slots(), h)
    }

    /// An empty table: no handle designates anything.
    pub fn new() -> (r: Self)
        ensures
            r.slots() == Seq::<Option<T>>::empty(),
            forall|h: u64| r.lookup(h) is None,
    {
        HandleTable { slots: Vec::new() }
    }

    /// Register a host object, issuing a fresh handle: the handle was dead
    /// before, designates exactly this object now, and every other handle
    /// is untouched.
    pub fn insert(&mut self, obj: T) -> (h: u64)
        requires
            old(self).slots().len() < 0xffff_ffff_ffff_ffff,
        ensures
            h as int == old(self).slots().len() + 1,
            old(self).lookup(h) is None,
            final(self).lookup(h) matches Some(o) && o == obj,
            forall|h2: u64| h2 != h ==> final(self).lookup(h2) == old(self).lookup(h2),
            final(self).slots() == old(self).slots().push(Some(obj)),
    {
        let h = (self.slots.len() as u64) + 1;
        self.slots.push(Some(obj));
        h
    }

    /// The object a handle designates, or nothing for a dead or never
    /// issued handle.
    pub fn get(&self, h: u64) -> (r: Option<&T>)
        ensures
            match r {
                Some(o) => self.lookup(h) matches Some(x) && x == *o,
                None => self.lookup(h) is None,
            },
    {
        let n = self.slots.len();
        if h >= 1 && h <= n as u64 {
            match &self.slots[(h - 1) as usize] {
                Some(o) => Some(o),
                None => None,
            }
        } else {
            None
        }
    }

    /// Whether a handle designates a live object.
    pub fn is_live(&self, h: u64) -> (r: bool)
        ensures
            r == (self.lookup(h) is Some),
    {
        let n = self.slots.len();
        if h >= 1 && h <= n as u64 {
            self.slots[(h - 1) as usize].is_some()
        } else {
            false
        }
    }

    /// Unregister a handle when the native side frees it: the handle is
    /// dead afterwards, the removed object is returned, every other handle
    /// is untouched, and the handle is never reissued.
    pub fn remove(&mut self, h: u64) -> (r: Option<T>)
        ensures
            match r {
                Some(o) => old(self).lookup(h) matches Some(x) && x == o,
                None => old(self).lookup(h) is None,
            },
            final(self).lookup(h) is None,
            forall|h2: u64| h2 != h ==> final(self).lookup(h2) == old(self).lookup(h2),
            final(self).slots().len() == old(self).slots().len(),
    {
        let n = self.slots.len();
        if h >= 1 && h <= n as u64 {
            let idx = (h - 1) as usize;
            let old_entry = self.slots.remove(idx);
            self.slots.insert(idx, None);
            proof {
                assert(self.slots@ =~= old(self).slots@.update(h - 1, None::<T>));
                assert forall|h2: u64| h2 != h implies slot_lookup(self.slots@, h2)
                    == slot_lookup(old(self).slots@, h2) by {
                    if 1 <= h2 <= self.slots@.len() {
                        assert(self.slots@[h2 - 1] == old(self).slots@[h2 - 1]);
                    }
                };
            }
            old_entry
        } else {
            None
        }
    }
}

} // verus!
