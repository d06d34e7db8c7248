use std::collections::HashMap;
use vstd::prelude::*;

verus! {

/// The process-wide table of live connections.
///
/// An opaque numeric handle maps to the entry owning the send-capable
/// half of one session; the caller only ever holds the handle. Handles
/// come from a monotonic counter, so a fresh handle never collides with
/// any currently-live one (numbers may recur only after the entry that
/// held them is gone). The surrounding process keeps the one registry
/// behind a lock; every operation here is a single table step, so no
/// lock is ever held across a suspension point.
pub struct ConnectionRegistry<T> {
    next_handle: u64,
    entries: HashMap<u64, T>,
}

impl<T> View for ConnectionRegistry<T> {
    type V = Map<u64, T>;

    closed spec fn view(&self) -> Map<u64, T> {
        self.entries@
    }
}

impl<T> ConnectionRegistry<T> {
    /// Every live handle was allocated before the counter's current
    /// position.
    pub closed spec fn wf(&self) -> bool {
        forall|h: u64| #[trigger] self.entries@.contains_key(h) ==> h < self.next_handle
    }

    /// The handle the next successful store will return.
    pub closed spec fn spec_next(&self) -> u64 {
        self.next_handle
    }

    /// An empty registry.
    pub fn new() -> (r: ConnectionRegistry<T>)
        ensures
            r.wf(),
            r@ == Map::<u64, T>::empty(),
            r.spec_next() == 0,
    {
        ConnectionRegistry { next_handle: 0, entries: HashMap::new() }
    }

    /// Whether another handle can still be allocated: the counter has
    /// not yet reached its last value.
    pub fn can_allocate(&self) -> (r: bool)
        ensures
            r == (self.spec_next() < u64::MAX),
    {
        self.next_handle < u64::MAX
    }

    /// Stores a live entry and hands back a fresh handle: one that no
    /// currently-live entry holds.
    pub fn store_connection(&mut self, entry: T) -> (h: u64)
        requires
            old(self).wf(),
            old(self).spec_next() < u64::MAX,
        ensures
            final(self).wf(),
            h == old(self).spec_next(),
            !old(self)@.contains_key(h),
            final(self)@ == old(self)@.insert(h, entry),
            final(self).spec_next() == h + 1,
    {
        let h = self.next_handle;
        self.next_handle = h + 1;
        self.entries.insert(h, entry);
        h
    }

    /// Looks a handle up; yields a shared reference to the live entry,
    /// or nothing when the handle is absent (already closed, or never
    /// existed).
    pub fn get_connection(&self, handle: u64) -> (r: Option<&T>)
        ensures
            match r {
                Some(entry) => self@.contains_key(handle) && *entry == self@[handle],
                None => !self@.contains_key(handle),
            },
    {
        self.entries.get(&handle)
    }

    /// Removes a handle; idempotent. Reports whether an entry was
    /// actually removed.
    pub fn remove_connection(&mut self, handle: u64) -> (removed: bool)
        requires
            old(self).wf(),
        ensures
            final(self).wf(),
            final(self)@ == old(self)@.remove(handle),
            removed == old(self)@.contains_key(handle),
            final(self).spec_next() == old(self).spec_next(),
    {
        self.entries.remove(&handle).is_some()
    }

    /// Removes a handle and yields its entry, so a close can tear the
    /// session down after the registry has already let the handle go.
    pub fn take_connection(&mut self, handle: u64) -> (r: Option<T>)
        requires
            old(self).wf(),
        ensures
            final(self).wf(),
            final(self)@ == old(self)@.remove(handle),
            final(self).spec_next() == old(self).spec_next(),
            match r {
                Some(entry) => old(self)@.contains_key(handle) && entry == old(self)@[handle],
                None => !old(self)@.contains_key(handle),
            },
    {
        self.entries.remove(&handle)
    }
}

/// Distinctness of handles: a store's handle is fresh, so the handles
/// of two consecutive stores differ, and the second is not live even
/// after the first entry went in. The `requires` restates what
/// `store_connection` ensures about the first store.
pub proof fn lemma_distinct_handles<T>(
    reg0: ConnectionRegistry<T>,
    reg1: ConnectionRegistry<T>,
    entry1: T,
    h1: u64,
    h2: u64,
)
    requires
        reg0.wf(),
        reg1.wf(),
        h1 == reg0.spec_next(),
        reg1@ == reg0@.insert(h1, entry1),
        reg1.spec_next() == h1 + 1,
        h2 == reg1.spec_next(),
    ensures
        h1 != h2,
        reg1@.contains_key(h1),
        reg1@[h1] == entry1,
        !reg1@.contains_key(h2),
{
}

/// Permanence of removal: once a close has taken a handle out, looking
/// that handle up in the resulting registry finds nothing, whatever
/// entry it used to hold.
pub proof fn lemma_removed_handle_gone<T>(
    reg0: ConnectionRegistry<T>,
    reg1: ConnectionRegistry<T>,
    handle: u64,
)
    requires
        reg1@ == reg0@.remove(handle),
    ensures
        !reg1@.contains_key(handle),
{
}

} // verus!
