//! Durable record store with refreshable expiries.
//!
//! Records are persisted with an explicit lifetime: every write renews the
//! entry's expiry to a fixed horizon whenever its remaining lifetime has
//! dropped below a threshold, so records that are touched now and then are
//! never evicted.  Expiry is enforced lazily: a read at a time past an
//! entry's `live_until` reports the record as absent, the way the host
//! archives idle entries.

use vstd::prelude::*;
use crate::types::MAX_OPERATING_TIME;

verus! {

/// Lifetime a written entry is renewed to, in seconds (7 days).
pub const STORE_LIFETIME: u64 = 604800;

/// Remaining lifetime under which a write renews the expiry (6 days).
pub const STORE_THRESHOLD: u64 = 518400;

/// A stored record together with the ledger time its storage lives until.
#[derive(Clone, Copy, Debug)]
pub struct Entry<T> {
    pub value: T,
    pub live_until: u64,
}

/// The expiry an entry holds after a write at time `now` renews it: bumped to
/// the full lifetime when the remaining lifetime is below the threshold.
pub open spec fn spec_refreshed_until(live_until: u64, now: u64) -> u64 {
    if live_until < now + STORE_THRESHOLD {
        (now + STORE_LIFETIME) as u64
    } else {
        live_until
    }
}

/// Whether the store holds a live record under `id` at time `now`.
/// Identifiers start at 1 and index the append-only sequence of entries.
pub open spec fn spec_entry_live<T>(entries: Seq<Entry<T>>, id: u64, now: u64) -> bool {
    1 <= id <= entries.len() && now <= entries[id - 1].live_until
}

/// An append-only store of records with monotonically allocated identifiers:
/// the record with identifier `i` sits at index `i - 1`, so the next
/// identifier is always the current length plus one.
#[derive(Clone, Debug)]
pub struct RecordStore<T> {
    pub entries: Vec<Entry<T>>,
}

impl<T> View for RecordStore<T> {
    type V = Seq<Entry<T>>;

    open spec fn view(&self) -> Seq<Entry<T>> {
        self.entries@
    }
}

impl<T: Copy> RecordStore<T> {
    /// An empty store.
    pub fn new() -> (r: Self)
        ensures
            r@ =~= Seq::<Entry<T>>::empty(),
    {
        RecordStore { entries: Vec::new() }
    }

    /// How many records have ever been stored (equivalently, the last
    /// identifier allocated).
    pub fn len(&self) -> (r: usize)
        ensures
            r == self@.len(),
    {
        self.entries.len()
    }

    /// Appends a record written at time `now`, allocating the next
    /// identifier and giving the entry a full storage lifetime.
    pub fn append(&mut self, value: T, now: u64) -> (id: u64)
        requires
            old(self)@.len() + 1 <= u64::MAX,
            now <= MAX_OPERATING_TIME,
        ensures
            id == old(self)@.len() + 1,
            final(self)@ =~= old(self)@.push(
                Entry { value, live_until: (now + STORE_LIFETIME) as u64 },
            ),
    {
        let id: u64 = (self.entries.len() as u64) + 1;
        self.entries.push(Entry { value, live_until: now + STORE_LIFETIME });
        id
    }

    /// Reads the record under `id`, reporting it absent when the identifier
    /// was never allocated or the entry's storage lifetime has passed.
    pub fn get(&self, id: u64, now: u64) -> (r: Option<T>)
        ensures
            r == (if spec_entry_live(self@, id, now) {
                Some(self@[id - 1].value)
            } else {
                None::<T>
            }),
    {
        if id == 0 {
            return None;
        }
        if id > self.entries.len() as u64 {
            return None;
        }
        let idx: usize = (id - 1) as usize;
        let entry = &self.entries[idx];
        if now > entry.live_until {
            None
        } else {
            Some(entry.value)
        }
    }

    /// Overwrites the record under `id` with a write at time `now`, renewing
    /// the entry's expiry when its remaining lifetime is below the threshold.
    pub fn put(&mut self, id: u64, value: T, now: u64)
        requires
            1 <= id <= old(self)@.len(),
            now <= MAX_OPERATING_TIME,
        ensures
            final(self)@ =~= old(self)@.update(
                id - 1,
                Entry {
                    value,
                    live_until: spec_refreshed_until(old(self)@[id - 1].live_until, now),
                },
            ),
    {
        let idx: usize = (id - 1) as usize;
        let old_until = self.entries[idx].live_until;
        let new_until = if old_until < now + STORE_THRESHOLD {
            now + STORE_LIFETIME
        } else {
            old_until
        };
        self.entries.set(idx, Entry { value, live_until: new_until });
    }
}

} // verus!
