//! Exchange-rate reservations: a rate locked for a bounded duration, to be
//! consumed by rate-lock-backed transfers up to an amount ceiling.

use vstd::prelude::*;
use crate::errors::SaveXError;
use crate::state::{rate_lock_record_ok, state_wf, SaveXContract, StateModel};
use crate::store::{spec_entry_live, spec_refreshed_until, Entry, STORE_LIFETIME};
use crate::types::{RateLock, MAX_OPERATING_TIME, MAX_RATE_LOCK_DURATION};

verus! {

/// Step function of reserving a rate: refused while paused, for non-positive
/// rate or ceiling, or for a duration over the 24-hour cap; otherwise stores
/// an active record expiring exactly `duration_seconds` after `now`.
pub open spec fn spec_lock_rate(
    pre: StateModel,
    owner: u64,
    from_token: u64,
    to_token: u64,
    locked_rate: i128,
    amount: i128,
    duration_seconds: u64,
    now: u64,
) -> (StateModel, Result<u64, SaveXError>) {
    if pre.paused {
        (pre, Err(SaveXError::StateConflict))
    } else if amount <= 0 {
        (pre, Err(SaveXError::ValidationFailure))
    } else if locked_rate <= 0 {
        (pre, Err(SaveXError::ValidationFailure))
    } else if duration_seconds > MAX_RATE_LOCK_DURATION {
        (pre, Err(SaveXError::ValidationFailure))
    } else {
        let id = (pre.rate_locks.len() + 1) as u64;
        let record = RateLock {
            id,
            owner,
            from_token,
            to_token,
            locked_rate,
            amount,
            expiry: (now + duration_seconds) as u64,
            is_active: true,
            created_at: now,
        };
        (
            StateModel {
                rate_locks: pre.rate_locks.push(
                    Entry { value: record, live_until: (now + STORE_LIFETIME) as u64 },
                ),
                ..pre
            },
            Ok(id),
        )
    }
}

/// Step function of cancelling a reservation: owner only, and only while
/// still active; flips the record inactive.
pub open spec fn spec_cancel_rate_lock(
    pre: StateModel,
    owner: u64,
    lock_id: u64,
    now: u64,
) -> (StateModel, Result<(), SaveXError>) {
    if !spec_entry_live(pre.rate_locks, lock_id, now) {
        (pre, Err(SaveXError::NotFound))
    } else {
        let entry = pre.rate_locks[lock_id - 1];
        let rl = entry.value;
        if rl.owner != owner {
            (pre, Err(SaveXError::AuthorizationFailure))
        } else if !rl.is_active {
            (pre, Err(SaveXError::StateConflict))
        } else {
            let updated = RateLock { is_active: false, ..rl };
            (
                StateModel {
                    rate_locks: pre.rate_locks.update(
                        lock_id - 1,
                        Entry {
                            value: updated,
                            live_until: spec_refreshed_until(entry.live_until, now),
                        },
                    ),
                    ..pre
                },
                Ok(()),
            )
        }
    }
}

impl SaveXContract {
    /// Reserves an exchange rate (7 implied decimals) for `duration_seconds`
    /// (at most 24 hours): stores an active reservation expiring exactly
    /// `now + duration_seconds`, owned by `owner`, with `amount` as the
    /// ceiling for consuming transfers.  The host must have authenticated
    /// `owner`.
    pub fn lock_rate(
        &mut self,
        owner: u64,
        from_token: u64,
        to_token: u64,
        locked_rate: i128,
        amount: i128,
        duration_seconds: u64,
        now: u64,
    ) -> (r: Result<u64, SaveXError>)
        requires
            state_wf(old(self)@),
            old(self)@.rate_locks.len() + 1 <= u64::MAX,
            now <= MAX_OPERATING_TIME,
        ensures
            (final(self)@, r) == spec_lock_rate(
                old(self)@, owner, from_token, to_token, locked_rate, amount, duration_seconds, now,
            ),
            state_wf(final(self)@),
    {
        let ghost pre = self@;
        if self.paused {
            return Err(SaveXError::StateConflict);
        }
        if amount <= 0 {
            return Err(SaveXError::ValidationFailure);
        }
        if locked_rate <= 0 {
            return Err(SaveXError::ValidationFailure);
        }
        if duration_seconds > MAX_RATE_LOCK_DURATION {
            return Err(SaveXError::ValidationFailure);
        }
        let id: u64 = (self.rate_locks.len() as u64) + 1;
        let record = RateLock {
            id,
            owner,
            from_token,
            to_token,
            locked_rate,
            amount,
            expiry: now + duration_seconds,
            is_active: true,
            created_at: now,
        };
        self.rate_locks.append(record, now);
        proof {
            assert(self@ =~= spec_lock_rate(
                pre, owner, from_token, to_token, locked_rate, amount, duration_seconds, now,
            ).0);
            lemma_wf_after_rate_lock_push(pre, self@, record);
        }
        Ok(id)
    }

    /// Reads a rate-lock record, failing with `NotFound` when the identifier
    /// was never allocated or the record's storage lifetime has passed.
    pub fn get_rate_lock(&self, lock_id: u64, now: u64) -> (r: Result<RateLock, SaveXError>)
        ensures
            r == (if spec_entry_live(self@.rate_locks, lock_id, now) {
                Ok::<RateLock, SaveXError>(self@.rate_locks[lock_id - 1].value)
            } else {
                Err::<RateLock, SaveXError>(SaveXError::NotFound)
            }),
    {
        match self.rate_locks.get(lock_id, now) {
            Some(rl) => Ok(rl),
            None => Err(SaveXError::NotFound),
        }
    }

    /// Cancels a reservation: only its owner may cancel, and only while it is
    /// still active.  There is no renewal; expiry is otherwise checked lazily
    /// by consumers.  The host must have authenticated `owner`.
    pub fn cancel_rate_lock(&mut self, owner: u64, lock_id: u64, now: u64) -> (r: Result<
        (),
        SaveXError,
    >)
        requires
            state_wf(old(self)@),
            now <= MAX_OPERATING_TIME,
        ensures
            (final(self)@, r) == spec_cancel_rate_lock(old(self)@, owner, lock_id, now),
            state_wf(final(self)@),
    {
        let ghost pre = self@;
        let rl = match self.rate_locks.get(lock_id, now) {
            None => return Err(SaveXError::NotFound),
            Some(rl) => rl,
        };
        if rl.owner != owner {
            return Err(SaveXError::AuthorizationFailure);
        }
        if !rl.is_active {
            return Err(SaveXError::StateConflict);
        }
        let updated = RateLock { is_active: false, ..rl };
        self.rate_locks.put(lock_id, updated, now);
        proof {
            assert(self@ =~= spec_cancel_rate_lock(pre, owner, lock_id, now).0);
            lemma_wf_after_rate_lock_update(pre, self@, lock_id as int, updated);
        }
        Ok(())
    }
}

/// Pushing one well-formed reservation carrying the next identifier
/// preserves the ledger invariant.
proof fn lemma_wf_after_rate_lock_push(pre: StateModel, post: StateModel, record: RateLock)
    requires
        state_wf(pre),
        rate_lock_record_ok(record, pre.rate_locks.len() as int + 1),
        post.rate_locks.len() == pre.rate_locks.len() + 1,
        forall|i: int| 0 <= i < pre.rate_locks.len()
            ==> #[trigger] post.rate_locks[i] == pre.rate_locks[i],
        post.rate_locks[pre.rate_locks.len() as int].value == record,
        post.transfers == pre.transfers,
        post.packages == pre.packages,
    ensures
        state_wf(post),
{
}

/// Overwriting the reservation under `id` with a well-formed record carrying
/// the same identifier preserves the ledger invariant.
proof fn lemma_wf_after_rate_lock_update(pre: StateModel, post: StateModel, id: int, record: RateLock)
    requires
        state_wf(pre),
        1 <= id <= pre.rate_locks.len(),
        rate_lock_record_ok(record, id),
        post.rate_locks.len() == pre.rate_locks.len(),
        forall|i: int| 0 <= i < pre.rate_locks.len() && i != id - 1
            ==> #[trigger] post.rate_locks[i] == pre.rate_locks[i],
        post.rate_locks[id - 1].value == record,
        post.transfers == pre.transfers,
        post.packages == pre.packages,
    ensures
        state_wf(post),
{
}

} // verus!
