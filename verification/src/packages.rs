//! Time-boxed discount subscriptions, one per owner.

use vstd::prelude::*;
use crate::errors::SaveXError;
use crate::state::{package_record_ok, state_wf, SaveXContract, StateModel};
use crate::store::{spec_refreshed_until, Entry, STORE_LIFETIME, STORE_THRESHOLD};
use crate::types::{
    spec_package_discount_bps, Package, PackageType, MAX_OPERATING_TIME,
    MAX_PACKAGE_DURATION_DAYS, SECONDS_PER_DAY,
};

verus! {

/// Whether some package record belongs to `owner`.
pub open spec fn spec_has_package(pkgs: Seq<Entry<Package>>, owner: u64) -> bool {
    exists|i: int| 0 <= i < pkgs.len() && (#[trigger] pkgs[i]).value.owner == owner
}

/// The index of `owner`'s package record (unique under the ledger
/// invariant).
pub open spec fn spec_package_idx(pkgs: Seq<Entry<Package>>, owner: u64) -> int {
    choose|i: int| 0 <= i < pkgs.len() && (#[trigger] pkgs[i]).value.owner == owner
}

/// The package record `owner` holds live storage for at time `now`, if any.
/// Absence is a valid outcome, not an error: the owner never subscribed, or
/// the record's storage lifetime has passed.
pub open spec fn spec_live_package(pkgs: Seq<Entry<Package>>, owner: u64, now: u64) -> Option<
    Package,
> {
    if spec_has_package(pkgs, owner) && now <= pkgs[spec_package_idx(pkgs, owner)].live_until {
        Some(pkgs[spec_package_idx(pkgs, owner)].value)
    } else {
        None
    }
}

/// Whether `owner` holds a package that blocks a new subscription at `now`:
/// a live record, still flagged active, whose end date has not yet passed.
/// A package is unexpired through its end date: at `now == end_date` it
/// still blocks, exactly as it still earns its discount then.
pub open spec fn spec_package_blocks(pkgs: Seq<Entry<Package>>, owner: u64, now: u64) -> bool {
    match spec_live_package(pkgs, owner, now) {
        Some(p) => p.is_active && now <= p.end_date,
        None => false,
    }
}

/// The package a subscription at `now` creates: the tier's fixed discount
/// rate, an end date exactly `duration_days` days after `now`, and both
/// accumulators reset to zero.
pub open spec fn spec_new_package(
    owner: u64,
    package_type: PackageType,
    duration_days: u32,
    now: u64,
) -> Package {
    Package {
        owner,
        package_type,
        transfer_count: 0,
        total_volume: 0,
        discount_rate: spec_package_discount_bps(package_type),
        start_date: now,
        end_date: (now + duration_days * SECONDS_PER_DAY) as u64,
        is_active: true,
    }
}

/// Step function of subscribing: refused while paused, for a duration
/// outside 1..=365 days, or while an unexpired active package exists;
/// otherwise creates or overwrites `owner`'s record and counts the
/// subscription.
pub open spec fn spec_subscribe_package(
    pre: StateModel,
    owner: u64,
    package_type: PackageType,
    duration_days: u32,
    now: u64,
) -> (StateModel, Result<(), SaveXError>) {
    if pre.paused {
        (pre, Err(SaveXError::StateConflict))
    } else if duration_days == 0 || duration_days > MAX_PACKAGE_DURATION_DAYS {
        (pre, Err(SaveXError::ValidationFailure))
    } else if spec_package_blocks(pre.packages, owner, now) {
        (pre, Err(SaveXError::PreconditionNotMet))
    } else {
        let pkg = spec_new_package(owner, package_type, duration_days, now);
        let pkgs2 = if spec_has_package(pre.packages, owner) {
            let i = spec_package_idx(pre.packages, owner);
            pre.packages.update(
                i,
                Entry {
                    value: pkg,
                    live_until: spec_refreshed_until(pre.packages[i].live_until, now),
                },
            )
        } else {
            pre.packages.push(Entry { value: pkg, live_until: (now + STORE_LIFETIME) as u64 })
        };
        (
            StateModel {
                packages: pkgs2,
                package_count: (pre.package_count + 1) as u64,
                ..pre
            },
            Ok(()),
        )
    }
}

/// Step function of cancelling a subscription: owner only (the record is
/// looked up under the caller), and only while still flagged active; flips
/// the record inactive.
pub open spec fn spec_cancel_package(
    pre: StateModel,
    owner: u64,
    now: u64,
) -> (StateModel, Result<(), SaveXError>) {
    match spec_live_package(pre.packages, owner, now) {
        None => (pre, Err(SaveXError::NotFound)),
        Some(p) => {
            if !p.is_active {
                (pre, Err(SaveXError::StateConflict))
            } else {
                let i = spec_package_idx(pre.packages, owner);
                (
                    StateModel {
                        packages: pre.packages.update(
                            i,
                            Entry {
                                value: Package { is_active: false, ..p },
                                live_until: spec_refreshed_until(pre.packages[i].live_until, now),
                            },
                        ),
                        ..pre
                    },
                    Ok(()),
                )
            }
        },
    }
}

/// Under pairwise-distinct owners, an index holding `owner`'s record is the
/// index the lookup picks.
pub proof fn lemma_package_idx_is(pkgs: Seq<Entry<Package>>, owner: u64, i: int)
    requires
        forall|a: int, b: int|
            0 <= a < b < pkgs.len()
                ==> (#[trigger] pkgs[a]).value.owner != (#[trigger] pkgs[b]).value.owner,
        0 <= i < pkgs.len(),
        pkgs[i].value.owner == owner,
    ensures
        spec_has_package(pkgs, owner),
        spec_package_idx(pkgs, owner) == i,
{
    assert(spec_has_package(pkgs, owner));
    let j = spec_package_idx(pkgs, owner);
    assert(0 <= j < pkgs.len() && pkgs[j].value.owner == owner);
    if j < i {
        assert(pkgs[j].value.owner != pkgs[i].value.owner);
    } else if i < j {
        assert(pkgs[i].value.owner != pkgs[j].value.owner);
    }
}

impl SaveXContract {
    /// The index of `owner`'s package record, if one exists.
    fn find_package(&self, owner: u64) -> (r: Option<usize>)
        ensures
            match r {
                Some(i) => i < self@.packages.len() && self@.packages[i as int].value.owner
                    == owner,
                None => !spec_has_package(self@.packages, owner),
            },
    {
        let mut i: usize = 0;
        let n = self.packages.len();
        while i < n
            invariant
                n == self@.packages.len(),
                i <= n,
                forall|j: int|
                    0 <= j < i ==> (#[trigger] self@.packages[j]).value.owner != owner,
            decreases n - i,
        {
            if self.packages[i].value.owner == owner {
                return Some(i);
            }
            i += 1;
        }
        None
    }

    /// Subscribes `owner` to a package tier for `duration_days` (1..=365)
    /// days.  Refused with `PreconditionNotMet` while an unexpired active
    /// package exists (a package is unexpired through its end date);
    /// subscribing over an expired or inactive one overwrites it and resets
    /// the accumulators.  The host must have authenticated `owner`.
    pub fn subscribe_package(
        &mut self,
        owner: u64,
        package_type: PackageType,
        duration_days: u32,
        now: u64,
    ) -> (r: Result<(), SaveXError>)
        requires
            state_wf(old(self)@),
            old(self)@.package_count < u64::MAX,
            now <= MAX_OPERATING_TIME,
        ensures
            (final(self)@, r) == spec_subscribe_package(
                old(self)@, owner, package_type, duration_days, now,
            ),
            state_wf(final(self)@),
    {
        let ghost pre = self@;
        if self.paused {
            return Err(SaveXError::StateConflict);
        }
        if duration_days == 0 || duration_days > MAX_PACKAGE_DURATION_DAYS {
            return Err(SaveXError::ValidationFailure);
        }
        let found = self.find_package(owner);
        if let Some(i) = found {
            proof {
                lemma_package_idx_is(pre.packages, owner, i as int);
            }
            let entry = &self.packages[i];
            if now <= entry.live_until && entry.value.is_active && now <= entry.value.end_date {
                return Err(SaveXError::PreconditionNotMet);
            }
        }
        let discount_rate: u32 = match package_type {
            PackageType::Family => 1500,
            PackageType::Business => 2000,
            PackageType::Premium => 2500,
        };
        let pkg = Package {
            owner,
            package_type,
            transfer_count: 0,
            total_volume: 0,
            discount_rate,
            start_date: now,
            end_date: now + (duration_days as u64) * SECONDS_PER_DAY,
            is_active: true,
        };
        match found {
            Some(i) => {
                let old_until = self.packages[i].live_until;
                let new_until = if old_until < now + STORE_THRESHOLD {
                    now + STORE_LIFETIME
                } else {
                    old_until
                };
                self.packages.set(i, Entry { value: pkg, live_until: new_until });
                proof {
                    lemma_wf_after_package_update(pre, self@, i as int, pkg);
                }
            },
            None => {
                self.packages.push(Entry { value: pkg, live_until: now + STORE_LIFETIME });
                proof {
                    lemma_wf_after_package_push(pre, self@, pkg);
                }
            },
        }
        self.package_count = self.package_count + 1;
        proof {
            assert(self@ =~= spec_subscribe_package(pre, owner, package_type, duration_days, now).0);
        }
        Ok(())
    }

    /// Reads `owner`'s package record; `None` when the owner never
    /// subscribed or the record's storage lifetime has passed.
    pub fn get_package(&self, owner: u64, now: u64) -> (r: Option<Package>)
        requires
            state_wf(self@),
        ensures
            r == spec_live_package(self@.packages, owner, now),
    {
        match self.find_package(owner) {
            None => None,
            Some(i) => {
                proof {
                    lemma_package_idx_is(self@.packages, owner, i as int);
                }
                let entry = &self.packages[i];
                if now <= entry.live_until {
                    Some(entry.value)
                } else {
                    None
                }
            },
        }
    }

    /// Cancels `owner`'s subscription: requires a live record still flagged
    /// active; flips it inactive.  The host must have authenticated `owner`.
    pub fn cancel_package(&mut self, owner: u64, now: u64) -> (r: Result<(), SaveXError>)
        requires
            state_wf(old(self)@),
            now <= MAX_OPERATING_TIME,
        ensures
            (final(self)@, r) == spec_cancel_package(old(self)@, owner, now),
            state_wf(final(self)@),
    {
        let ghost pre = self@;
        let found = self.find_package(owner);
        let i = match found {
            None => return Err(SaveXError::NotFound),
            Some(i) => i,
        };
        proof {
            lemma_package_idx_is(pre.packages, owner, i as int);
        }
        let entry = &self.packages[i];
        if now > entry.live_until {
            return Err(SaveXError::NotFound);
        }
        if !entry.value.is_active {
            return Err(SaveXError::StateConflict);
        }
        let updated = Package { is_active: false, ..entry.value };
        let old_until = self.packages[i].live_until;
        let new_until = if old_until < now + STORE_THRESHOLD {
            now + STORE_LIFETIME
        } else {
            old_until
        };
        self.packages.set(i, Entry { value: updated, live_until: new_until });
        proof {
            lemma_wf_after_package_update(pre, self@, i as int, updated);
            assert(self@ =~= spec_cancel_package(pre, owner, now).0);
        }
        Ok(())
    }
}

/// Overwriting `owner`'s record with a well-formed package of the same owner
/// preserves the ledger invariant.
pub proof fn lemma_wf_after_package_update(pre: StateModel, post: StateModel, i: int, pkg: Package)
    requires
        state_wf(pre),
        0 <= i < pre.packages.len(),
        package_record_ok(pkg),
        pkg.owner == pre.packages[i].value.owner,
        post.packages.len() == pre.packages.len(),
        forall|j: int| 0 <= j < pre.packages.len() && j != i
            ==> #[trigger] post.packages[j] == pre.packages[j],
        post.packages[i].value == pkg,
        post.transfers == pre.transfers,
        post.rate_locks == pre.rate_locks,
    ensures
        state_wf(post),
{
}

/// Appending a well-formed package for an owner with no existing record
/// preserves the ledger invariant.
pub proof fn lemma_wf_after_package_push(pre: StateModel, post: StateModel, pkg: Package)
    requires
        state_wf(pre),
        package_record_ok(pkg),
        !spec_has_package(pre.packages, pkg.owner),
        post.packages.len() == pre.packages.len() + 1,
        forall|j: int| 0 <= j < pre.packages.len()
            ==> #[trigger] post.packages[j] == pre.packages[j],
        post.packages[pre.packages.len() as int].value == pkg,
        post.transfers == pre.transfers,
        post.rate_locks == pre.rate_locks,
    ensures
        state_wf(post),
{
    assert forall|a: int, b: int| 0 <= a < b < post.packages.len()
        implies (#[trigger] post.packages[a]).value.owner
            != (#[trigger] post.packages[b]).value.owner by {
        if b == pre.packages.len() as int {
            if post.packages[a].value.owner == pkg.owner {
                assert(pre.packages[a].value.owner == pkg.owner);
                assert(spec_has_package(pre.packages, pkg.owner));
            }
        }
    }
}

} // verus!
