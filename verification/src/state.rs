//! The ledger's state: instance-scoped configuration (administrator, pause
//! flag, venue addresses, counters) plus the per-entity record stores, with
//! the well-formedness invariant every operation preserves and the
//! administrative operations.

use vstd::prelude::*;
use crate::errors::SaveXError;
use crate::store::{Entry, RecordStore};
use crate::types::{
    Package, RateLock, Transfer, MAX_RATE_LOCK_DURATION, spec_package_discount_bps,
};

verus! {

/// Mathematical model of the whole ledger state, used by every contract.
#[verifier::ext_equal]
pub struct StateModel {
    /// Administrator account, absent until initialization.
    pub admin: Option<u64>,
    /// While set, every mutating user operation is refused.
    pub paused: bool,
    /// Address of the external swap venue's router, if configured.
    pub router: Option<u64>,
    /// Address of the external swap venue's pool-discovery service.
    pub factory: Option<u64>,
    /// How many package subscriptions have ever been made.
    pub package_count: u64,
    /// Transfer records, id `i + 1` at index `i`.
    pub transfers: Seq<Entry<Transfer>>,
    /// Rate-lock records, id `i + 1` at index `i`.
    pub rate_locks: Seq<Entry<RateLock>>,
    /// Package records, one per owner.
    pub packages: Seq<Entry<Package>>,
}

/// A transfer record as stored under identifier `id` is well formed: it
/// carries its identifier, a positive amount, and a time bound whenever it is
/// still waiting in custody.
pub open spec fn transfer_record_ok(t: Transfer, id: int) -> bool {
    &&& t.id == id
    &&& t.amount > 0
    &&& (t.status is Locked ==> (t.mode is Scheduled || t.mode is SplitScheduled))
}

/// A rate-lock record as stored under identifier `id` is well formed:
/// positive rate and ceiling, and an expiry within the 24-hour cap of its
/// creation time.
pub open spec fn rate_lock_record_ok(r: RateLock, id: int) -> bool {
    &&& r.id == id
    &&& r.amount > 0
    &&& r.locked_rate > 0
    &&& r.created_at <= r.expiry
    &&& r.expiry - r.created_at <= MAX_RATE_LOCK_DURATION
}

/// A package record is well formed: its dates are ordered and its discount
/// rate is exactly the one its tier grants.
pub open spec fn package_record_ok(p: Package) -> bool {
    &&& p.start_date <= p.end_date
    &&& p.discount_rate == spec_package_discount_bps(p.package_type)
}

/// The ledger invariant: every stored record is well formed under its
/// identifier, and no two package records share an owner.
pub open spec fn state_wf(s: StateModel) -> bool {
    &&& forall|i: int|
        0 <= i < s.transfers.len() ==> transfer_record_ok((#[trigger] s.transfers[i]).value, i + 1)
    &&& forall|i: int|
        0 <= i < s.rate_locks.len() ==> rate_lock_record_ok((#[trigger] s.rate_locks[i]).value, i + 1)
    &&& forall|i: int, j: int|
        0 <= i < j < s.packages.len()
            ==> (#[trigger] s.packages[i]).value.owner != (#[trigger] s.packages[j]).value.owner
    &&& forall|i: int|
        0 <= i < s.packages.len() ==> package_record_ok((#[trigger] s.packages[i]).value)
}

/// The state before initialization: no administrator, unpaused, no venue
/// addresses, no records.
pub open spec fn initial_state() -> StateModel {
    StateModel {
        admin: None,
        paused: false,
        router: None,
        factory: None,
        package_count: 0,
        transfers: Seq::empty(),
        rate_locks: Seq::empty(),
        packages: Seq::empty(),
    }
}

/// Outcome of the administrator gate: the ledger must be initialized and the
/// caller must be the administrator.
pub open spec fn spec_admin_check(s: StateModel, caller: u64) -> Result<(), SaveXError> {
    match s.admin {
        None => Err(SaveXError::ConfigurationMissing),
        Some(a) => if caller != a {
            Err(SaveXError::AuthorizationFailure)
        } else {
            Ok(())
        },
    }
}

/// The ledger: instance configuration plus the per-entity record stores.
///
/// Callers are host-authenticated: an operation that takes a caller, sender
/// or owner account relies on the host's authorization mechanism having
/// proved that this account approved the invocation; the core then enforces
/// the record-level identity checks itself.
pub struct SaveXContract {
    pub admin: Option<u64>,
    pub paused: bool,
    pub router: Option<u64>,
    pub factory: Option<u64>,
    pub package_count: u64,
    pub transfers: RecordStore<Transfer>,
    pub rate_locks: RecordStore<RateLock>,
    pub packages: Vec<Entry<Package>>,
}

impl View for SaveXContract {
    type V = StateModel;

    open spec fn view(&self) -> StateModel {
        StateModel {
            admin: self.admin,
            paused: self.paused,
            router: self.router,
            factory: self.factory,
            package_count: self.package_count,
            transfers: self.transfers@,
            rate_locks: self.rate_locks@,
            packages: self.packages@,
        }
    }
}

impl SaveXContract {
    /// A fresh, uninitialized ledger.
    pub fn new() -> (r: Self)
        ensures
            r@ == initial_state(),
            state_wf(r@),
    {
        let r = SaveXContract {
            admin: None,
            paused: false,
            router: None,
            factory: None,
            package_count: 0,
            transfers: RecordStore::new(),
            rate_locks: RecordStore::new(),
            packages: Vec::new(),
        };
        proof {
            assert(r@ =~= initial_state());
        }
        r
    }

    /// Sets the administrator.  Fails with `StateConflict` when an
    /// administrator is already set; otherwise records `admin` and starts the
    /// ledger unpaused.  The host must have authenticated `admin`.
    pub fn initialize(&mut self, admin: u64) -> (r: Result<(), SaveXError>)
        ensures
            r == (if old(self)@.admin is Some {
                Err::<(), SaveXError>(SaveXError::StateConflict)
            } else {
                Ok::<(), SaveXError>(())
            }),
            r is Err ==> final(self)@ == old(self)@,
            r is Ok ==> final(self)@ == (StateModel {
                admin: Some(admin),
                paused: false,
                ..old(self)@
            }),
            state_wf(old(self)@) ==> state_wf(final(self)@),
    {
        if self.admin.is_some() {
            return Err(SaveXError::StateConflict);
        }
        self.admin = Some(admin);
        self.paused = false;
        Ok(())
    }

    /// Whether an administrator has been set.
    pub fn is_initialized(&self) -> (r: bool)
        ensures
            r == (self@.admin is Some),
    {
        self.admin.is_some()
    }

    /// Whether mutating user operations are currently refused.
    pub fn is_paused(&self) -> (r: bool)
        ensures
            r == self@.paused,
    {
        self.paused
    }

    /// Pauses the ledger.  Administrator only.
    pub fn pause(&mut self, caller: u64) -> (r: Result<(), SaveXError>)
        ensures
            r == spec_admin_check(old(self)@, caller),
            r is Err ==> final(self)@ == old(self)@,
            r is Ok ==> final(self)@ == (StateModel { paused: true, ..old(self)@ }),
            state_wf(old(self)@) ==> state_wf(final(self)@),
    {
        match self.admin {
            None => Err(SaveXError::ConfigurationMissing),
            Some(a) => {
                if caller != a {
                    Err(SaveXError::AuthorizationFailure)
                } else {
                    self.paused = true;
                    Ok(())
                }
            },
        }
    }

    /// Unpauses the ledger.  Administrator only.
    pub fn unpause(&mut self, caller: u64) -> (r: Result<(), SaveXError>)
        ensures
            r == spec_admin_check(old(self)@, caller),
            r is Err ==> final(self)@ == old(self)@,
            r is Ok ==> final(self)@ == (StateModel { paused: false, ..old(self)@ }),
            state_wf(old(self)@) ==> state_wf(final(self)@),
    {
        match self.admin {
            None => Err(SaveXError::ConfigurationMissing),
            Some(a) => {
                if caller != a {
                    Err(SaveXError::AuthorizationFailure)
                } else {
                    self.paused = false;
                    Ok(())
                }
            },
        }
    }

    /// Configures the swap venue's router address.  Administrator only.
    pub fn set_router_address(&mut self, caller: u64, router: u64) -> (r: Result<(), SaveXError>)
        ensures
            r == spec_admin_check(old(self)@, caller),
            r is Err ==> final(self)@ == old(self)@,
            r is Ok ==> final(self)@ == (StateModel { router: Some(router), ..old(self)@ }),
            state_wf(old(self)@) ==> state_wf(final(self)@),
    {
        match self.admin {
            None => Err(SaveXError::ConfigurationMissing),
            Some(a) => {
                if caller != a {
                    Err(SaveXError::AuthorizationFailure)
                } else {
                    self.router = Some(router);
                    Ok(())
                }
            },
        }
    }

    /// The configured router address, or `ConfigurationMissing`.
    pub fn get_router_address(&self) -> (r: Result<u64, SaveXError>)
        ensures
            r == (match self@.router {
                Some(a) => Ok::<u64, SaveXError>(a),
                None => Err::<u64, SaveXError>(SaveXError::ConfigurationMissing),
            }),
    {
        match self.router {
            Some(a) => Ok(a),
            None => Err(SaveXError::ConfigurationMissing),
        }
    }

    /// Configures the swap venue's pool-discovery address.  Administrator
    /// only.
    pub fn set_factory_address(&mut self, caller: u64, factory: u64) -> (r: Result<(), SaveXError>)
        ensures
            r == spec_admin_check(old(self)@, caller),
            r is Err ==> final(self)@ == old(self)@,
            r is Ok ==> final(self)@ == (StateModel { factory: Some(factory), ..old(self)@ }),
            state_wf(old(self)@) ==> state_wf(final(self)@),
    {
        match self.admin {
            None => Err(SaveXError::ConfigurationMissing),
            Some(a) => {
                if caller != a {
                    Err(SaveXError::AuthorizationFailure)
                } else {
                    self.factory = Some(factory);
                    Ok(())
                }
            },
        }
    }

    /// The configured pool-discovery address, or `ConfigurationMissing`.
    pub fn get_factory_address(&self) -> (r: Result<u64, SaveXError>)
        ensures
            r == (match self@.factory {
                Some(a) => Ok::<u64, SaveXError>(a),
                None => Err::<u64, SaveXError>(SaveXError::ConfigurationMissing),
            }),
    {
        match self.factory {
            Some(a) => Ok(a),
            None => Err(SaveXError::ConfigurationMissing),
        }
    }
}

} // verus!
