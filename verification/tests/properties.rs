// Scenario checks for the ledger's laws: exact split arithmetic, batch
// all-or-nothing, the scheduled-transfer and rate-lock time boundaries,
// package exclusivity, storage lifetimes, and one test per error variant.

use savex::errors::SaveXError;
use savex::state::SaveXContract;
use savex::types::{PackageType, Party, TransferMode, TransferStatus};

const ADMIN: u64 = 1;
const USER1: u64 = 2;
const USER2: u64 = 3;
const STRANGER: u64 = 4;
const TOKEN: u64 = 10;

fn fresh_ledger() -> SaveXContract {
    let mut ledger = SaveXContract::new();
    ledger.initialize(ADMIN).unwrap();
    ledger
}

#[test]
fn split_legs_always_sum_to_total() {
    // floor(total * pct / 100) now, the exact remainder later.
    let cases: Vec<(i128, u32, i128, i128)> = vec![
        (1000, 33, 330, 670),
        (1000, 50, 500, 500),
        (999, 50, 499, 500),
        (1, 99, 0, 1),
        (7, 100, 7, 0),
    ];
    for (total, pct, expect_now, expect_later) in cases {
        let mut ledger = fresh_ledger();
        let ((imm_id, sched_id), movements) = ledger
            .transfer_split(USER1, USER2, TOKEN, total, pct, 2000, 1000)
            .unwrap();
        let mut moved_now: i128 = 0;
        let mut moved_later: i128 = 0;
        for m in &movements {
            match m.to {
                Party::Account(a) => {
                    assert_eq!(a, USER2);
                    moved_now += m.amount;
                },
                Party::Custody => moved_later += m.amount,
            }
        }
        assert_eq!(moved_now, expect_now, "immediate leg of {} at {}%", total, pct);
        assert_eq!(moved_later, expect_later, "scheduled leg of {} at {}%", total, pct);
        assert_eq!(moved_now + moved_later, total);
        // A zero-amount leg is skipped: its identifier is the sentinel 0.
        assert_eq!(imm_id == 0, expect_now == 0);
        assert_eq!(sched_id == 0, expect_later == 0);
    }
}

#[test]
fn split_validations() {
    let mut ledger = fresh_ledger();
    assert_eq!(
        ledger.transfer_split(USER1, USER2, TOKEN, 0, 50, 2000, 1000).err(),
        Some(SaveXError::ValidationFailure)
    );
    assert_eq!(
        ledger.transfer_split(USER1, USER2, TOKEN, 1000, 101, 2000, 1000).err(),
        Some(SaveXError::ValidationFailure)
    );
    assert_eq!(
        ledger.transfer_split(USER1, USER2, TOKEN, 1000, 50, 1000, 1000).err(),
        Some(SaveXError::ValidationFailure)
    );
}

#[test]
fn batch_is_all_or_nothing() {
    let mut ledger = fresh_ledger();
    // One non-positive amount anywhere refuses the whole batch: no record
    // is stored and no movement is produced.
    let recipients = vec![USER2, STRANGER, USER2];
    let amounts: Vec<i128> = vec![100, -5, 300];
    assert_eq!(
        ledger.transfer_batch(USER1, &recipients, TOKEN, &amounts, 0).err(),
        Some(SaveXError::ValidationFailure)
    );
    assert_eq!(ledger.get_transfer(1, 0).err(), Some(SaveXError::NotFound));

    // A valid batch settles in input order with increasing identifiers.
    let amounts_ok: Vec<i128> = vec![100, 5, 300];
    let (ids, movements) = ledger
        .transfer_batch(USER1, &recipients, TOKEN, &amounts_ok, 0)
        .unwrap();
    assert_eq!(ids, vec![1, 2, 3]);
    assert_eq!(movements.len(), 3);
    for (i, m) in movements.iter().enumerate() {
        assert_eq!(m.amount, amounts_ok[i]);
        assert_eq!(m.to, Party::Account(recipients[i]));
    }
}

#[test]
fn batch_size_limits() {
    let mut ledger = fresh_ledger();
    let empty: Vec<u64> = Vec::new();
    let no_amounts: Vec<i128> = Vec::new();
    assert_eq!(
        ledger.transfer_batch(USER1, &empty, TOKEN, &no_amounts, 0).err(),
        Some(SaveXError::ValidationFailure)
    );
    // Mismatched lengths are refused.
    let one = vec![USER2];
    let two: Vec<i128> = vec![1, 2];
    assert_eq!(
        ledger.transfer_batch(USER1, &one, TOKEN, &two, 0).err(),
        Some(SaveXError::ValidationFailure)
    );
    // Fifty entries pass, fifty-one are refused.
    let fifty: Vec<u64> = (0..50).map(|i| 100 + i).collect();
    let fifty_amounts: Vec<i128> = (0..50).map(|_| 1).collect();
    assert!(ledger.transfer_batch(USER1, &fifty, TOKEN, &fifty_amounts, 0).is_ok());
    let fifty_one: Vec<u64> = (0..51).map(|i| 100 + i).collect();
    let fifty_one_amounts: Vec<i128> = (0..51).map(|_| 1).collect();
    assert_eq!(
        ledger.transfer_batch(USER1, &fifty_one, TOKEN, &fifty_one_amounts, 0).err(),
        Some(SaveXError::ValidationFailure)
    );
}

#[test]
fn scheduled_transfer_time_boundary() {
    let mut ledger = fresh_ledger();
    let (id, _debit) = ledger
        .transfer_scheduled(USER1, USER2, TOKEN, 100, 4600, 1000)
        .unwrap();
    // Before the bound: refused, and still Locked.
    assert_eq!(
        ledger.execute_scheduled_transfer(id, 4599).err(),
        Some(SaveXError::PreconditionNotMet)
    );
    assert_eq!(ledger.get_transfer(id, 4599).unwrap().status, TransferStatus::Locked);
    // At the bound: the custody amount moves exactly once.
    let credit = ledger.execute_scheduled_transfer(id, 4600).unwrap();
    assert_eq!(credit.amount, 100);
    assert_eq!(credit.from, Party::Custody);
    assert_eq!(credit.to, Party::Account(USER2));
    // Afterwards: the record is terminal.
    assert_eq!(
        ledger.execute_scheduled_transfer(id, 4601).err(),
        Some(SaveXError::StateConflict)
    );
}

#[test]
fn cancel_refunds_exactly_once() {
    let mut ledger = fresh_ledger();
    let (id, _debit) = ledger
        .transfer_scheduled(USER1, USER2, TOKEN, 100, 4600, 1000)
        .unwrap();
    // Only the original sender may cancel.
    assert_eq!(
        ledger.cancel_scheduled_transfer(STRANGER, id, 1000).err(),
        Some(SaveXError::AuthorizationFailure)
    );
    let refund = ledger.cancel_scheduled_transfer(USER1, id, 1000).unwrap();
    assert_eq!(refund.to, Party::Account(USER1));
    assert_eq!(refund.amount, 100);
    // A second cancellation, or executing the cancelled record, is refused.
    assert_eq!(
        ledger.cancel_scheduled_transfer(USER1, id, 1001).err(),
        Some(SaveXError::StateConflict)
    );
    assert_eq!(
        ledger.execute_scheduled_transfer(id, 4600).err(),
        Some(SaveXError::StateConflict)
    );
}

#[test]
fn cancel_completed_transfer_is_refused() {
    let mut ledger = fresh_ledger();
    let (id, _debit) = ledger
        .transfer_scheduled(USER1, USER2, TOKEN, 100, 4600, 1000)
        .unwrap();
    ledger.execute_scheduled_transfer(id, 4600).unwrap();
    assert_eq!(
        ledger.cancel_scheduled_transfer(USER1, id, 4601).err(),
        Some(SaveXError::StateConflict)
    );
}

#[test]
fn rate_lock_expiry_boundary() {
    let mut ledger = fresh_ledger();
    // Created at 1000 with a duration of 3600: expiry is exactly 4600.
    let lock_id = ledger
        .lock_rate(USER1, 21, 22, 15000000, 1000, 3600, 1000)
        .unwrap();
    assert_eq!(ledger.get_rate_lock(lock_id, 1000).unwrap().expiry, 4600);
    // Consuming at 4600 succeeds; at 4601 the lock has expired.
    let (transfer_id, movement) = ledger
        .transfer_with_rate_lock(USER1, USER2, TOKEN, 500, lock_id, 4600)
        .unwrap();
    assert_eq!(movement.amount, 500);
    let rec = ledger.get_transfer(transfer_id, 4600).unwrap();
    assert!(matches!(rec.mode, TransferMode::Immediate { rate_lock_id: Some(l) } if l == lock_id));
    assert_eq!(
        ledger.transfer_with_rate_lock(USER1, USER2, TOKEN, 500, lock_id, 4601).err(),
        Some(SaveXError::PreconditionNotMet)
    );
}

#[test]
fn rate_lock_guards() {
    let mut ledger = fresh_ledger();
    let lock_id = ledger
        .lock_rate(USER1, 21, 22, 15000000, 1000, 3600, 1000)
        .unwrap();
    // The ceiling is never debited, but a single transfer may not exceed it.
    assert_eq!(
        ledger.transfer_with_rate_lock(USER1, USER2, TOKEN, 1001, lock_id, 2000).err(),
        Some(SaveXError::PreconditionNotMet)
    );
    // Only the owner may consume the lock.
    assert_eq!(
        ledger.transfer_with_rate_lock(STRANGER, USER2, TOKEN, 500, lock_id, 2000).err(),
        Some(SaveXError::AuthorizationFailure)
    );
    // An unknown lock is not found; a cancelled lock conflicts.
    assert_eq!(
        ledger.transfer_with_rate_lock(USER1, USER2, TOKEN, 500, 99, 2000).err(),
        Some(SaveXError::NotFound)
    );
    ledger.cancel_rate_lock(USER1, lock_id, 2000).unwrap();
    assert_eq!(
        ledger.transfer_with_rate_lock(USER1, USER2, TOKEN, 500, lock_id, 2000).err(),
        Some(SaveXError::StateConflict)
    );
    assert_eq!(
        ledger.cancel_rate_lock(USER1, lock_id, 2000).err(),
        Some(SaveXError::StateConflict)
    );
    // One lock may back several consuming transfers up to its ceiling each.
    let lock2 = ledger
        .lock_rate(USER1, 21, 22, 15000000, 1000, 3600, 2000)
        .unwrap();
    assert!(ledger.transfer_with_rate_lock(USER1, USER2, TOKEN, 1000, lock2, 2100).is_ok());
    assert!(ledger.transfer_with_rate_lock(USER1, USER2, TOKEN, 1000, lock2, 2200).is_ok());
    // The duration is capped at 24 hours.
    assert_eq!(
        ledger.lock_rate(USER1, 21, 22, 15000000, 1000, 86401, 2000).err(),
        Some(SaveXError::ValidationFailure)
    );
}

#[test]
fn package_exclusivity_and_reset() {
    let mut ledger = fresh_ledger();
    // Five days: the whole subscription fits inside the record's seven-day
    // storage lifetime, so the record stays live to its end date.
    ledger
        .subscribe_package(USER1, PackageType::Family, 5, 1000)
        .unwrap();
    let end = 1000 + 5 * 86400;
    // While active and unexpired, a second subscription is refused — and a
    // package is unexpired through its end date, boundary included.
    assert_eq!(
        ledger.subscribe_package(USER1, PackageType::Premium, 30, end - 1).err(),
        Some(SaveXError::PreconditionNotMet)
    );
    assert_eq!(
        ledger.subscribe_package(USER1, PackageType::Premium, 30, end).err(),
        Some(SaveXError::PreconditionNotMet)
    );
    // Strictly past the end date the package has expired: resubscription
    // wins and resets the accumulators and dates.
    ledger
        .subscribe_package(USER1, PackageType::Premium, 10, end + 1)
        .unwrap();
    let p = ledger.get_package(USER1, end + 1).unwrap();
    assert_eq!(p.package_type, PackageType::Premium);
    assert_eq!(p.discount_rate, 2500);
    assert_eq!(p.transfer_count, 0);
    assert_eq!(p.total_volume, 0);
    assert_eq!(p.start_date, end + 1);
    assert_eq!(p.end_date, end + 1 + 10 * 86400);
    assert!(p.is_active);
}

#[test]
fn package_validations() {
    let mut ledger = fresh_ledger();
    assert_eq!(
        ledger.subscribe_package(USER1, PackageType::Family, 0, 1000).err(),
        Some(SaveXError::ValidationFailure)
    );
    assert_eq!(
        ledger.subscribe_package(USER1, PackageType::Family, 366, 1000).err(),
        Some(SaveXError::ValidationFailure)
    );
    // Cancelling without a subscription finds nothing; a cancelled package
    // may be resubscribed at once.
    assert_eq!(ledger.cancel_package(USER1, 1000).err(), Some(SaveXError::NotFound));
    ledger.subscribe_package(USER1, PackageType::Family, 30, 1000).unwrap();
    ledger.cancel_package(USER1, 1500).unwrap();
    assert!(ledger.subscribe_package(USER1, PackageType::Business, 30, 2000).is_ok());
}

#[test]
fn pause_gates_mutating_operations() {
    let mut ledger = SaveXContract::new();
    // Administration needs an administrator first.
    assert_eq!(ledger.pause(ADMIN).err(), Some(SaveXError::ConfigurationMissing));
    ledger.initialize(ADMIN).unwrap();
    assert_eq!(ledger.pause(STRANGER).err(), Some(SaveXError::AuthorizationFailure));
    ledger.pause(ADMIN).unwrap();
    assert_eq!(
        ledger.transfer_immediate(USER1, USER2, TOKEN, 100, 0).err(),
        Some(SaveXError::StateConflict)
    );
    assert_eq!(
        ledger.lock_rate(USER1, 21, 22, 1, 1, 1, 0).err(),
        Some(SaveXError::StateConflict)
    );
    assert_eq!(
        ledger.subscribe_package(USER1, PackageType::Family, 30, 0).err(),
        Some(SaveXError::StateConflict)
    );
    ledger.unpause(ADMIN).unwrap();
    assert!(ledger.transfer_immediate(USER1, USER2, TOKEN, 100, 0).is_ok());
}

#[test]
fn amount_validation() {
    let mut ledger = fresh_ledger();
    assert_eq!(
        ledger.transfer_immediate(USER1, USER2, TOKEN, 0, 0).err(),
        Some(SaveXError::ValidationFailure)
    );
    assert_eq!(
        ledger.transfer_immediate(USER1, USER2, TOKEN, -7, 0).err(),
        Some(SaveXError::ValidationFailure)
    );
    assert_eq!(
        ledger.transfer_scheduled(USER1, USER2, TOKEN, 100, 1000, 1000).err(),
        Some(SaveXError::ValidationFailure)
    );
}

#[test]
fn storage_lifetime_archives_idle_records() {
    let mut ledger = fresh_ledger();
    let (id, _m) = ledger.transfer_immediate(USER1, USER2, TOKEN, 100, 1000).unwrap();
    // Within the seven-day storage lifetime the record is readable.
    assert!(ledger.get_transfer(id, 1000 + 604800).is_ok());
    // Past it, the record counts as archived.
    assert_eq!(
        ledger.get_transfer(id, 1000 + 604801).err(),
        Some(SaveXError::NotFound)
    );
    // A write within the window renews the lifetime: executing a scheduled
    // transfer keeps its record readable past the original horizon.
    let (sid, _d) = ledger
        .transfer_scheduled(USER1, USER2, TOKEN, 50, 500000, 1000)
        .unwrap();
    ledger.execute_scheduled_transfer(sid, 500000).unwrap();
    assert!(ledger.get_transfer(sid, 1000 + 604801).is_ok());
}

#[test]
fn router_configuration_round_trip() {
    let mut ledger = fresh_ledger();
    assert_eq!(
        ledger.get_router_address().err(),
        Some(SaveXError::ConfigurationMissing)
    );
    assert_eq!(
        ledger.get_factory_address().err(),
        Some(SaveXError::ConfigurationMissing)
    );
    assert_eq!(
        ledger.set_router_address(STRANGER, 900).err(),
        Some(SaveXError::AuthorizationFailure)
    );
    ledger.set_router_address(ADMIN, 900).unwrap();
    ledger.set_factory_address(ADMIN, 901).unwrap();
    assert_eq!(ledger.get_router_address(), Ok(900));
    assert_eq!(ledger.get_factory_address(), Ok(901));
}
