// The transfer / rate-lock / package lifecycle, driven as the host would
// drive it: operations take the ledger time, and the returned token
// movements are applied to an in-memory custody fake to check balances.

use savex::errors::SaveXError;
use savex::state::SaveXContract;
use savex::types::{PackageType, Party, TokenMovement, TransferStatus, TransferType};

struct Balances {
    entries: Vec<(u64, Party, i128)>,
}

impl Balances {
    fn new() -> Balances {
        Balances { entries: Vec::new() }
    }

    fn get(&self, token: u64, party: Party) -> i128 {
        for (t, p, amount) in &self.entries {
            if *t == token && *p == party {
                return *amount;
            }
        }
        0
    }

    fn credit(&mut self, token: u64, party: Party, amount: i128) {
        for entry in &mut self.entries {
            if entry.0 == token && entry.1 == party {
                entry.2 += amount;
                return;
            }
        }
        self.entries.push((token, party, amount));
    }

    fn apply(&mut self, m: &TokenMovement) {
        assert!(m.amount >= 0, "movement amounts are never negative");
        assert!(self.get(m.token, m.from) >= m.amount, "insufficient balance");
        self.credit(m.token, m.from, -m.amount);
        self.credit(m.token, m.to, m.amount);
    }
}

const ADMIN: u64 = 1;
const USER1: u64 = 2;
const USER2: u64 = 3;
const TOKEN: u64 = 10;

#[test]
fn test_initialize() {
    let mut ledger = SaveXContract::new();
    assert!(ledger.initialize(ADMIN).is_ok());
    assert!(ledger.is_initialized());
}

#[test]
fn test_double_initialize() {
    let mut ledger = SaveXContract::new();
    assert!(ledger.initialize(ADMIN).is_ok());
    assert_eq!(ledger.initialize(ADMIN), Err(SaveXError::StateConflict));
}

#[test]
fn test_immediate_transfer() {
    let mut ledger = SaveXContract::new();
    ledger.initialize(ADMIN).unwrap();
    let mut balances = Balances::new();
    balances.credit(TOKEN, Party::Account(USER1), 1000);

    let (transfer_id, movement) = ledger
        .transfer_immediate(USER1, USER2, TOKEN, 100, 0)
        .unwrap();
    balances.apply(&movement);

    assert_eq!(transfer_id, 1);
    assert_eq!(balances.get(TOKEN, Party::Account(USER1)), 900);
    assert_eq!(balances.get(TOKEN, Party::Account(USER2)), 100);

    let transfer = ledger.get_transfer(transfer_id, 0).unwrap();
    assert_eq!(transfer.amount, 100);
    assert_eq!(transfer.status, TransferStatus::Completed);
}

#[test]
fn test_scheduled_transfer() {
    let mut ledger = SaveXContract::new();
    ledger.initialize(ADMIN).unwrap();
    let mut balances = Balances::new();
    balances.credit(TOKEN, Party::Account(USER1), 1000);

    let execute_after = 1000 + 3600;
    let (transfer_id, debit) = ledger
        .transfer_scheduled(USER1, USER2, TOKEN, 100, execute_after, 1000)
        .unwrap();
    balances.apply(&debit);

    assert_eq!(transfer_id, 1);
    assert_eq!(balances.get(TOKEN, Party::Account(USER1)), 900);
    assert_eq!(balances.get(TOKEN, Party::Custody), 100);

    let transfer = ledger.get_transfer(transfer_id, 1000).unwrap();
    assert_eq!(transfer.status, TransferStatus::Locked);

    let credit = ledger
        .execute_scheduled_transfer(transfer_id, execute_after + 1)
        .unwrap();
    balances.apply(&credit);

    assert_eq!(balances.get(TOKEN, Party::Account(USER1)), 900);
    assert_eq!(balances.get(TOKEN, Party::Account(USER2)), 100);
    assert_eq!(balances.get(TOKEN, Party::Custody), 0);

    let transfer = ledger.get_transfer(transfer_id, execute_after + 1).unwrap();
    assert_eq!(transfer.status, TransferStatus::Completed);
}

#[test]
fn test_cancel_scheduled_transfer() {
    let mut ledger = SaveXContract::new();
    ledger.initialize(ADMIN).unwrap();
    let mut balances = Balances::new();
    balances.credit(TOKEN, Party::Account(USER1), 1000);

    let execute_after = 1000 + 3600;
    let (transfer_id, debit) = ledger
        .transfer_scheduled(USER1, USER2, TOKEN, 100, execute_after, 1000)
        .unwrap();
    balances.apply(&debit);

    let refund = ledger
        .cancel_scheduled_transfer(USER1, transfer_id, 1000)
        .unwrap();
    balances.apply(&refund);

    assert_eq!(balances.get(TOKEN, Party::Account(USER1)), 1000);
    assert_eq!(balances.get(TOKEN, Party::Custody), 0);

    let transfer = ledger.get_transfer(transfer_id, 1000).unwrap();
    assert_eq!(transfer.status, TransferStatus::Cancelled);
}

#[test]
fn test_rate_lock() {
    let mut ledger = SaveXContract::new();
    ledger.initialize(ADMIN).unwrap();

    let token1: u64 = 21;
    let token2: u64 = 22;
    let locked_rate: i128 = 15000000;
    let amount: i128 = 1000;
    let duration: u64 = 3600;

    let lock_id = ledger
        .lock_rate(USER1, token1, token2, locked_rate, amount, duration, 1000)
        .unwrap();
    assert_eq!(lock_id, 1);

    let rate_lock = ledger.get_rate_lock(lock_id, 1000).unwrap();
    assert_eq!(rate_lock.locked_rate, locked_rate);
    assert_eq!(rate_lock.amount, amount);
    assert_eq!(rate_lock.is_active, true);
    assert_eq!(rate_lock.expiry, 1000 + 3600);
}

#[test]
fn test_cancel_rate_lock() {
    let mut ledger = SaveXContract::new();
    ledger.initialize(ADMIN).unwrap();

    let lock_id = ledger
        .lock_rate(USER1, 21, 22, 15000000, 1000, 3600, 1000)
        .unwrap();
    ledger.cancel_rate_lock(USER1, lock_id, 1000).unwrap();

    let rate_lock = ledger.get_rate_lock(lock_id, 1000).unwrap();
    assert_eq!(rate_lock.is_active, false);
}

#[test]
fn test_pause_unpause() {
    let mut ledger = SaveXContract::new();
    ledger.initialize(ADMIN).unwrap();
    assert!(ledger.pause(ADMIN).is_ok());
    assert!(ledger.is_paused());
    assert!(ledger.unpause(ADMIN).is_ok());
    assert!(!ledger.is_paused());
}

#[test]
fn test_split_transfer() {
    let mut ledger = SaveXContract::new();
    ledger.initialize(ADMIN).unwrap();
    let mut balances = Balances::new();
    balances.credit(TOKEN, Party::Account(USER1), 1000);

    let execute_after = 1000 + 3600;
    let ((immediate_id, scheduled_id), movements) = ledger
        .transfer_split(USER1, USER2, TOKEN, 1000, 50, execute_after, 1000)
        .unwrap();
    for m in &movements {
        balances.apply(m);
    }

    assert_eq!(balances.get(TOKEN, Party::Account(USER2)), 500);
    assert_eq!(balances.get(TOKEN, Party::Custody), 500);

    let immediate_transfer = ledger.get_transfer(immediate_id, 1000).unwrap();
    assert_eq!(immediate_transfer.amount, 500);
    assert_eq!(immediate_transfer.status, TransferStatus::Completed);

    let scheduled_transfer = ledger.get_transfer(scheduled_id, 1000).unwrap();
    assert_eq!(scheduled_transfer.amount, 500);
    assert_eq!(scheduled_transfer.status, TransferStatus::Locked);

    let credit = ledger
        .execute_scheduled_transfer(scheduled_id, execute_after + 1)
        .unwrap();
    balances.apply(&credit);

    assert_eq!(balances.get(TOKEN, Party::Account(USER2)), 1000);
    assert_eq!(balances.get(TOKEN, Party::Custody), 0);
}

#[test]
fn test_batch_transfer() {
    let mut ledger = SaveXContract::new();
    ledger.initialize(ADMIN).unwrap();
    let sender: u64 = 5;
    let recipient1: u64 = 6;
    let recipient2: u64 = 7;
    let recipient3: u64 = 8;
    let mut balances = Balances::new();
    balances.credit(TOKEN, Party::Account(sender), 1000);

    let recipients = vec![recipient1, recipient2, recipient3];
    let amounts: Vec<i128> = vec![100, 200, 300];
    let (transfer_ids, movements) = ledger
        .transfer_batch(sender, &recipients, TOKEN, &amounts, 0)
        .unwrap();
    for m in &movements {
        balances.apply(m);
    }

    assert_eq!(transfer_ids.len(), 3);
    assert_eq!(balances.get(TOKEN, Party::Account(sender)), 400);
    assert_eq!(balances.get(TOKEN, Party::Account(recipient1)), 100);
    assert_eq!(balances.get(TOKEN, Party::Account(recipient2)), 200);
    assert_eq!(balances.get(TOKEN, Party::Account(recipient3)), 300);

    for transfer_id in &transfer_ids {
        let transfer = ledger.get_transfer(*transfer_id, 0).unwrap();
        assert_eq!(transfer.status, TransferStatus::Completed);
        assert_eq!(transfer.transfer_type(), TransferType::Batched);
    }
}

#[test]
fn test_package_subscription() {
    let mut ledger = SaveXContract::new();
    ledger.initialize(ADMIN).unwrap();

    ledger
        .subscribe_package(USER1, PackageType::Family, 30, 1000)
        .unwrap();

    let package = ledger.get_package(USER1, 1000).unwrap();
    assert_eq!(package.package_type, PackageType::Family);
    assert_eq!(package.discount_rate, 1500);
    assert_eq!(package.is_active, true);
    assert_eq!(package.end_date, 1000 + (30 * 86400));
}

#[test]
fn test_cancel_package() {
    let mut ledger = SaveXContract::new();
    ledger.initialize(ADMIN).unwrap();

    ledger
        .subscribe_package(USER1, PackageType::Business, 30, 1000)
        .unwrap();
    ledger.cancel_package(USER1, 1000).unwrap();

    let package = ledger.get_package(USER1, 1000).unwrap();
    assert_eq!(package.is_active, false);
}
