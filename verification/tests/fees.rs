// The fee engine: base fee, batch and package discounts, the exact schedule
// figures, and the schedule-savings heuristic.

use savex::fees::{calculate_base_fee, estimate_schedule_savings, standard_fee_structure};
use savex::state::SaveXContract;
use savex::types::{FeeStructure, PackageType};

const ADMIN: u64 = 1;
const USER: u64 = 2;

#[test]
fn test_fee_calculation() {
    let mut ledger = SaveXContract::new();
    ledger.initialize(ADMIN).unwrap();

    let fee1 = ledger.calculate_fee(USER, 10000000, false, 1, 0);
    assert!(fee1.total > 0);

    ledger
        .subscribe_package(USER, PackageType::Premium, 30, 1000)
        .unwrap();

    let fee2 = ledger.calculate_fee(USER, 10000000, false, 1, 1000);
    assert!(fee2.total < fee1.total);
    assert!(fee2.discount > 0);
}

#[test]
fn test_batch_fee_discount() {
    let mut ledger = SaveXContract::new();
    ledger.initialize(ADMIN).unwrap();

    let fee_single = ledger.calculate_fee(USER, 10000000, false, 1, 0);
    let fee_batch = ledger.calculate_fee(USER, 10000000, true, 5, 0);

    assert!(fee_batch.discount > 0);
    assert!(fee_batch.total < fee_single.total);
}

#[test]
fn test_estimate_schedule_savings() {
    // Longer delays yield more savings under the heuristic tier table of
    // 0 / 3 / 5 / 7 / 10 basis points.
    let savings_2h = estimate_schedule_savings(10000, 2);
    let savings_12h = estimate_schedule_savings(10000, 12);
    let savings_24h = estimate_schedule_savings(10000, 24);

    assert!(savings_24h > savings_12h);
    assert!(savings_12h > savings_2h);
    assert_eq!(savings_2h, 3);
    assert_eq!(savings_12h, 7);
    assert_eq!(savings_24h, 10);
    assert_eq!(estimate_schedule_savings(10000, 1), 0);
    assert_eq!(estimate_schedule_savings(10000, 6), 5);
}

#[test]
fn fee_concrete_schedule_no_discounts() {
    // amount = 10,000,000, no batch, no package:
    // base = clamp(1,000,000 + 50,000, 500,000, 100,000,000) = 1,050,000,
    // so the total is 1,050,000 with zero discount.
    let ledger = {
        let mut l = SaveXContract::new();
        l.initialize(ADMIN).unwrap();
        l
    };
    let fee = ledger.calculate_fee(USER, 10000000, false, 1, 0);
    assert_eq!(fee.discount, 0);
    assert_eq!(fee.total, 1050000);
    assert_eq!(fee.network_fee, 525000);
    assert_eq!(fee.service_fee, 525000);
}

#[test]
fn base_fee_clamps_at_both_ends() {
    let fs = standard_fee_structure();
    // Small amount: flat 1,000,000 dominates, above the minimum already.
    assert_eq!(calculate_base_fee(0, &fs), 1000000);
    // Huge amount: clamped at the maximum.
    assert_eq!(calculate_base_fee(1000000000000000, &fs), 100000000);
    // A schedule whose minimum binds.
    let high_floor = FeeStructure {
        base_fee: 100,
        percentage_fee: 0,
        min_fee: 5000,
        max_fee: 10000,
    };
    assert_eq!(calculate_base_fee(0, &high_floor), 5000);
}

#[test]
fn batch_discount_saturates_at_fifty_percent() {
    let mut ledger = SaveXContract::new();
    ledger.initialize(ADMIN).unwrap();

    // For batch sizes of six and beyond, the discount stays at 50% of base.
    let fee_6 = ledger.calculate_fee(USER, 10000000, true, 6, 0);
    let fee_50 = ledger.calculate_fee(USER, 10000000, true, 50, 0);
    assert_eq!(fee_6.discount, fee_50.discount);
    assert_eq!(fee_6.discount, 1050000 / 2);
    // Below six it still grows by 10% of base per extra transfer.
    let fee_2 = ledger.calculate_fee(USER, 10000000, true, 2, 0);
    assert_eq!(fee_2.discount, 105000);
    // is_batch with a batch of one earns nothing.
    let fee_1 = ledger.calculate_fee(USER, 10000000, true, 1, 0);
    assert_eq!(fee_1.discount, 0);
}

#[test]
fn expired_package_still_flagged_active_earns_no_discount() {
    let mut ledger = SaveXContract::new();
    ledger.initialize(ADMIN).unwrap();
    ledger
        .subscribe_package(USER, PackageType::Family, 1, 1000)
        .unwrap();
    let end = 1000 + 86400;
    // Within the subscription: the Family discount of 15% of base applies.
    let fee_live = ledger.calculate_fee(USER, 10000000, false, 1, end);
    assert_eq!(fee_live.discount, 157500);
    // One second past the end date the record is still flagged active but
    // earns nothing.
    let fee_expired = ledger.calculate_fee(USER, 10000000, false, 1, end + 1);
    assert!(ledger.get_package(USER, end + 1).unwrap().is_active);
    assert_eq!(fee_expired.discount, 0);
    assert_eq!(fee_expired.total, 1050000);
}
