//! The layered fee engine: a clamped base fee from a fixed schedule, a batch
//! discount, and a package discount, additive and floored at the minimum fee.
//!
//! Fee calculation is pure: the result is a function of the amount, the
//! batch shape, the caller's live package record and the current time alone,
//! and nothing is mutated.

use vstd::prelude::*;
use vstd::arithmetic::div_mod::{
    lemma_div_is_ordered, lemma_div_multiples_vanish, lemma_div_pos_is_pos,
};
use vstd::arithmetic::mul::lemma_mul_upper_bound;
use crate::packages::spec_live_package;
use crate::state::{state_wf, SaveXContract, StateModel};
use crate::types::{FeeBreakdown, FeeStructure, Package, MAX_QUOTE_AMOUNT};

verus! {

/// The fixed fee schedule, in the smallest ledger unit: flat 1,000,000 plus
/// 50 basis points of the amount, clamped to [500,000, 100,000,000].
pub open spec fn spec_standard_fee_structure() -> FeeStructure {
    FeeStructure { base_fee: 1000000, percentage_fee: 50, min_fee: 500000, max_fee: 100000000 }
}

/// Executable form of [`spec_standard_fee_structure`].
pub fn standard_fee_structure() -> (r: FeeStructure)
    ensures
        r == spec_standard_fee_structure(),
{
    FeeStructure { base_fee: 1000000, percentage_fee: 50, min_fee: 500000, max_fee: 100000000 }
}

/// A fee schedule the engine can evaluate without overflow: ordered clamp
/// bounds and components within the amount cap.
pub open spec fn fee_structure_wf(fs: FeeStructure) -> bool {
    &&& 0 <= fs.min_fee <= fs.max_fee
    &&& 0 <= fs.base_fee <= MAX_QUOTE_AMOUNT
    &&& fs.percentage_fee <= 10000
}

/// The base fee of `amount` under schedule `fs`:
/// `clamp(flat + amount * bps / 10000, min, max)`.
pub open spec fn spec_base_fee(amount: i128, fs: FeeStructure) -> int {
    let raw = fs.base_fee + amount * fs.percentage_fee / 10000;
    if raw < fs.min_fee {
        fs.min_fee as int
    } else if raw > fs.max_fee {
        fs.max_fee as int
    } else {
        raw
    }
}

/// The batch discount on a base fee: 10% of the base per transfer beyond the
/// first, saturating at 50%, and only for a batch of more than one.
pub open spec fn spec_batch_discount(base: int, is_batch: bool, batch_size: u32) -> int {
    if is_batch && batch_size > 1 {
        let pct: int = if batch_size >= 6 {
            50
        } else {
            (batch_size - 1) * 10
        };
        base * pct / 100
    } else {
        0
    }
}

/// The package discount on a base fee: the package's rate in basis points,
/// granted only while the package is flagged active and its end date has not
/// passed — an expired-but-still-flagged package gets no discount.
pub open spec fn spec_package_discount(base: int, pkg: Option<Package>, now: u64) -> int {
    match pkg {
        Some(p) => if p.is_active && now <= p.end_date {
            base * p.discount_rate / 10000
        } else {
            0
        },
        None => 0,
    }
}

/// The full fee quote: base fee from the standard schedule, both discounts
/// added (not compounded), and the total floored at the minimum fee.  The
/// network/service components are an illustrative half/half split of the
/// base.
pub open spec fn spec_fee_breakdown(
    amount: i128,
    is_batch: bool,
    batch_size: u32,
    pkg: Option<Package>,
    now: u64,
) -> FeeBreakdown {
    let fs = spec_standard_fee_structure();
    let base = spec_base_fee(amount, fs);
    let total_discount = spec_batch_discount(base, is_batch, batch_size)
        + spec_package_discount(base, pkg, now);
    let after_discount = base - total_discount;
    let total = if after_discount < fs.min_fee {
        fs.min_fee as int
    } else {
        after_discount
    };
    FeeBreakdown {
        network_fee: (base / 2) as i128,
        service_fee: (base / 2) as i128,
        discount: total_discount as i128,
        total: total as i128,
    }
}

/// The fee quote the ledger gives `from` at time `now`: the pure breakdown
/// over the caller's live package record.
pub open spec fn spec_calculate_fee(
    s: StateModel,
    from: u64,
    amount: i128,
    is_batch: bool,
    batch_size: u32,
    now: u64,
) -> FeeBreakdown {
    spec_fee_breakdown(amount, is_batch, batch_size, spec_live_package(s.packages, from, now), now)
}

/// Computes the clamped base fee of `amount` under schedule `fee_structure`.
pub fn calculate_base_fee(amount: i128, fee_structure: &FeeStructure) -> (r: i128)
    requires
        0 <= amount <= MAX_QUOTE_AMOUNT,
        fee_structure_wf(*fee_structure),
    ensures
        r == spec_base_fee(amount, *fee_structure),
{
    proof {
        lemma_mul_upper_bound(
            amount as int, MAX_QUOTE_AMOUNT as int, fee_structure.percentage_fee as int, 10000,
        );
        lemma_div_pos_is_pos(amount * fee_structure.percentage_fee, 10000);
        lemma_div_is_ordered(
            amount * fee_structure.percentage_fee, 10000 * (MAX_QUOTE_AMOUNT as int), 10000,
        );
        lemma_div_multiples_vanish(MAX_QUOTE_AMOUNT as int, 10000);
    }
    let percentage_fee: i128 = amount * (fee_structure.percentage_fee as i128) / 10000;
    let total_fee: i128 = fee_structure.base_fee + percentage_fee;
    if total_fee < fee_structure.min_fee {
        fee_structure.min_fee
    } else if total_fee > fee_structure.max_fee {
        fee_structure.max_fee
    } else {
        total_fee
    }
}

impl SaveXContract {
    /// Quotes the fee `from` would pay on `amount` at time `now`, with the
    /// batch discount (when `is_batch` and `batch_size > 1`) and the discount
    /// of `from`'s live, active, unexpired package.  Pure: reads only the
    /// package record and mutates nothing.
    pub fn calculate_fee(
        &self,
        from: u64,
        amount: i128,
        is_batch: bool,
        batch_size: u32,
        now: u64,
    ) -> (r: FeeBreakdown)
        requires
            state_wf(self@),
            0 <= amount <= MAX_QUOTE_AMOUNT,
        ensures
            r == spec_calculate_fee(self@, from, amount, is_batch, batch_size, now),
    {
        let fs = standard_fee_structure();
        let base = calculate_base_fee(amount, &fs);
        assert(fs.min_fee <= base <= fs.max_fee);
        let batch_discount: i128 = if is_batch && batch_size > 1 {
            let pct: u32 = if batch_size >= 6 {
                50
            } else {
                (batch_size - 1) * 10
            };
            proof {
                lemma_mul_upper_bound(base as int, 100000000, pct as int, 50);
                lemma_div_pos_is_pos(base * pct, 100);
            }
            base * (pct as i128) / 100
        } else {
            0
        };
        let pkg = self.get_package(from, now);
        let package_discount: i128 = match pkg {
            Some(p) => {
                if p.is_active && now <= p.end_date {
                    proof {
                        lemma_mul_upper_bound(base as int, 100000000, p.discount_rate as int, 4294967295);
                        lemma_div_pos_is_pos(base * p.discount_rate, 10000);
                    }
                    base * (p.discount_rate as i128) / 10000
                } else {
                    0
                }
            },
            None => 0,
        };
        let total_discount = batch_discount + package_discount;
        let after_discount = base - total_discount;
        let total = if after_discount < fs.min_fee {
            fs.min_fee
        } else {
            after_discount
        };
        FeeBreakdown {
            network_fee: base / 2,
            service_fee: base / 2,
            discount: total_discount,
            total,
        }
    }
}

/// Savings a caller can expect from delaying a transfer by `hours_delay`
/// hours, as basis points of the amount: a fixed heuristic tier table, not a
/// market prediction.
pub open spec fn spec_schedule_savings_bps(hours_delay: u32) -> int {
    if hours_delay >= 24 {
        10
    } else if hours_delay >= 12 {
        7
    } else if hours_delay >= 6 {
        5
    } else if hours_delay >= 2 {
        3
    } else {
        0
    }
}

/// Estimates the savings from scheduling a transfer of `amount` with a delay
/// of `hours_delay` hours: `amount * bps / 10000` under the heuristic tier
/// table of [`spec_schedule_savings_bps`].
pub fn estimate_schedule_savings(amount: i128, hours_delay: u32) -> (r: i128)
    requires
        0 <= amount <= MAX_QUOTE_AMOUNT,
    ensures
        r == amount * spec_schedule_savings_bps(hours_delay) / 10000,
{
    let bps: i128 = if hours_delay >= 24 {
        10
    } else if hours_delay >= 12 {
        7
    } else if hours_delay >= 6 {
        5
    } else if hours_delay >= 2 {
        3
    } else {
        0
    };
    proof {
        lemma_mul_upper_bound(amount as int, MAX_QUOTE_AMOUNT as int, bps as int, 10);
        lemma_div_pos_is_pos(amount * bps, 10000);
    }
    amount * bps / 10000
}

} // verus!
