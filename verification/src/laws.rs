//! The ledger's laws: properties that span several operations, proved over
//! the step functions the operations' contracts are stated with.

use vstd::prelude::*;
use vstd::arithmetic::div_mod::{
    lemma_div_is_ordered, lemma_div_multiples_vanish, lemma_div_pos_is_pos,
    lemma_fundamental_div_mod, lemma_remainder_lower, lemma_remainder_upper,
};
use vstd::arithmetic::mul::{lemma_mul_inequality, lemma_mul_nonnegative};
use crate::errors::SaveXError;
use crate::fees::{spec_base_fee, spec_batch_discount, spec_fee_breakdown, spec_standard_fee_structure};
use crate::packages::{
    spec_live_package, spec_new_package, spec_package_blocks, spec_subscribe_package,
    lemma_package_idx_is,
};
use crate::ratelock::spec_lock_rate;
use crate::state::{state_wf, StateModel};
use crate::store::{STORE_LIFETIME, STORE_THRESHOLD};
use crate::transfers::{
    spec_amounts_all_positive, spec_cancel_scheduled, spec_execute_scheduled,
    spec_split_amounts, spec_transfer_batch, spec_transfer_immediate, spec_transfer_scheduled,
    spec_transfer_split, spec_transfer_with_rate_lock,
};
use crate::types::{
    Package, PackageType, Party, TokenMovement, MAX_BATCH_SIZE, MAX_OPERATING_TIME,
    MAX_QUOTE_AMOUNT, SECONDS_PER_DAY,
};

verus! {

/// An immediate transfer of a positive amount on an unpaused ledger moves
/// exactly that amount from the sender to the recipient, once, and records
/// the transfer as `Completed` with that amount; no other record changes.
pub proof fn lemma_immediate_transfer_moves_exactly(
    pre: StateModel,
    from: u64,
    to: u64,
    token: u64,
    amount: i128,
    now: u64,
)
    requires
        !pre.paused,
        amount > 0,
    ensures
        ({
            let (post, r) = spec_transfer_immediate(pre, from, to, token, amount, now);
            &&& r is Ok
            &&& r->Ok_0.1 == (TokenMovement {
                token,
                from: Party::Account(from),
                to: Party::Account(to),
                amount,
            })
            &&& post.transfers.len() == pre.transfers.len() + 1
            &&& post.transfers[pre.transfers.len() as int].value.status is Completed
            &&& post.transfers[pre.transfers.len() as int].value.amount == amount
            &&& forall|j: int| 0 <= j < pre.transfers.len()
                ==> #[trigger] post.transfers[j] == pre.transfers[j]
            &&& post.rate_locks == pre.rate_locks
            &&& post.packages == pre.packages
        }),
{
}

/// Every refused operation leaves the ledger exactly as it was: the step
/// functions return the pre-state beside every error.
pub proof fn lemma_failure_changes_nothing(
    pre: StateModel,
    from: u64,
    to: u64,
    token: u64,
    to_token: u64,
    amount: i128,
    locked_rate: i128,
    pct: u32,
    execute_after: u64,
    duration_seconds: u64,
    transfer_id: u64,
    package_type: PackageType,
    duration_days: u32,
    now: u64,
)
    ensures
        spec_transfer_immediate(pre, from, to, token, amount, now).1 is Err
            ==> spec_transfer_immediate(pre, from, to, token, amount, now).0 == pre,
        spec_transfer_scheduled(pre, from, to, token, amount, execute_after, now).1 is Err
            ==> spec_transfer_scheduled(pre, from, to, token, amount, execute_after, now).0 == pre,
        spec_execute_scheduled(pre, transfer_id, now).1 is Err
            ==> spec_execute_scheduled(pre, transfer_id, now).0 == pre,
        spec_cancel_scheduled(pre, from, transfer_id, now).1 is Err
            ==> spec_cancel_scheduled(pre, from, transfer_id, now).0 == pre,
        spec_transfer_with_rate_lock(pre, from, to, token, amount, transfer_id, now).1 is Err
            ==> spec_transfer_with_rate_lock(pre, from, to, token, amount, transfer_id, now).0
                == pre,
        spec_transfer_split(pre, from, to, token, amount, pct, execute_after, now).1 is Err
            ==> spec_transfer_split(pre, from, to, token, amount, pct, execute_after, now).0
                == pre,
        spec_lock_rate(pre, from, token, to_token, locked_rate, amount, duration_seconds, now).1
            is Err ==> spec_lock_rate(
                pre, from, token, to_token, locked_rate, amount, duration_seconds, now,
            ).0 == pre,
        crate::ratelock::spec_cancel_rate_lock(pre, from, transfer_id, now).1 is Err
            ==> crate::ratelock::spec_cancel_rate_lock(pre, from, transfer_id, now).0 == pre,
        spec_subscribe_package(pre, from, package_type, duration_days, now).1 is Err
            ==> spec_subscribe_package(pre, from, package_type, duration_days, now).0 == pre,
        crate::packages::spec_cancel_package(pre, from, now).1 is Err
            ==> crate::packages::spec_cancel_package(pre, from, now).0 == pre,
{
}

/// Status transitions are monotonic: executing or cancelling can only move a
/// record out of `Locked` — to `Completed` or `Cancelled` respectively — and
/// a record already in a terminal status is never touched again.  Records
/// are never deleted.
pub proof fn lemma_status_transitions_monotonic(
    pre: StateModel,
    owner: u64,
    transfer_id: u64,
    now: u64,
)
    ensures
        ({
            let post = spec_execute_scheduled(pre, transfer_id, now).0;
            &&& post.transfers.len() == pre.transfers.len()
            &&& forall|j: int|
                0 <= j < pre.transfers.len() && (#[trigger] post.transfers[j]).value.status
                    != pre.transfers[j].value.status
                    ==> pre.transfers[j].value.status is Locked
                        && post.transfers[j].value.status is Completed
        }),
        ({
            let post = spec_cancel_scheduled(pre, owner, transfer_id, now).0;
            &&& post.transfers.len() == pre.transfers.len()
            &&& forall|j: int|
                0 <= j < pre.transfers.len() && (#[trigger] post.transfers[j]).value.status
                    != pre.transfers[j].value.status
                    ==> pre.transfers[j].value.status is Locked
                        && post.transfers[j].value.status is Cancelled
        }),
{
}

/// The lifecycle of a scheduled transfer created at `now0` to execute at or
/// after `execute_after`: executing strictly before `execute_after` fails
/// with `PreconditionNotMet` and changes nothing; executing at or after it
/// moves the custody-held amount to the recipient exactly once; executing
/// again afterwards fails with `StateConflict` and changes nothing.  The
/// attempts must fall within the record's storage lifetime.
pub proof fn lemma_scheduled_transfer_lifecycle(
    pre: StateModel,
    from: u64,
    to: u64,
    token: u64,
    amount: i128,
    execute_after: u64,
    now0: u64,
    now_early: u64,
    now_due: u64,
    now_late: u64,
)
    requires
        state_wf(pre),
        !pre.paused,
        pre.transfers.len() + 1 <= u64::MAX,
        amount > 0,
        now0 <= MAX_OPERATING_TIME,
        now0 < execute_after,
        now_early < execute_after,
        now_early <= now0 + STORE_LIFETIME,
        execute_after <= now_due <= now0 + STORE_LIFETIME,
        now_due <= MAX_OPERATING_TIME,
        now_due <= now_late <= now_due + STORE_THRESHOLD,
    ensures
        ({
            let (s1, r1) = spec_transfer_scheduled(pre, from, to, token, amount, execute_after, now0);
            let id = (pre.transfers.len() + 1) as u64;
            &&& r1 == Ok::<(u64, TokenMovement), SaveXError>((
                id,
                TokenMovement { token, from: Party::Account(from), to: Party::Custody, amount },
            ))
            &&& s1.transfers[id - 1].value.status is Locked
            // too early: refused, nothing changes
            &&& spec_execute_scheduled(s1, id, now_early) == (
                s1,
                Err::<TokenMovement, SaveXError>(SaveXError::PreconditionNotMet),
            )
            // due: the custody-held amount moves to the recipient, once
            &&& ({
                let (s2, r2) = spec_execute_scheduled(s1, id, now_due);
                &&& r2 == Ok::<TokenMovement, SaveXError>(TokenMovement {
                    token,
                    from: Party::Custody,
                    to: Party::Account(to),
                    amount,
                })
                &&& s2.transfers[id - 1].value.status is Completed
                // a second execution is refused and changes nothing
                &&& spec_execute_scheduled(s2, id, now_late) == (
                    s2,
                    Err::<TokenMovement, SaveXError>(SaveXError::StateConflict),
                )
            })
        }),
{
}

/// Cancelling a `Locked` scheduled transfer refunds the custody-held amount
/// to the original sender exactly once; cancelling again, or cancelling
/// after execution (an already-terminal transfer), fails with
/// `StateConflict` and changes nothing.
pub proof fn lemma_cancel_refunds_exactly_once(
    pre: StateModel,
    from: u64,
    to: u64,
    token: u64,
    amount: i128,
    execute_after: u64,
    now0: u64,
    now1: u64,
    now2: u64,
)
    requires
        state_wf(pre),
        !pre.paused,
        pre.transfers.len() + 1 <= u64::MAX,
        amount > 0,
        now0 <= MAX_OPERATING_TIME,
        now0 < execute_after,
        now0 <= now1 <= now0 + STORE_LIFETIME,
        now1 <= MAX_OPERATING_TIME,
        now1 <= now2 <= now1 + STORE_THRESHOLD,
    ensures
        ({
            let (s1, r1) = spec_transfer_scheduled(pre, from, to, token, amount, execute_after, now0);
            let id = (pre.transfers.len() + 1) as u64;
            // the sender cancels: custody refunds the sender exactly once
            let (s2, r2) = spec_cancel_scheduled(s1, from, id, now1);
            &&& r2 == Ok::<TokenMovement, SaveXError>(TokenMovement {
                token,
                from: Party::Custody,
                to: Party::Account(from),
                amount,
            })
            &&& s2.transfers[id - 1].value.status is Cancelled
            // cancelling the now-terminal transfer is refused, nothing changes
            &&& spec_cancel_scheduled(s2, from, id, now2) == (
                s2,
                Err::<TokenMovement, SaveXError>(SaveXError::StateConflict),
            )
            // executing the cancelled transfer is refused as well
            &&& spec_execute_scheduled(s2, id, now2) == (
                s2,
                Err::<TokenMovement, SaveXError>(SaveXError::StateConflict),
            )
        }),
{
}

/// The two legs of a split always sum to exactly the total, for every total
/// at least zero and percentage at most 100: the immediate leg is
/// `floor(total * pct / 100)` and the scheduled leg is the exact remainder,
/// each between zero and the total.
pub proof fn lemma_split_legs_sum_to_total(total: i128, pct: u32)
    requires
        0 <= total,
        pct <= 100,
    ensures
        spec_split_amounts(total, pct).0 + spec_split_amounts(total, pct).1 == total,
        spec_split_amounts(total, pct).0 == total * pct / 100,
        0 <= spec_split_amounts(total, pct).0 <= total,
        0 <= spec_split_amounts(total, pct).1 <= total,
{
    lemma_mul_nonnegative(total as int, pct as int);
    lemma_div_pos_is_pos(total * pct, 100);
    lemma_mul_inequality(pct as int, 100, total as int);
    lemma_div_is_ordered(total * pct, 100 * total, 100);
    lemma_div_multiples_vanish(total as int, 100);
}

/// A batch of 1 to [`MAX_BATCH_SIZE`] valid entries produces exactly one
/// `Completed` record and one movement per entry, in input order with
/// strictly increasing identifiers; a single non-positive amount anywhere in
/// the batch refuses the whole batch with zero state change and no
/// movements.
pub proof fn lemma_batch_all_or_nothing(
    pre: StateModel,
    from: u64,
    recipients: Seq<u64>,
    token: u64,
    amounts: Seq<i128>,
    now: u64,
)
    ensures
        (exists|i: int| 0 <= i < amounts.len() && amounts[i] <= 0) ==> ({
            &&& spec_transfer_batch(pre, from, recipients, token, amounts, now).0 == pre
            &&& spec_transfer_batch(pre, from, recipients, token, amounts, now).1 is Err
        }),
        (!pre.paused && recipients.len() == amounts.len() && 0 < amounts.len() <= MAX_BATCH_SIZE
            && spec_amounts_all_positive(amounts)) ==> ({
            let (post, r) = spec_transfer_batch(pre, from, recipients, token, amounts, now);
            let base = pre.transfers.len() as int;
            &&& r is Ok
            &&& r->Ok_0.0.len() == amounts.len()
            &&& forall|i: int| 0 <= i < amounts.len()
                ==> #[trigger] r->Ok_0.0[i] == (base + i + 1) as u64
            &&& post.transfers.len() == pre.transfers.len() + amounts.len()
            &&& forall|i: int| 0 <= i < amounts.len() ==> {
                let rec = (#[trigger] post.transfers[base + i]).value;
                &&& rec.status is Completed
                &&& rec.amount == amounts[i]
                &&& rec.to == recipients[i]
                &&& rec.from == from
                &&& rec.token == token
            }
            &&& r->Ok_0.1.len() == amounts.len()
            &&& forall|i: int| 0 <= i < amounts.len()
                ==> #[trigger] r->Ok_0.1[i] == (TokenMovement {
                    token,
                    from: Party::Account(from),
                    to: Party::Account(recipients[i]),
                    amount: amounts[i],
                })
        }),
{
    if exists|i: int| 0 <= i < amounts.len() && amounts[i] <= 0 {
        let i = choose|i: int| 0 <= i < amounts.len() && amounts[i] <= 0;
        assert(!spec_amounts_all_positive(amounts));
    }
}

/// Subscribing while an unexpired active package exists fails with
/// `PreconditionNotMet` and changes nothing; subscribing when no package
/// blocks (none, expired storage, inactive, or past its end date) succeeds,
/// and the new package starts now with both accumulators reset to zero.
pub proof fn lemma_subscription_exclusivity(
    pre: StateModel,
    owner: u64,
    package_type: PackageType,
    duration_days: u32,
    now: u64,
)
    requires
        state_wf(pre),
        !pre.paused,
        1 <= duration_days <= 365,
        now <= MAX_OPERATING_TIME,
    ensures
        spec_package_blocks(pre.packages, owner, now)
            ==> spec_subscribe_package(pre, owner, package_type, duration_days, now) == (
                pre,
                Err::<(), SaveXError>(SaveXError::PreconditionNotMet),
            ),
        !spec_package_blocks(pre.packages, owner, now) ==> ({
            let (post, r) = spec_subscribe_package(pre, owner, package_type, duration_days, now);
            &&& r == Ok::<(), SaveXError>(())
            &&& spec_live_package(post.packages, owner, now) == Some(
                spec_new_package(owner, package_type, duration_days, now),
            )
            &&& spec_new_package(owner, package_type, duration_days, now).transfer_count == 0
            &&& spec_new_package(owner, package_type, duration_days, now).total_volume == 0
            &&& spec_new_package(owner, package_type, duration_days, now).is_active
            &&& spec_new_package(owner, package_type, duration_days, now).end_date
                == now + duration_days * SECONDS_PER_DAY
        }),
{
    if !spec_package_blocks(pre.packages, owner, now) {
        let (post, r) = spec_subscribe_package(pre, owner, package_type, duration_days, now);
        let pkg = spec_new_package(owner, package_type, duration_days, now);
        if crate::packages::spec_has_package(pre.packages, owner) {
            let i = crate::packages::spec_package_idx(pre.packages, owner);
            assert(0 <= i < pre.packages.len() && pre.packages[i].value.owner == owner);
            assert(post.packages[i].value == pkg);
            assert(forall|a: int, b: int|
                0 <= a < b < post.packages.len()
                    ==> (#[trigger] post.packages[a]).value.owner
                        != (#[trigger] post.packages[b]).value.owner);
            lemma_package_idx_is(post.packages, owner, i);
        } else {
            let i = pre.packages.len() as int;
            assert(post.packages[i].value == pkg);
            assert(forall|a: int, b: int|
                0 <= a < b < post.packages.len()
                    ==> (#[trigger] post.packages[a]).value.owner
                        != (#[trigger] post.packages[b]).value.owner) by {
                assert forall|a: int, b: int| 0 <= a < b < post.packages.len()
                    implies (#[trigger] post.packages[a]).value.owner
                        != (#[trigger] post.packages[b]).value.owner by {
                    if b == i {
                        if post.packages[a].value.owner == owner {
                            assert(pre.packages[a].value.owner == owner);
                            assert(crate::packages::spec_has_package(pre.packages, owner));
                        }
                    }
                }
            }
            lemma_package_idx_is(post.packages, owner, i);
        }
    }
}

/// The fee calculator is pure: two ledger states in which the caller holds
/// the same live package record yield the identical fee breakdown for
/// identical inputs — the quote is a function of the amount, the batch
/// shape, the package record and the time alone.
pub proof fn lemma_fee_calculator_pure(
    s1: StateModel,
    s2: StateModel,
    from: u64,
    amount: i128,
    is_batch: bool,
    batch_size: u32,
    now: u64,
)
    requires
        spec_live_package(s1.packages, from, now) == spec_live_package(s2.packages, from, now),
    ensures
        crate::fees::spec_calculate_fee(s1, from, amount, is_batch, batch_size, now)
            == crate::fees::spec_calculate_fee(s2, from, amount, is_batch, batch_size, now),
{
}

/// The batch discount saturates: for a batch of six or more, the discount is
/// exactly 50% of the base fee, however large the batch.
pub proof fn lemma_batch_discount_saturates(base: int, batch_size: u32)
    requires
        batch_size >= 6,
    ensures
        spec_batch_discount(base, true, batch_size) == base * 50 / 100,
{
}

/// An active, unexpired Premium package yields a strictly lower fee total
/// than no package, for the identical amount.
pub proof fn lemma_premium_package_lowers_fee(amount: i128, p: Package, now: u64)
    requires
        0 <= amount <= MAX_QUOTE_AMOUNT,
        p.package_type is Premium,
        p.discount_rate == 2500,
        p.is_active,
        now <= p.end_date,
    ensures
        spec_fee_breakdown(amount, false, 1, Some(p), now).total
            < spec_fee_breakdown(amount, false, 1, None, now).total,
{
    let fs = spec_standard_fee_structure();
    let base = spec_base_fee(amount, fs);
    lemma_mul_nonnegative(amount as int, fs.percentage_fee as int);
    lemma_div_pos_is_pos(amount * fs.percentage_fee, 10000);
    assert(1000000 <= base <= 100000000);
    let d = base * p.discount_rate / 10000;
    lemma_fundamental_div_mod(base * 2500, 10000);
    lemma_remainder_lower(base * 2500, 10000);
    lemma_remainder_upper(base * 2500, 10000);
    let rem = (base * 2500) % 10000;
    assert(base * 2500 == 10000 * d + rem);
    assert(10000 * (base - d) == 7500 * base + rem);
    assert(base - d >= 750000);
    assert(d >= 1);
}

/// A rate lock created at `now0` with a duration within the 24-hour cap
/// expires exactly at `now0 + duration_seconds`: a consuming transfer within
/// the ceiling succeeds right at the expiry instant and fails with
/// `PreconditionNotMet` (no state change) one second after it.
pub proof fn lemma_rate_lock_expiry_boundary(
    pre: StateModel,
    owner: u64,
    from_token: u64,
    to_token: u64,
    locked_rate: i128,
    ceiling: i128,
    duration_seconds: u64,
    to: u64,
    token: u64,
    amount: i128,
    now0: u64,
)
    requires
        state_wf(pre),
        !pre.paused,
        pre.rate_locks.len() + 1 <= u64::MAX,
        locked_rate > 0,
        ceiling > 0,
        0 < amount <= ceiling,
        duration_seconds <= 86400,
        now0 <= MAX_OPERATING_TIME,
    ensures
        ({
            let (s1, r1) = spec_lock_rate(
                pre, owner, from_token, to_token, locked_rate, ceiling, duration_seconds, now0,
            );
            let id = (pre.rate_locks.len() + 1) as u64;
            &&& r1 == Ok::<u64, SaveXError>(id)
            &&& s1.rate_locks[id - 1].value.expiry == now0 + duration_seconds
            // consuming exactly at expiry succeeds
            &&& spec_transfer_with_rate_lock(
                s1, owner, to, token, amount, id, (now0 + duration_seconds) as u64,
            ).1 is Ok
            // one second past expiry it is refused as expired, with no change
            &&& spec_transfer_with_rate_lock(
                s1, owner, to, token, amount, id, (now0 + duration_seconds + 1) as u64,
            ) == (s1, Err::<(u64, TokenMovement), SaveXError>(SaveXError::PreconditionNotMet))
        }),
{
}

} // verus!

