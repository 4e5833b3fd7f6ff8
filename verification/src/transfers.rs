//! The transfer ledger: a state machine over transfer records across the four
//! delivery modes.
//!
//! Every operation is specified by a step function over [`StateModel`]: the
//! executable method's new state and result are exactly the step function's.
//! On any error the state is left untouched and no asset movement is
//! produced; on success the returned [`TokenMovement`] values are the exact
//! movements the host must carry out.

use vstd::prelude::*;
use vstd::arithmetic::div_mod::{
    lemma_div_is_ordered, lemma_div_multiples_vanish, lemma_div_pos_is_pos,
};
use vstd::arithmetic::mul::{lemma_mul_inequality, lemma_mul_nonnegative, lemma_mul_upper_bound};
use crate::errors::SaveXError;
use crate::state::{SaveXContract, StateModel, state_wf, transfer_record_ok};
use crate::store::{spec_entry_live, spec_refreshed_until, Entry, STORE_LIFETIME};
use crate::types::{
    Party, TimeBound, TimeBoundKind, TokenMovement, Transfer, TransferMode, TransferStatus,
    MAX_BATCH_SIZE, MAX_OPERATING_TIME, MAX_QUOTE_AMOUNT,
};

verus! {

/// A transfer entry as first written at time `now`: full storage lifetime.
pub open spec fn fresh_entry(t: Transfer, now: u64) -> Entry<Transfer> {
    Entry { value: t, live_until: (now + STORE_LIFETIME) as u64 }
}

/// A synchronously settled record: stored `Completed` directly, optionally
/// referencing the rate lock it consumed.
pub open spec fn spec_immediate_record(
    id: u64,
    from: u64,
    to: u64,
    token: u64,
    amount: i128,
    rate_lock_id: Option<u64>,
    now: u64,
) -> Transfer {
    Transfer {
        id,
        from,
        to,
        token,
        amount,
        mode: TransferMode::Immediate { rate_lock_id },
        status: TransferStatus::Completed,
        created_at: now,
    }
}

/// Step function of an immediate transfer: refused while paused or for a
/// non-positive amount; otherwise appends a `Completed` record and moves the
/// amount from sender to recipient.
pub open spec fn spec_transfer_immediate(
    pre: StateModel,
    from: u64,
    to: u64,
    token: u64,
    amount: i128,
    now: u64,
) -> (StateModel, Result<(u64, TokenMovement), SaveXError>) {
    if pre.paused {
        (pre, Err(SaveXError::StateConflict))
    } else if amount <= 0 {
        (pre, Err(SaveXError::ValidationFailure))
    } else {
        let id = (pre.transfers.len() + 1) as u64;
        let record = spec_immediate_record(id, from, to, token, amount, None, now);
        (
            StateModel { transfers: pre.transfers.push(fresh_entry(record, now)), ..pre },
            Ok((
                id,
                TokenMovement {
                    token,
                    from: Party::Account(from),
                    to: Party::Account(to),
                    amount,
                },
            )),
        )
    }
}

/// Step function of creating a scheduled transfer: refused while paused, for
/// a non-positive amount, or when `execute_after` is not strictly in the
/// future; otherwise appends a `Locked` record bound to run at or after
/// `execute_after` and moves the amount from the sender into custody.
pub open spec fn spec_transfer_scheduled(
    pre: StateModel,
    from: u64,
    to: u64,
    token: u64,
    amount: i128,
    execute_after: u64,
    now: u64,
) -> (StateModel, Result<(u64, TokenMovement), SaveXError>) {
    if pre.paused {
        (pre, Err(SaveXError::StateConflict))
    } else if amount <= 0 {
        (pre, Err(SaveXError::ValidationFailure))
    } else if execute_after <= now {
        (pre, Err(SaveXError::ValidationFailure))
    } else {
        let id = (pre.transfers.len() + 1) as u64;
        let record = Transfer {
            id,
            from,
            to,
            token,
            amount,
            mode: TransferMode::Scheduled {
                execute_bound: TimeBound { kind: TimeBoundKind::After, timestamp: execute_after },
            },
            status: TransferStatus::Locked,
            created_at: now,
        };
        (
            StateModel { transfers: pre.transfers.push(fresh_entry(record, now)), ..pre },
            Ok((
                id,
                TokenMovement { token, from: Party::Account(from), to: Party::Custody, amount },
            )),
        )
    }
}

/// Step function of executing a scheduled transfer.  Deliberately
/// permissionless: gated purely by the record's status and time bound.  On
/// success the record becomes `Completed` and the custody-held amount moves
/// to the recipient.
pub open spec fn spec_execute_scheduled(
    pre: StateModel,
    transfer_id: u64,
    now: u64,
) -> (StateModel, Result<TokenMovement, SaveXError>) {
    if pre.paused {
        (pre, Err(SaveXError::StateConflict))
    } else if !spec_entry_live(pre.transfers, transfer_id, now) {
        (pre, Err(SaveXError::NotFound))
    } else {
        let entry = pre.transfers[transfer_id - 1];
        let t = entry.value;
        if !(t.status is Locked) {
            (pre, Err(SaveXError::StateConflict))
        } else {
            match t.mode {
                TransferMode::Scheduled { execute_bound }
                | TransferMode::SplitScheduled { execute_bound } => {
                    if !execute_bound.spec_satisfied_at(now) {
                        (pre, Err(SaveXError::PreconditionNotMet))
                    } else {
                        let updated = Transfer { status: TransferStatus::Completed, ..t };
                        (
                            StateModel {
                                transfers: pre.transfers.update(
                                    transfer_id - 1,
                                    Entry {
                                        value: updated,
                                        live_until: spec_refreshed_until(entry.live_until, now),
                                    },
                                ),
                                ..pre
                            },
                            Ok(TokenMovement {
                                token: t.token,
                                from: Party::Custody,
                                to: Party::Account(t.to),
                                amount: t.amount,
                            }),
                        )
                    }
                },
                _ => (pre, Err(SaveXError::StateConflict)),
            }
        }
    }
}

/// Step function of cancelling a scheduled transfer: only the original
/// sender may cancel, and only while the record is `Locked`.  On success the
/// record becomes `Cancelled` and custody refunds the sender exactly once.
pub open spec fn spec_cancel_scheduled(
    pre: StateModel,
    owner: u64,
    transfer_id: u64,
    now: u64,
) -> (StateModel, Result<TokenMovement, SaveXError>) {
    if !spec_entry_live(pre.transfers, transfer_id, now) {
        (pre, Err(SaveXError::NotFound))
    } else {
        let entry = pre.transfers[transfer_id - 1];
        let t = entry.value;
        if t.from != owner {
            (pre, Err(SaveXError::AuthorizationFailure))
        } else if !(t.status is Locked) {
            (pre, Err(SaveXError::StateConflict))
        } else {
            let updated = Transfer { status: TransferStatus::Cancelled, ..t };
            (
                StateModel {
                    transfers: pre.transfers.update(
                        transfer_id - 1,
                        Entry {
                            value: updated,
                            live_until: spec_refreshed_until(entry.live_until, now),
                        },
                    ),
                    ..pre
                },
                Ok(TokenMovement {
                    token: t.token,
                    from: Party::Custody,
                    to: Party::Account(t.from),
                    amount: t.amount,
                }),
            )
        }
    }
}

/// Step function of a rate-lock-backed transfer: like an immediate transfer,
/// after validating that the referenced rate lock is the caller's, active,
/// unexpired at `now`, and that the amount is within its ceiling.  The lock
/// is a reservation only: it is not debited, and settlement runs at current
/// conditions.
pub open spec fn spec_transfer_with_rate_lock(
    pre: StateModel,
    from: u64,
    to: u64,
    token: u64,
    amount: i128,
    rate_lock_id: u64,
    now: u64,
) -> (StateModel, Result<(u64, TokenMovement), SaveXError>) {
    if pre.paused {
        (pre, Err(SaveXError::StateConflict))
    } else if amount <= 0 {
        (pre, Err(SaveXError::ValidationFailure))
    } else if !spec_entry_live(pre.rate_locks, rate_lock_id, now) {
        (pre, Err(SaveXError::NotFound))
    } else {
        let rl = pre.rate_locks[rate_lock_id - 1].value;
        if rl.owner != from {
            (pre, Err(SaveXError::AuthorizationFailure))
        } else if !rl.is_active {
            (pre, Err(SaveXError::StateConflict))
        } else if now > rl.expiry {
            (pre, Err(SaveXError::PreconditionNotMet))
        } else if amount > rl.amount {
            (pre, Err(SaveXError::PreconditionNotMet))
        } else {
            let id = (pre.transfers.len() + 1) as u64;
            let record = spec_immediate_record(id, from, to, token, amount, Some(rate_lock_id), now);
            (
                StateModel { transfers: pre.transfers.push(fresh_entry(record, now)), ..pre },
                Ok((
                    id,
                    TokenMovement {
                        token,
                        from: Party::Account(from),
                        to: Party::Account(to),
                        amount,
                    },
                )),
            )
        }
    }
}

/// The two legs a split of `total` at `pct` percent produces: the immediate
/// leg is `floor(total * pct / 100)`, the scheduled leg the exact remainder,
/// so the legs always sum to `total`.
pub open spec fn spec_split_amounts(total: i128, pct: u32) -> (int, int) {
    let imm = total * pct / 100;
    (imm, total - imm)
}

/// A split-immediate leg record, stored `Completed`.
pub open spec fn spec_split_immediate_record(
    id: u64,
    from: u64,
    to: u64,
    token: u64,
    amount: i128,
    now: u64,
) -> Transfer {
    Transfer {
        id,
        from,
        to,
        token,
        amount,
        mode: TransferMode::SplitImmediate,
        status: TransferStatus::Completed,
        created_at: now,
    }
}

/// A split-scheduled leg record, stored `Locked` under an `After` bound.
pub open spec fn spec_split_scheduled_record(
    id: u64,
    from: u64,
    to: u64,
    token: u64,
    amount: i128,
    schedule_after: u64,
    now: u64,
) -> Transfer {
    Transfer {
        id,
        from,
        to,
        token,
        amount,
        mode: TransferMode::SplitScheduled {
            execute_bound: TimeBound { kind: TimeBoundKind::After, timestamp: schedule_after },
        },
        status: TransferStatus::Locked,
        created_at: now,
    }
}

/// Step function of a split transfer: an immediate leg for the percentage
/// marked for now (settled synchronously) and a `Locked` scheduled leg for
/// the remainder.  A zero-amount leg is not created and its returned
/// identifier is the sentinel 0.
pub open spec fn spec_transfer_split(
    pre: StateModel,
    from: u64,
    to: u64,
    token: u64,
    total_amount: i128,
    immediate_percentage: u32,
    schedule_after: u64,
    now: u64,
) -> (StateModel, Result<((u64, u64), Seq<TokenMovement>), SaveXError>) {
    if pre.paused {
        (pre, Err(SaveXError::StateConflict))
    } else if total_amount <= 0 {
        (pre, Err(SaveXError::ValidationFailure))
    } else if immediate_percentage > 100 {
        (pre, Err(SaveXError::ValidationFailure))
    } else if schedule_after <= now {
        (pre, Err(SaveXError::ValidationFailure))
    } else {
        let (imm, sched) = spec_split_amounts(total_amount, immediate_percentage);
        let base = pre.transfers.len() as int;
        let imm_id: u64 = if imm > 0 { (base + 1) as u64 } else { 0 };
        let sched_id: u64 = if sched > 0 {
            if imm > 0 { (base + 2) as u64 } else { (base + 1) as u64 }
        } else {
            0
        };
        let after_imm = if imm > 0 {
            pre.transfers.push(fresh_entry(
                spec_split_immediate_record(imm_id, from, to, token, imm as i128, now),
                now,
            ))
        } else {
            pre.transfers
        };
        let after_both = if sched > 0 {
            after_imm.push(fresh_entry(
                spec_split_scheduled_record(
                    sched_id, from, to, token, sched as i128, schedule_after, now,
                ),
                now,
            ))
        } else {
            after_imm
        };
        let imm_moves: Seq<TokenMovement> = if imm > 0 {
            seq![TokenMovement {
                token,
                from: Party::Account(from),
                to: Party::Account(to),
                amount: imm as i128,
            }]
        } else {
            Seq::empty()
        };
        let sched_moves: Seq<TokenMovement> = if sched > 0 {
            seq![TokenMovement {
                token,
                from: Party::Account(from),
                to: Party::Custody,
                amount: sched as i128,
            }]
        } else {
            Seq::empty()
        };
        (
            StateModel { transfers: after_both, ..pre },
            Ok(((imm_id, sched_id), imm_moves + sched_moves)),
        )
    }
}

/// How an executable split result corresponds to the step function's.
pub open spec fn split_result_matches(
    r: Result<((u64, u64), Vec<TokenMovement>), SaveXError>,
    s: Result<((u64, u64), Seq<TokenMovement>), SaveXError>,
) -> bool {
    match (r, s) {
        (Ok(rv), Ok(sv)) => rv.0 == sv.0 && rv.1@ =~= sv.1,
        (Err(e1), Err(e2)) => e1 == e2,
        _ => false,
    }
}

/// Whether every amount of a batch is positive.
pub open spec fn spec_amounts_all_positive(amounts: Seq<i128>) -> bool {
    forall|i: int| 0 <= i < amounts.len() ==> amounts[i] > 0
}

/// One record of a batched transfer, stored `Completed`.
pub open spec fn spec_batch_record(
    id: u64,
    from: u64,
    to: u64,
    token: u64,
    amount: i128,
    now: u64,
) -> Transfer {
    Transfer {
        id,
        from,
        to,
        token,
        amount,
        mode: TransferMode::Batched,
        status: TransferStatus::Completed,
        created_at: now,
    }
}

/// Step function of a batched transfer: up to [`MAX_BATCH_SIZE`] independent
/// immediate transfers sharing one sender and token, settled strictly in
/// input order with increasing identifiers.  Any single non-positive amount
/// anywhere in the batch refuses the whole batch with no state change and no
/// movements.
pub open spec fn spec_transfer_batch(
    pre: StateModel,
    from: u64,
    recipients: Seq<u64>,
    token: u64,
    amounts: Seq<i128>,
    now: u64,
) -> (StateModel, Result<(Seq<u64>, Seq<TokenMovement>), SaveXError>) {
    if pre.paused {
        (pre, Err(SaveXError::StateConflict))
    } else if recipients.len() != amounts.len() {
        (pre, Err(SaveXError::ValidationFailure))
    } else if recipients.len() == 0 {
        (pre, Err(SaveXError::ValidationFailure))
    } else if recipients.len() > MAX_BATCH_SIZE {
        (pre, Err(SaveXError::ValidationFailure))
    } else if !spec_amounts_all_positive(amounts) {
        (pre, Err(SaveXError::ValidationFailure))
    } else {
        let base = pre.transfers.len() as int;
        let new_entries = Seq::new(
            amounts.len(),
            |i: int| fresh_entry(
                spec_batch_record((base + i + 1) as u64, from, recipients[i], token, amounts[i], now),
                now,
            ),
        );
        let ids = Seq::new(amounts.len(), |i: int| (base + i + 1) as u64);
        let moves = Seq::new(
            amounts.len(),
            |i: int| TokenMovement {
                token,
                from: Party::Account(from),
                to: Party::Account(recipients[i]),
                amount: amounts[i],
            },
        );
        (StateModel { transfers: pre.transfers + new_entries, ..pre }, Ok((ids, moves)))
    }
}

/// How an executable batch result corresponds to the step function's.
pub open spec fn batch_result_matches(
    r: Result<(Vec<u64>, Vec<TokenMovement>), SaveXError>,
    s: Result<(Seq<u64>, Seq<TokenMovement>), SaveXError>,
) -> bool {
    match (r, s) {
        (Ok(rv), Ok(sv)) => rv.0@ =~= sv.0 && rv.1@ =~= sv.1,
        (Err(e1), Err(e2)) => e1 == e2,
        _ => false,
    }
}

impl SaveXContract {
    /// Settles a transfer synchronously: moves exactly `amount` from `from`
    /// to `to` and records the transfer as `Completed`.  The host must have
    /// authenticated `from`.
    pub fn transfer_immediate(
        &mut self,
        from: u64,
        to: u64,
        token: u64,
        amount: i128,
        now: u64,
    ) -> (r: Result<(u64, TokenMovement), SaveXError>)
        requires
            state_wf(old(self)@),
            old(self)@.transfers.len() + 1 <= u64::MAX,
            now <= MAX_OPERATING_TIME,
        ensures
            (final(self)@, r) == spec_transfer_immediate(old(self)@, from, to, token, amount, now),
            state_wf(final(self)@),
    {
        let ghost pre = self@;
        if self.paused {
            return Err(SaveXError::StateConflict);
        }
        if amount <= 0 {
            return Err(SaveXError::ValidationFailure);
        }
        let id: u64 = (self.transfers.len() as u64) + 1;
        let record = Transfer {
            id,
            from,
            to,
            token,
            amount,
            mode: TransferMode::Immediate { rate_lock_id: None },
            status: TransferStatus::Completed,
            created_at: now,
        };
        let stored_id = self.transfers.append(record, now);
        proof {
            assert(self@ =~= spec_transfer_immediate(pre, from, to, token, amount, now).0);
            lemma_wf_after_transfer_push(pre, self@, record);
        }
        Ok((
            stored_id,
            TokenMovement { token, from: Party::Account(from), to: Party::Account(to), amount },
        ))
    }

    /// Creates a time-locked transfer: moves `amount` from the sender into
    /// custody and records a `Locked` transfer that may be executed at or
    /// after `execute_after`, which must lie strictly in the future.
    pub fn transfer_scheduled(
        &mut self,
        from: u64,
        to: u64,
        token: u64,
        amount: i128,
        execute_after: u64,
        now: u64,
    ) -> (r: Result<(u64, TokenMovement), SaveXError>)
        requires
            state_wf(old(self)@),
            old(self)@.transfers.len() + 1 <= u64::MAX,
            now <= MAX_OPERATING_TIME,
        ensures
            (final(self)@, r) == spec_transfer_scheduled(
                old(self)@, from, to, token, amount, execute_after, now,
            ),
            state_wf(final(self)@),
    {
        let ghost pre = self@;
        if self.paused {
            return Err(SaveXError::StateConflict);
        }
        if amount <= 0 {
            return Err(SaveXError::ValidationFailure);
        }
        if execute_after <= now {
            return Err(SaveXError::ValidationFailure);
        }
        let id: u64 = (self.transfers.len() as u64) + 1;
        let record = Transfer {
            id,
            from,
            to,
            token,
            amount,
            mode: TransferMode::Scheduled {
                execute_bound: TimeBound { kind: TimeBoundKind::After, timestamp: execute_after },
            },
            status: TransferStatus::Locked,
            created_at: now,
        };
        let stored_id = self.transfers.append(record, now);
        proof {
            assert(self@ =~= spec_transfer_scheduled(
                pre, from, to, token, amount, execute_after, now,
            ).0);
            lemma_wf_after_transfer_push(pre, self@, record);
        }
        Ok((
            stored_id,
            TokenMovement { token, from: Party::Account(from), to: Party::Custody, amount },
        ))
    }

    /// Executes a scheduled transfer whose time bound is satisfied at `now`:
    /// the custody-held amount moves to the recipient and the record becomes
    /// `Completed`.  Anyone may call this; it is gated purely by time and
    /// status.
    pub fn execute_scheduled_transfer(
        &mut self,
        transfer_id: u64,
        now: u64,
    ) -> (r: Result<TokenMovement, SaveXError>)
        requires
            state_wf(old(self)@),
            now <= MAX_OPERATING_TIME,
        ensures
            (final(self)@, r) == spec_execute_scheduled(old(self)@, transfer_id, now),
            state_wf(final(self)@),
    {
        let ghost pre = self@;
        if self.paused {
            return Err(SaveXError::StateConflict);
        }
        let t = match self.transfers.get(transfer_id, now) {
            None => return Err(SaveXError::NotFound),
            Some(t) => t,
        };
        if t.status != TransferStatus::Locked {
            return Err(SaveXError::StateConflict);
        }
        let execute_bound = match t.mode {
            TransferMode::Scheduled { execute_bound } => execute_bound,
            TransferMode::SplitScheduled { execute_bound } => execute_bound,
            _ => {
                return Err(SaveXError::StateConflict);
            },
        };
        if !execute_bound.satisfied_at(now) {
            return Err(SaveXError::PreconditionNotMet);
        }
        let updated = Transfer { status: TransferStatus::Completed, ..t };
        self.transfers.put(transfer_id, updated, now);
        proof {
            assert(self@ =~= spec_execute_scheduled(pre, transfer_id, now).0);
            lemma_wf_after_transfer_update(pre, self@, transfer_id as int, updated);
        }
        Ok(TokenMovement {
            token: t.token,
            from: Party::Custody,
            to: Party::Account(t.to),
            amount: t.amount,
        })
    }

    /// Cancels a scheduled transfer before execution: only the original
    /// sender may cancel, and only while the record is `Locked`.  The
    /// custody-held amount refunds the sender and the record becomes
    /// `Cancelled`.  The host must have authenticated `owner`.
    pub fn cancel_scheduled_transfer(
        &mut self,
        owner: u64,
        transfer_id: u64,
        now: u64,
    ) -> (r: Result<TokenMovement, SaveXError>)
        requires
            state_wf(old(self)@),
            now <= MAX_OPERATING_TIME,
        ensures
            (final(self)@, r) == spec_cancel_scheduled(old(self)@, owner, transfer_id, now),
            state_wf(final(self)@),
    {
        let ghost pre = self@;
        let t = match self.transfers.get(transfer_id, now) {
            None => return Err(SaveXError::NotFound),
            Some(t) => t,
        };
        if t.from != owner {
            return Err(SaveXError::AuthorizationFailure);
        }
        if t.status != TransferStatus::Locked {
            return Err(SaveXError::StateConflict);
        }
        let updated = Transfer { status: TransferStatus::Cancelled, ..t };
        self.transfers.put(transfer_id, updated, now);
        proof {
            assert(self@ =~= spec_cancel_scheduled(pre, owner, transfer_id, now).0);
            lemma_wf_after_transfer_update(pre, self@, transfer_id as int, updated);
        }
        Ok(TokenMovement {
            token: t.token,
            from: Party::Custody,
            to: Party::Account(t.from),
            amount: t.amount,
        })
    }

    /// Reads a transfer record, failing with `NotFound` when the identifier
    /// was never allocated or the record's storage lifetime has passed.
    pub fn get_transfer(&self, transfer_id: u64, now: u64) -> (r: Result<Transfer, SaveXError>)
        ensures
            r == (if spec_entry_live(self@.transfers, transfer_id, now) {
                Ok::<Transfer, SaveXError>(self@.transfers[transfer_id - 1].value)
            } else {
                Err::<Transfer, SaveXError>(SaveXError::NotFound)
            }),
    {
        match self.transfers.get(transfer_id, now) {
            Some(t) => Ok(t),
            None => Err(SaveXError::NotFound),
        }
    }

    /// Settles a transfer under an exchange-rate reservation: validates that
    /// the lock belongs to the sender, is active and unexpired at `now`, and
    /// that `amount` is within its ceiling, then settles like an immediate
    /// transfer.  The lock's ceiling is not debited.
    pub fn transfer_with_rate_lock(
        &mut self,
        from: u64,
        to: u64,
        token: u64,
        amount: i128,
        rate_lock_id: u64,
        now: u64,
    ) -> (r: Result<(u64, TokenMovement), SaveXError>)
        requires
            state_wf(old(self)@),
            old(self)@.transfers.len() + 1 <= u64::MAX,
            now <= MAX_OPERATING_TIME,
        ensures
            (final(self)@, r) == spec_transfer_with_rate_lock(
                old(self)@, from, to, token, amount, rate_lock_id, now,
            ),
            state_wf(final(self)@),
    {
        let ghost pre = self@;
        if self.paused {
            return Err(SaveXError::StateConflict);
        }
        if amount <= 0 {
            return Err(SaveXError::ValidationFailure);
        }
        let rl = match self.rate_locks.get(rate_lock_id, now) {
            None => return Err(SaveXError::NotFound),
            Some(rl) => rl,
        };
        if rl.owner != from {
            return Err(SaveXError::AuthorizationFailure);
        }
        if !rl.is_active {
            return Err(SaveXError::StateConflict);
        }
        if now > rl.expiry {
            return Err(SaveXError::PreconditionNotMet);
        }
        if amount > rl.amount {
            return Err(SaveXError::PreconditionNotMet);
        }
        let id: u64 = (self.transfers.len() as u64) + 1;
        let record = Transfer {
            id,
            from,
            to,
            token,
            amount,
            mode: TransferMode::Immediate { rate_lock_id: Some(rate_lock_id) },
            status: TransferStatus::Completed,
            created_at: now,
        };
        let stored_id = self.transfers.append(record, now);
        proof {
            assert(self@ =~= spec_transfer_with_rate_lock(
                pre, from, to, token, amount, rate_lock_id, now,
            ).0);
            lemma_wf_after_transfer_push(pre, self@, record);
        }
        Ok((
            stored_id,
            TokenMovement { token, from: Party::Account(from), to: Party::Account(to), amount },
        ))
    }
    /// Splits one payment into an immediate leg of
    /// `floor(total_amount * immediate_percentage / 100)`, settled now, and a
    /// scheduled leg for the exact remainder, held in custody until
    /// `schedule_after`.  A zero-amount leg is skipped and its identifier in
    /// the result is the sentinel 0.
    pub fn transfer_split(
        &mut self,
        from: u64,
        to: u64,
        token: u64,
        total_amount: i128,
        immediate_percentage: u32,
        schedule_after: u64,
        now: u64,
    ) -> (r: Result<((u64, u64), Vec<TokenMovement>), SaveXError>)
        requires
            state_wf(old(self)@),
            old(self)@.transfers.len() + 2 <= u64::MAX,
            total_amount <= MAX_QUOTE_AMOUNT,
            now <= MAX_OPERATING_TIME,
        ensures
            final(self)@ == spec_transfer_split(
                old(self)@, from, to, token, total_amount, immediate_percentage, schedule_after, now,
            ).0,
            split_result_matches(r, spec_transfer_split(
                old(self)@, from, to, token, total_amount, immediate_percentage, schedule_after, now,
            ).1),
            state_wf(final(self)@),
    {
        let ghost pre = self@;
        if self.paused {
            return Err(SaveXError::StateConflict);
        }
        if total_amount <= 0 {
            return Err(SaveXError::ValidationFailure);
        }
        if immediate_percentage > 100 {
            return Err(SaveXError::ValidationFailure);
        }
        if schedule_after <= now {
            return Err(SaveXError::ValidationFailure);
        }
        proof {
            lemma_mul_nonnegative(total_amount as int, immediate_percentage as int);
            lemma_mul_upper_bound(
                total_amount as int, MAX_QUOTE_AMOUNT as int, immediate_percentage as int, 100,
            );
            lemma_div_pos_is_pos(total_amount * immediate_percentage, 100);
            lemma_mul_inequality(immediate_percentage as int, 100, total_amount as int);
            lemma_div_is_ordered(
                total_amount * immediate_percentage, 100 * total_amount, 100,
            );
            lemma_div_multiples_vanish(total_amount as int, 100);
        }
        let immediate_amount: i128 = total_amount * (immediate_percentage as i128) / 100;
        let scheduled_amount: i128 = total_amount - immediate_amount;
        let mut movements: Vec<TokenMovement> = Vec::new();
        let immediate_id: u64;
        if immediate_amount > 0 {
            let id: u64 = (self.transfers.len() as u64) + 1;
            let record = Transfer {
                id,
                from,
                to,
                token,
                amount: immediate_amount,
                mode: TransferMode::SplitImmediate,
                status: TransferStatus::Completed,
                created_at: now,
            };
            let ghost stage = self@;
            self.transfers.append(record, now);
            proof {
                lemma_wf_after_transfer_push(stage, self@, record);
            }
            movements.push(TokenMovement {
                token,
                from: Party::Account(from),
                to: Party::Account(to),
                amount: immediate_amount,
            });
            immediate_id = id;
        } else {
            immediate_id = 0;
        }
        let scheduled_id: u64;
        if scheduled_amount > 0 {
            let id: u64 = (self.transfers.len() as u64) + 1;
            let record = Transfer {
                id,
                from,
                to,
                token,
                amount: scheduled_amount,
                mode: TransferMode::SplitScheduled {
                    execute_bound: TimeBound {
                        kind: TimeBoundKind::After,
                        timestamp: schedule_after,
                    },
                },
                status: TransferStatus::Locked,
                created_at: now,
            };
            let ghost stage = self@;
            self.transfers.append(record, now);
            proof {
                lemma_wf_after_transfer_push(stage, self@, record);
            }
            movements.push(TokenMovement {
                token,
                from: Party::Account(from),
                to: Party::Custody,
                amount: scheduled_amount,
            });
            scheduled_id = id;
        } else {
            scheduled_id = 0;
        }
        proof {
            let step = spec_transfer_split(
                pre, from, to, token, total_amount, immediate_percentage, schedule_after, now,
            );
            assert(self@.transfers =~= step.0.transfers);
            assert(self@ =~= step.0);
            assert(movements@ =~= step.1->Ok_0.1);
        }
        Ok(((immediate_id, scheduled_id), movements))
    }

    /// Settles up to [`MAX_BATCH_SIZE`] independent transfers sharing one
    /// sender and token, strictly in input order with increasing
    /// identifiers.  Any single non-positive amount anywhere in the batch
    /// refuses the whole batch: no record is stored and no movement is
    /// produced.
    pub fn transfer_batch(
        &mut self,
        from: u64,
        recipients: &Vec<u64>,
        token: u64,
        amounts: &Vec<i128>,
        now: u64,
    ) -> (r: Result<(Vec<u64>, Vec<TokenMovement>), SaveXError>)
        requires
            state_wf(old(self)@),
            old(self)@.transfers.len() + recipients@.len() <= u64::MAX,
            now <= MAX_OPERATING_TIME,
        ensures
            final(self)@ == spec_transfer_batch(
                old(self)@, from, recipients@, token, amounts@, now,
            ).0,
            batch_result_matches(r, spec_transfer_batch(
                old(self)@, from, recipients@, token, amounts@, now,
            ).1),
            state_wf(final(self)@),
    {
        let ghost pre = self@;
        if self.paused {
            return Err(SaveXError::StateConflict);
        }
        let n = recipients.len();
        if n != amounts.len() {
            return Err(SaveXError::ValidationFailure);
        }
        if n == 0 {
            return Err(SaveXError::ValidationFailure);
        }
        if n > MAX_BATCH_SIZE {
            return Err(SaveXError::ValidationFailure);
        }
        let mut i: usize = 0;
        while i < n
            invariant
                self@ == pre,
                state_wf(pre),
                !pre.paused,
                n == amounts@.len(),
                n == recipients@.len(),
                0 < n <= MAX_BATCH_SIZE,
                i <= n,
                forall|j: int| 0 <= j < i ==> amounts@[j] > 0,
            decreases n - i,
        {
            if amounts[i] <= 0 {
                return Err(SaveXError::ValidationFailure);
            }
            i += 1;
        }
        let mut ids: Vec<u64> = Vec::new();
        let mut movements: Vec<TokenMovement> = Vec::new();
        let mut k: usize = 0;
        while k < n
            invariant
                state_wf(self@),
                n == amounts@.len(),
                n == recipients@.len(),
                k <= n,
                spec_amounts_all_positive(amounts@),
                pre.transfers.len() + n <= u64::MAX,
                now <= MAX_OPERATING_TIME,
                self@.transfers.len() == pre.transfers.len() + k,
                forall|j: int| 0 <= j < pre.transfers.len()
                    ==> #[trigger] self@.transfers[j] == pre.transfers[j],
                forall|j: int| 0 <= j < k
                    ==> #[trigger] self@.transfers[pre.transfers.len() + j] == fresh_entry(
                        spec_batch_record(
                            (pre.transfers.len() + j + 1) as u64,
                            from,
                            recipients@[j],
                            token,
                            amounts@[j],
                            now,
                        ),
                        now,
                    ),
                self@.admin == pre.admin,
                self@.paused == pre.paused,
                self@.router == pre.router,
                self@.factory == pre.factory,
                self@.package_count == pre.package_count,
                self@.rate_locks == pre.rate_locks,
                self@.packages == pre.packages,
                ids@.len() == k,
                forall|j: int| 0 <= j < k
                    ==> #[trigger] ids@[j] == (pre.transfers.len() + j + 1) as u64,
                movements@.len() == k,
                forall|j: int| 0 <= j < k
                    ==> #[trigger] movements@[j] == (TokenMovement {
                        token,
                        from: Party::Account(from),
                        to: Party::Account(recipients@[j]),
                        amount: amounts@[j],
                    }),
            decreases n - k,
        {
            let id: u64 = (self.transfers.len() as u64) + 1;
            let record = Transfer {
                id,
                from,
                to: recipients[k],
                token,
                amount: amounts[k],
                mode: TransferMode::Batched,
                status: TransferStatus::Completed,
                created_at: now,
            };
            let ghost stage = self@;
            self.transfers.append(record, now);
            proof {
                lemma_wf_after_transfer_push(stage, self@, record);
            }
            ids.push(id);
            movements.push(TokenMovement {
                token,
                from: Party::Account(from),
                to: Party::Account(recipients[k]),
                amount: amounts[k],
            });
            k += 1;
        }
        proof {
            let step = spec_transfer_batch(pre, from, recipients@, token, amounts@, now);
            assert(self@.transfers =~= step.0.transfers);
            assert(self@ =~= step.0);
            assert(ids@ =~= step.1->Ok_0.0);
            assert(movements@ =~= step.1->Ok_0.1);
        }
        Ok((ids, movements))
    }
}

/// Pushing one well-formed record carrying the next identifier preserves the
/// ledger invariant.
pub proof fn lemma_wf_after_transfer_push(pre: StateModel, post: StateModel, record: Transfer)
    requires
        state_wf(pre),
        transfer_record_ok(record, pre.transfers.len() as int + 1),
        post.transfers.len() == pre.transfers.len() + 1,
        forall|i: int| 0 <= i < pre.transfers.len()
            ==> #[trigger] post.transfers[i] == pre.transfers[i],
        post.transfers[pre.transfers.len() as int].value == record,
        post.rate_locks == pre.rate_locks,
        post.packages == pre.packages,
    ensures
        state_wf(post),
{
}

/// Overwriting the record under `id` with a well-formed record carrying the
/// same identifier preserves the ledger invariant.
pub proof fn lemma_wf_after_transfer_update(pre: StateModel, post: StateModel, id: int, record: Transfer)
    requires
        state_wf(pre),
        1 <= id <= pre.transfers.len(),
        transfer_record_ok(record, id),
        post.transfers.len() == pre.transfers.len(),
        forall|i: int| 0 <= i < pre.transfers.len() && i != id - 1
            ==> #[trigger] post.transfers[i] == pre.transfers[i],
        post.transfers[id - 1].value == record,
        post.rate_locks == pre.rate_locks,
        post.packages == pre.packages,
    ensures
        state_wf(post),
{
}

} // verus!
