//! Swap orchestration: single- or multi-hop conversions through the
//! external venue, under slippage bounds.
//!
//! The venue is an external collaborator, so a conversion is a short
//! session: [`SaveXContract::begin_swap_transfer`] validates the request and
//! yields the custody debit, [`SwapSession::next_action`] names each venue
//! call (intermediate hops carry a zero minimum — only the final hop
//! enforces the caller's floor), [`SwapSession::apply_output`] threads the
//! venue's reported output into the next hop, and
//! [`SaveXContract::complete_swap_transfer`] checks the floor, records the
//! transfer and yields the custody credit.  The host performs the venue
//! calls and custody movements; if any of them fails it abandons the
//! session, and the ledger state has never changed.

use vstd::prelude::*;
use crate::errors::SaveXError;
use crate::state::{state_wf, SaveXContract, StateModel};
use crate::transfers::{fresh_entry, lemma_wf_after_transfer_push, spec_immediate_record};
use crate::types::{
    Party, TokenMovement, Transfer, TransferMode, TransferStatus, MAX_OPERATING_TIME,
    SWAP_DEADLINE_DELAY,
};

verus! {

/// One venue call the host must make: swap exactly `amount_in` along the
/// two-or-more-token `path`, demanding at least `min_output` out, with the
/// venue delivering to custody, no later than `deadline`.
#[derive(Clone, Debug)]
pub struct SwapAction {
    pub amount_in: i128,
    pub min_output: i128,
    pub path: Vec<u64>,
    pub deadline: u64,
}

/// An in-progress conversion: the token chain, how many hops are settled,
/// and the amount the next hop converts (the final output once done).
#[derive(Clone, Debug)]
#[verifier::ext_equal]
pub struct SwapSession {
    /// Sender whose funds were debited into custody.
    pub from: u64,
    /// Recipient of the final output.
    pub to: u64,
    /// The conversion chain: input token, intermediaries in order, output
    /// token.
    pub tokens: Vec<u64>,
    /// Hops settled so far; hop `i` converts `tokens[i]` into
    /// `tokens[i + 1]`.
    pub next_hop: usize,
    /// Input of the next hop; once done, the final output.
    pub current_amount: i128,
    /// The caller's floor, enforced on the final hop only.
    pub min_final_output: i128,
    /// Deadline every hop's venue call carries.
    pub deadline: u64,
}

/// A session as the orchestrator hands it out: a chain of at least two
/// tokens, a hop index within the chain, a positive floor and a non-negative
/// running amount.
pub open spec fn session_wf(s: SwapSession) -> bool {
    &&& s.tokens@.len() >= 2
    &&& s.next_hop <= s.tokens@.len() - 1
    &&& s.min_final_output > 0
    &&& s.current_amount >= 0
}

/// Whether every hop of the chain is settled.
pub open spec fn session_done(s: SwapSession) -> bool {
    s.next_hop == s.tokens@.len() - 1
}

/// The checks a conversion request must pass before any effect: unpaused,
/// positive amount and floor, and a configured venue router.
pub open spec fn spec_begin_swap_check(
    s: StateModel,
    amount: i128,
    min_output_amount: i128,
) -> Result<(), SaveXError> {
    if s.paused {
        Err(SaveXError::StateConflict)
    } else if amount <= 0 {
        Err(SaveXError::ValidationFailure)
    } else if min_output_amount <= 0 {
        Err(SaveXError::ValidationFailure)
    } else if s.router is None {
        Err(SaveXError::ConfigurationMissing)
    } else {
        Ok(())
    }
}

/// Step function of settling a finished session: refused for a malformed or
/// unfinished session, or with `SlippageViolation` when the final output
/// fell short of the caller's floor; otherwise records a `Completed`
/// transfer of the output in the final token and credits the recipient from
/// custody.
pub open spec fn spec_complete_swap(
    pre: StateModel,
    session: SwapSession,
    now: u64,
) -> (StateModel, Result<(u64, TokenMovement), SaveXError>) {
    if session.tokens@.len() < 2 || session.min_final_output <= 0 {
        (pre, Err(SaveXError::ValidationFailure))
    } else if session.next_hop != session.tokens@.len() - 1 {
        (pre, Err(SaveXError::StateConflict))
    } else if session.current_amount < session.min_final_output {
        (pre, Err(SaveXError::SlippageViolation))
    } else {
        let out_token = session.tokens@[session.tokens@.len() - 1];
        let id = (pre.transfers.len() + 1) as u64;
        let record = spec_immediate_record(
            id, session.from, session.to, out_token, session.current_amount, None, now,
        );
        (
            StateModel { transfers: pre.transfers.push(fresh_entry(record, now)), ..pre },
            Ok((
                id,
                TokenMovement {
                    token: out_token,
                    from: Party::Custody,
                    to: Party::Account(session.to),
                    amount: session.current_amount,
                },
            )),
        )
    }
}

impl SwapSession {
    /// Whether every hop is settled and the session is ready to complete.
    pub fn is_done(&self) -> (r: bool)
        requires
            session_wf(*self),
        ensures
            r == session_done(*self),
    {
        self.next_hop == self.tokens.len() - 1
    }

    /// The venue call for the next hop, or `None` once every hop is
    /// settled.  Intermediate hops carry a zero minimum output — no mid-path
    /// slippage enforcement; only the final hop carries the caller's floor.
    pub fn next_action(&self) -> (r: Option<SwapAction>)
        requires
            session_wf(*self),
        ensures
            session_done(*self) ==> r is None,
            !session_done(*self) ==> (r matches Some(a) && {
                &&& a.amount_in == self.current_amount
                &&& a.path@ =~= seq![
                    self.tokens@[self.next_hop as int],
                    self.tokens@[self.next_hop + 1],
                ]
                &&& a.min_output == (if self.next_hop + 2 == self.tokens@.len() {
                    self.min_final_output
                } else {
                    0
                })
                &&& a.deadline == self.deadline
            }),
    {
        if self.next_hop == self.tokens.len() - 1 {
            return None;
        }
        let mut path: Vec<u64> = Vec::new();
        path.push(self.tokens[self.next_hop]);
        path.push(self.tokens[self.next_hop + 1]);
        let min_output: i128 = if self.next_hop + 2 == self.tokens.len() {
            self.min_final_output
        } else {
            0
        };
        Some(SwapAction {
            amount_in: self.current_amount,
            min_output,
            path,
            deadline: self.deadline,
        })
    }

    /// Settles the next hop with the venue's reported output, which becomes
    /// the input of the following hop.  Refused once the session is done or
    /// for a negative report.
    pub fn apply_output(&mut self, output: i128) -> (r: Result<(), SaveXError>)
        requires
            session_wf(*old(self)),
        ensures
            session_done(*old(self)) ==> r == Err::<(), SaveXError>(SaveXError::StateConflict)
                && *final(self) == *old(self),
            !session_done(*old(self)) && output < 0 ==> r == Err::<(), SaveXError>(
                SaveXError::ValidationFailure,
            ) && *final(self) == *old(self),
            !session_done(*old(self)) && output >= 0 ==> r == Ok::<(), SaveXError>(())
                && *final(self) == (SwapSession {
                    next_hop: (old(self).next_hop + 1) as usize,
                    current_amount: output,
                    ..*old(self)
                }),
            session_wf(*final(self)),
    {
        if self.next_hop == self.tokens.len() - 1 {
            return Err(SaveXError::StateConflict);
        }
        if output < 0 {
            return Err(SaveXError::ValidationFailure);
        }
        self.next_hop = self.next_hop + 1;
        self.current_amount = output;
        Ok(())
    }
}

impl SaveXContract {
    /// Validates a conversion request and opens the session: the chain runs
    /// from `from_token` through `path` to `to_token`, every hop's venue
    /// call carries a deadline five minutes from `now`, and the returned
    /// movement is the debit of the input from the sender into custody,
    /// which the host performs before any hop.  The host must have
    /// authenticated `from`.
    pub fn begin_swap_transfer(
        &self,
        from: u64,
        to: u64,
        from_token: u64,
        to_token: u64,
        amount: i128,
        min_output_amount: i128,
        path: &Vec<u64>,
        now: u64,
    ) -> (r: Result<(SwapSession, TokenMovement), SaveXError>)
        requires
            now <= MAX_OPERATING_TIME,
        ensures
            r matches Err(e) ==> Err::<(), SaveXError>(e) == spec_begin_swap_check(
                self@, amount, min_output_amount,
            ),
            r is Ok <==> spec_begin_swap_check(self@, amount, min_output_amount) is Ok,
            r matches Ok(p) ==> {
                &&& p.0.from == from
                &&& p.0.to == to
                &&& p.0.tokens@ =~= seq![from_token] + path@ + seq![to_token]
                &&& p.0.next_hop == 0
                &&& p.0.current_amount == amount
                &&& p.0.min_final_output == min_output_amount
                &&& p.0.deadline == now + SWAP_DEADLINE_DELAY
                &&& session_wf(p.0)
                &&& !session_done(p.0)
                &&& p.1 == (TokenMovement {
                    token: from_token,
                    from: Party::Account(from),
                    to: Party::Custody,
                    amount,
                })
            },
    {
        if self.paused {
            return Err(SaveXError::StateConflict);
        }
        if amount <= 0 {
            return Err(SaveXError::ValidationFailure);
        }
        if min_output_amount <= 0 {
            return Err(SaveXError::ValidationFailure);
        }
        if self.router.is_none() {
            return Err(SaveXError::ConfigurationMissing);
        }
        let mut tokens: Vec<u64> = Vec::new();
        tokens.push(from_token);
        let mut i: usize = 0;
        while i < path.len()
            invariant
                i <= path@.len(),
                tokens@ =~= seq![from_token] + path@.subrange(0, i as int),
            decreases path@.len() - i,
        {
            tokens.push(path[i]);
            i += 1;
        }
        proof {
            assert(path@.subrange(0, path@.len() as int) =~= path@);
        }
        tokens.push(to_token);
        proof {
            assert(tokens@ =~= seq![from_token] + path@ + seq![to_token]);
        }
        let session = SwapSession {
            from,
            to,
            tokens,
            next_hop: 0,
            current_amount: amount,
            min_final_output: min_output_amount,
            deadline: now + SWAP_DEADLINE_DELAY,
        };
        Ok((
            session,
            TokenMovement { token: from_token, from: Party::Account(from), to: Party::Custody, amount },
        ))
    }

    /// Settles a finished session: demands the final output met the
    /// caller's floor, records the conversion as a `Completed` transfer of
    /// the output in the final token, and returns the credit of the output
    /// from custody to the recipient, which the host then performs.
    pub fn complete_swap_transfer(
        &mut self,
        session: &SwapSession,
        now: u64,
    ) -> (r: Result<(u64, TokenMovement), SaveXError>)
        requires
            state_wf(old(self)@),
            old(self)@.transfers.len() + 1 <= u64::MAX,
            now <= MAX_OPERATING_TIME,
        ensures
            (final(self)@, r) == spec_complete_swap(old(self)@, *session, now),
            state_wf(final(self)@),
    {
        let ghost pre = self@;
        if session.tokens.len() < 2 || session.min_final_output <= 0 {
            return Err(SaveXError::ValidationFailure);
        }
        if session.next_hop != session.tokens.len() - 1 {
            return Err(SaveXError::StateConflict);
        }
        if session.current_amount < session.min_final_output {
            return Err(SaveXError::SlippageViolation);
        }
        let out_token = session.tokens[session.tokens.len() - 1];
        let id: u64 = (self.transfers.len() as u64) + 1;
        let record = Transfer {
            id,
            from: session.from,
            to: session.to,
            token: out_token,
            amount: session.current_amount,
            mode: TransferMode::Immediate { rate_lock_id: None },
            status: TransferStatus::Completed,
            created_at: now,
        };
        self.transfers.append(record, now);
        proof {
            assert(self@ =~= spec_complete_swap(pre, *session, now).0);
            lemma_wf_after_transfer_push(pre, self@, record);
        }
        Ok((
            id,
            TokenMovement {
                token: out_token,
                from: Party::Custody,
                to: Party::Account(session.to),
                amount: session.current_amount,
            },
        ))
    }
}

} // verus!
