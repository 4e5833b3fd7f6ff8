//! Opportunistic arbitrage: thin compositions of the swap primitive with a
//! profit floor check.
//!
//! Each round is a plan/settle pair around one venue call, which the host
//! performs: `plan_*` validates the request and yields the debit of the
//! stake into custody together with the venue call, and `settle_*` takes
//! the venue's reported output, enforces the profit floor, and yields the
//! payout movements.  If the venue call or any movement fails, the host
//! abandons the round with nothing settled.

use vstd::prelude::*;
use vstd::arithmetic::div_mod::lemma_div_is_ordered;
use vstd::arithmetic::mul::lemma_mul_nonnegative;
use crate::errors::SaveXError;
use crate::swap::SwapAction;
use crate::types::{Party, TokenMovement, SWAP_DEADLINE_DELAY, MAX_OPERATING_TIME};

verus! {

/// The arbitrage helper.  It holds no state of its own: the venue router
/// address is handed in by the host (see
/// [`crate::state::SaveXContract::get_router_address`]).
pub struct ArbitrageBot {}

/// Outcome of settling a direct round: the profit `output - amount`,
/// refused with `SlippageViolation` below the floor, and the payout of the
/// whole output to the executor.
pub open spec fn spec_settle_direct(
    executor: u64,
    token_b: u64,
    amount: i128,
    min_profit: i128,
    output: i128,
) -> Result<(i128, TokenMovement), SaveXError> {
    if output - amount < min_profit {
        Err(SaveXError::SlippageViolation)
    } else {
        Ok((
            (output - amount) as i128,
            TokenMovement {
                token: token_b,
                from: Party::Custody,
                to: Party::Account(executor),
                amount: output,
            },
        ))
    }
}

/// Outcome of settling a triangular round: as
/// [`spec_settle_direct`], with the payout in the cycle's start token.
pub open spec fn spec_settle_triangular(
    executor: u64,
    start_token: u64,
    amount: i128,
    min_profit: i128,
    final_output: i128,
) -> Result<(i128, TokenMovement), SaveXError> {
    if final_output - amount < min_profit {
        Err(SaveXError::SlippageViolation)
    } else {
        Ok((
            (final_output - amount) as i128,
            TokenMovement {
                token: start_token,
                from: Party::Custody,
                to: Party::Account(executor),
                amount: final_output,
            },
        ))
    }
}

/// Outcome of settling a flash round: the borrowed stake repays the
/// executor in full and the profit pays out in the path's final token,
/// refused with `SlippageViolation` below the floor.
pub open spec fn spec_settle_flash(
    executor: u64,
    borrow_token: u64,
    profit_token: u64,
    borrow_amount: i128,
    min_profit: i128,
    final_output: i128,
) -> Result<(i128, (TokenMovement, TokenMovement)), SaveXError> {
    if final_output - borrow_amount < min_profit {
        Err(SaveXError::SlippageViolation)
    } else {
        Ok((
            (final_output - borrow_amount) as i128,
            (
                TokenMovement {
                    token: borrow_token,
                    from: Party::Custody,
                    to: Party::Account(executor),
                    amount: borrow_amount,
                },
                TokenMovement {
                    token: profit_token,
                    from: Party::Custody,
                    to: Party::Account(executor),
                    amount: (final_output - borrow_amount) as i128,
                },
            ),
        ))
    }
}

impl ArbitrageBot {
    /// Plans a direct arbitrage round between two tokens: validates the
    /// stake and floor, and yields the debit of the stake into custody with
    /// the venue call for the two-token path.  The venue call carries the
    /// profit floor as its minimum output.  The host must have
    /// authenticated `executor`.
    pub fn plan_direct(
        router: Option<u64>,
        executor: u64,
        token_a: u64,
        token_b: u64,
        amount: i128,
        min_profit: i128,
        now: u64,
    ) -> (r: Result<(TokenMovement, SwapAction), SaveXError>)
        requires
            now <= MAX_OPERATING_TIME,
        ensures
            ({
                if amount <= 0 {
                    r matches Err(e) && e == SaveXError::ValidationFailure
                } else if min_profit < 0 {
                    r matches Err(e) && e == SaveXError::ValidationFailure
                } else if router is None {
                    r matches Err(e) && e == SaveXError::ConfigurationMissing
                } else {
                    r matches Ok(p) && {
                        &&& p.0 == (TokenMovement {
                            token: token_a,
                            from: Party::Account(executor),
                            to: Party::Custody,
                            amount,
                        })
                        &&& p.1.amount_in == amount
                        &&& p.1.min_output == min_profit
                        &&& p.1.path@ =~= seq![token_a, token_b]
                        &&& p.1.deadline == now + SWAP_DEADLINE_DELAY
                    }
                }
            }),
    {
        if amount <= 0 {
            return Err(SaveXError::ValidationFailure);
        }
        if min_profit < 0 {
            return Err(SaveXError::ValidationFailure);
        }
        if router.is_none() {
            return Err(SaveXError::ConfigurationMissing);
        }
        let mut path: Vec<u64> = Vec::new();
        path.push(token_a);
        path.push(token_b);
        Ok((
            TokenMovement {
                token: token_a,
                from: Party::Account(executor),
                to: Party::Custody,
                amount,
            },
            SwapAction {
                amount_in: amount,
                min_output: min_profit,
                path,
                deadline: now + SWAP_DEADLINE_DELAY,
            },
        ))
    }

    /// Settles a direct round with the venue's reported output: the profit
    /// is `output - amount`, the round is refused with `SlippageViolation`
    /// below the floor, and the whole output pays out to the executor.
    pub fn settle_direct(
        executor: u64,
        token_b: u64,
        amount: i128,
        min_profit: i128,
        output: i128,
    ) -> (r: Result<(i128, TokenMovement), SaveXError>)
        requires
            0 <= amount,
            0 <= output,
        ensures
            r == spec_settle_direct(executor, token_b, amount, min_profit, output),
    {
        let profit = output - amount;
        if profit < min_profit {
            return Err(SaveXError::SlippageViolation);
        }
        Ok((
            profit,
            TokenMovement {
                token: token_b,
                from: Party::Custody,
                to: Party::Account(executor),
                amount: output,
            },
        ))
    }

    /// Plans a triangular round through a cycle of pools: the path must
    /// hold at least three tokens and return to its start.  The whole cycle
    /// is one venue call with no minimum output; the floor is enforced at
    /// settlement.  The host must have authenticated `executor`.
    pub fn plan_triangular(
        router: Option<u64>,
        executor: u64,
        path: &Vec<u64>,
        amount: i128,
        min_profit: i128,
        now: u64,
    ) -> (r: Result<(TokenMovement, SwapAction), SaveXError>)
        requires
            now <= MAX_OPERATING_TIME,
        ensures
            ({
                if amount <= 0 {
                    r matches Err(e) && e == SaveXError::ValidationFailure
                } else if path@.len() < 3 {
                    r matches Err(e) && e == SaveXError::ValidationFailure
                } else if path@[0] != path@[path@.len() - 1] {
                    r matches Err(e) && e == SaveXError::ValidationFailure
                } else if router is None {
                    r matches Err(e) && e == SaveXError::ConfigurationMissing
                } else {
                    r matches Ok(p) && {
                        &&& p.0 == (TokenMovement {
                            token: path@[0],
                            from: Party::Account(executor),
                            to: Party::Custody,
                            amount,
                        })
                        &&& p.1.amount_in == amount
                        &&& p.1.min_output == 0
                        &&& p.1.path@ =~= path@
                        &&& p.1.deadline == now + SWAP_DEADLINE_DELAY
                    }
                }
            }),
    {
        if amount <= 0 {
            return Err(SaveXError::ValidationFailure);
        }
        if path.len() < 3 {
            return Err(SaveXError::ValidationFailure);
        }
        let start_token = path[0];
        let end_token = path[path.len() - 1];
        if start_token != end_token {
            return Err(SaveXError::ValidationFailure);
        }
        if router.is_none() {
            return Err(SaveXError::ConfigurationMissing);
        }
        let mut action_path: Vec<u64> = Vec::new();
        let mut i: usize = 0;
        while i < path.len()
            invariant
                i <= path@.len(),
                action_path@ =~= path@.subrange(0, i as int),
            decreases path@.len() - i,
        {
            action_path.push(path[i]);
            i += 1;
        }
        proof {
            assert(action_path@ =~= path@);
        }
        Ok((
            TokenMovement {
                token: start_token,
                from: Party::Account(executor),
                to: Party::Custody,
                amount,
            },
            SwapAction {
                amount_in: amount,
                min_output: 0,
                path: action_path,
                deadline: now + SWAP_DEADLINE_DELAY,
            },
        ))
    }

    /// Settles a triangular round with the venue's reported final output:
    /// the profit is `final_output - amount` in the cycle's start token.
    pub fn settle_triangular(
        executor: u64,
        start_token: u64,
        amount: i128,
        min_profit: i128,
        final_output: i128,
    ) -> (r: Result<(i128, TokenMovement), SaveXError>)
        requires
            0 <= amount,
            0 <= final_output,
        ensures
            r == spec_settle_triangular(executor, start_token, amount, min_profit, final_output),
    {
        let profit = final_output - amount;
        if profit < min_profit {
            return Err(SaveXError::SlippageViolation);
        }
        Ok((
            profit,
            TokenMovement {
                token: start_token,
                from: Party::Custody,
                to: Party::Account(executor),
                amount: final_output,
            },
        ))
    }

    /// The profit a round would make given the venue's reported output for
    /// the stake: simply `output - amount`, which may be negative.
    pub fn estimate_arbitrage_profit(amount: i128, output: i128) -> (r: i128)
        requires
            0 <= amount,
            0 <= output,
        ensures
            r == output - amount,
    {
        output - amount
    }

    /// Whether a round is worth taking: the profit the venue's reported
    /// output implies meets a floor of `min_profit_bps` basis points of the
    /// stake.
    pub fn has_arbitrage_opportunity(
        amount: i128,
        output: i128,
        min_profit_bps: u32,
    ) -> (r: bool)
        requires
            0 <= amount,
            0 <= output,
            amount * min_profit_bps <= i128::MAX,
        ensures
            r == (output - amount >= amount * min_profit_bps / 10000),
    {
        proof {
            lemma_mul_nonnegative(amount as int, min_profit_bps as int);
            lemma_div_is_ordered(0, amount * min_profit_bps, 10000);
        }
        let min_profit: i128 = amount * (min_profit_bps as i128) / 10000;
        let profit = output - amount;
        profit >= min_profit
    }

    /// Plans a flash round: the executor's stake of `borrow_amount` is
    /// debited into custody and swapped along the whole path in one venue
    /// call with no minimum output; the floor is enforced at settlement.
    /// The host must have authenticated `executor`.
    pub fn plan_flash(
        router: Option<u64>,
        executor: u64,
        borrow_token: u64,
        borrow_amount: i128,
        swap_path: &Vec<u64>,
        now: u64,
    ) -> (r: Result<(TokenMovement, SwapAction), SaveXError>)
        requires
            now <= MAX_OPERATING_TIME,
        ensures
            ({
                if borrow_amount <= 0 {
                    r matches Err(e) && e == SaveXError::ValidationFailure
                } else if swap_path@.len() < 2 {
                    r matches Err(e) && e == SaveXError::ValidationFailure
                } else if router is None {
                    r matches Err(e) && e == SaveXError::ConfigurationMissing
                } else {
                    r matches Ok(p) && {
                        &&& p.0 == (TokenMovement {
                            token: borrow_token,
                            from: Party::Account(executor),
                            to: Party::Custody,
                            amount: borrow_amount,
                        })
                        &&& p.1.amount_in == borrow_amount
                        &&& p.1.min_output == 0
                        &&& p.1.path@ =~= swap_path@
                        &&& p.1.deadline == now + SWAP_DEADLINE_DELAY
                    }
                }
            }),
    {
        if borrow_amount <= 0 {
            return Err(SaveXError::ValidationFailure);
        }
        if swap_path.len() < 2 {
            return Err(SaveXError::ValidationFailure);
        }
        if router.is_none() {
            return Err(SaveXError::ConfigurationMissing);
        }
        let mut action_path: Vec<u64> = Vec::new();
        let mut i: usize = 0;
        while i < swap_path.len()
            invariant
                i <= swap_path@.len(),
                action_path@ =~= swap_path@.subrange(0, i as int),
            decreases swap_path@.len() - i,
        {
            action_path.push(swap_path[i]);
            i += 1;
        }
        proof {
            assert(action_path@ =~= swap_path@);
        }
        Ok((
            TokenMovement {
                token: borrow_token,
                from: Party::Account(executor),
                to: Party::Custody,
                amount: borrow_amount,
            },
            SwapAction {
                amount_in: borrow_amount,
                min_output: 0,
                path: action_path,
                deadline: now + SWAP_DEADLINE_DELAY,
            },
        ))
    }

    /// Settles a flash round with the venue's reported final output: the
    /// borrowed stake repays the executor in full, and the profit
    /// `final_output - borrow_amount` pays out in the path's final token.
    /// The floor is the caller's to choose: one below zero admits a
    /// loss-making round, whose negative profit payout the custody
    /// collaborator will refuse to move.
    pub fn settle_flash(
        executor: u64,
        borrow_token: u64,
        profit_token: u64,
        borrow_amount: i128,
        min_profit: i128,
        final_output: i128,
    ) -> (r: Result<(i128, (TokenMovement, TokenMovement)), SaveXError>)
        requires
            0 <= borrow_amount,
            0 <= final_output,
        ensures
            r == spec_settle_flash(
                executor, borrow_token, profit_token, borrow_amount, min_profit, final_output,
            ),
    {
        let profit = final_output - borrow_amount;
        if profit < min_profit {
            return Err(SaveXError::SlippageViolation);
        }
        Ok((
            profit,
            (
                TokenMovement {
                    token: borrow_token,
                    from: Party::Custody,
                    to: Party::Account(executor),
                    amount: borrow_amount,
                },
                TokenMovement {
                    token: profit_token,
                    from: Party::Custody,
                    to: Party::Account(executor),
                    amount: profit,
                },
            ),
        ))
    }
}

} // verus!
