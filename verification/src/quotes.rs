//! Quoting: the order-book venue heuristic, the best-of-two-venues
//! comparison, read-only conversion estimates, and route suggestion.
//!
//! The swap venue itself is an external collaborator: the host queries it
//! (see [`SaveXContract::soroswap_quote_request`]) and hands the reported
//! quote into the decision functions here, which are verified for every
//! value the venue may report.

use vstd::prelude::*;
use vstd::arithmetic::div_mod::lemma_div_pos_is_pos;
use vstd::arithmetic::mul::lemma_mul_upper_bound;
use crate::errors::SaveXError;
use crate::state::{SaveXContract, StateModel};
use crate::types::{SwapPath, MAX_QUOTE_AMOUNT};

verus! {

/// The order-book venue's quote: a static conservative heuristic of 99.85%
/// of the input (a typical spread), with a same-token conversion quoted at
/// par.  That venue is never actually queried; this is a documented
/// approximation, not a market read.
pub open spec fn spec_stellar_quote(from_token: u64, to_token: u64, amount: i128) -> int {
    if from_token == to_token {
        amount as int
    } else {
        amount * 9985 / 10000
    }
}

/// Which of the two venues a comparison picks: the order-book heuristic
/// (tagged 0) when strictly higher, else the pool venue's reported quote
/// (tagged 1).  Requires both venue addresses to be configured.
pub open spec fn spec_best_dex_quote(
    s: StateModel,
    from_token: u64,
    to_token: u64,
    amount: i128,
    pool_quote: i128,
) -> Result<(u32, i128), SaveXError> {
    if s.router is None || s.factory is None {
        Err(SaveXError::ConfigurationMissing)
    } else {
        let stellar = spec_stellar_quote(from_token, to_token, amount);
        if stellar > pool_quote {
            Ok((0u32, stellar as i128))
        } else {
            Ok((1u32, pool_quote))
        }
    }
}

/// A read-only conversion estimate: a same-token conversion is quoted at
/// par without consulting the venue; otherwise the venue must be configured
/// and its reported quote is returned unchanged.
pub open spec fn spec_estimate_swap_output(
    s: StateModel,
    from_token: u64,
    to_token: u64,
    amount: i128,
    pool_quote: i128,
) -> Result<i128, SaveXError> {
    if from_token == to_token {
        Ok(amount)
    } else if s.router is None || s.factory is None {
        Err(SaveXError::ConfigurationMissing)
    } else {
        Ok(pool_quote)
    }
}

/// Quotes the order-book venue's heuristic output for converting `amount`
/// of `from_token` into `to_token`: `amount` itself at par for a same-token
/// pair, else 99.85% of the input.
pub fn get_stellar_dex_quote(from_token: u64, to_token: u64, amount: i128) -> (r: i128)
    requires
        0 <= amount <= MAX_QUOTE_AMOUNT,
    ensures
        r == spec_stellar_quote(from_token, to_token, amount),
{
    if from_token == to_token {
        return amount;
    }
    proof {
        lemma_mul_upper_bound(amount as int, MAX_QUOTE_AMOUNT as int, 9985, 10000);
        lemma_div_pos_is_pos(amount * 9985, 10000);
    }
    (amount * 9985) / 10000
}

impl SaveXContract {
    /// The query the host must put to the pool venue for a quote: the
    /// two-token path from `from_token` to `to_token`.  Fails with
    /// `ConfigurationMissing` unless both venue addresses are configured.
    /// The venue's reported output for this path is what
    /// [`Self::get_best_dex_quote`] and [`Self::estimate_swap_output`] take
    /// as `pool_quote`.
    pub fn soroswap_quote_request(&self, from_token: u64, to_token: u64) -> (r: Result<
        Vec<u64>,
        SaveXError,
    >)
        ensures
            self@.router is Some && self@.factory is Some ==> (r matches Ok(path)
                && path@ =~= seq![from_token, to_token]),
            self@.router is None || self@.factory is None ==> (r matches Err(e)
                && e == SaveXError::ConfigurationMissing),
    {
        if self.router.is_none() || self.factory.is_none() {
            return Err(SaveXError::ConfigurationMissing);
        }
        let mut path: Vec<u64> = Vec::new();
        path.push(from_token);
        path.push(to_token);
        Ok(path)
    }

    /// Compares the pool venue's reported quote with the order-book
    /// heuristic and returns the higher, tagged by venue (0 the order-book
    /// venue, 1 the pool venue).  `pool_quote` is the venue's reported
    /// output for the two-token path of
    /// [`Self::soroswap_quote_request`].
    pub fn get_best_dex_quote(
        &self,
        from_token: u64,
        to_token: u64,
        amount: i128,
        pool_quote: i128,
    ) -> (r: Result<(u32, i128), SaveXError>)
        requires
            0 <= amount <= MAX_QUOTE_AMOUNT,
        ensures
            r == spec_best_dex_quote(self@, from_token, to_token, amount, pool_quote),
    {
        if self.router.is_none() || self.factory.is_none() {
            return Err(SaveXError::ConfigurationMissing);
        }
        let stellar_quote = get_stellar_dex_quote(from_token, to_token, amount);
        if stellar_quote > pool_quote {
            Ok((0, stellar_quote))
        } else {
            Ok((1, pool_quote))
        }
    }

    /// Estimates the output of converting `amount` of `from_token` into
    /// `to_token`: par for a same-token pair, else the configured pool
    /// venue's reported quote, unchanged.
    pub fn estimate_swap_output(
        &self,
        from_token: u64,
        to_token: u64,
        amount: i128,
        pool_quote: i128,
    ) -> (r: Result<i128, SaveXError>)
        ensures
            r == spec_estimate_swap_output(self@, from_token, to_token, amount, pool_quote),
    {
        if from_token == to_token {
            return Ok(amount);
        }
        if self.router.is_none() || self.factory.is_none() {
            return Err(SaveXError::ConfigurationMissing);
        }
        Ok(pool_quote)
    }
}

/// Suggests a conversion route between two tokens: currently always the
/// direct route with no intermediaries; multi-hop route optimization is an
/// off-path concern.
pub fn get_swap_path(from_token: u64, to_token: u64) -> (r: SwapPath)
    ensures
        r.from_token == from_token,
        r.to_token == to_token,
        r.intermediary_tokens@ =~= Seq::<u64>::empty(),
{
    SwapPath { from_token, to_token, intermediary_tokens: Vec::new() }
}

} // verus!
