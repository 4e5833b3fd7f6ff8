//! Ledger core for a cross-border remittance platform.
//!
//! The crate models the full lifecycle of value transfers (immediate,
//! time-delayed, split and batched delivery), exchange-rate reservations,
//! subscription-based fee discounting, and the orchestration of currency
//! conversions through an external swap venue.
//!
//! The core is host-independent: accounts, tokens and venues are plain
//! identifiers, the current ledger time is handed into every operation, and
//! asset movements are returned as explicit [`types::TokenMovement`] values
//! for the surrounding host to carry out.  Every operation either applies its
//! full effect or leaves the state untouched and reports an error.

pub mod errors;
pub mod types;
pub mod store;
pub mod state;
pub mod transfers;
pub mod ratelock;
pub mod packages;
pub mod fees;
pub mod quotes;
pub mod swap;
pub mod arbitrage;
pub mod laws;
