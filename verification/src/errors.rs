//! Error taxonomy shared by every operation of the ledger core.

use vstd::prelude::*;

verus! {

/// Why an operation was refused.  Every failure is fatal to the attempted
/// operation: the state is left exactly as it was and no asset movement is
/// produced.
///
/// - `AuthorizationFailure`: the caller is not the party a record belongs to,
///   or not the administrator.
/// - `ValidationFailure`: a non-positive amount, an out-of-range percentage or
///   duration, a malformed swap path, or mismatched batch inputs.
/// - `StateConflict`: the operation needs a record (or the whole ledger) in a
///   status it is not in — a terminal transfer, an inactive rate lock or
///   package, a paused ledger, or a second initialization.
/// - `NotFound`: no live record under the given identifier or owner.
/// - `PreconditionNotMet`: a time bound not yet (or no longer) satisfied, an
///   expired rate lock, an amount above a rate lock's ceiling, or a duplicate
///   active package.
/// - `ConfigurationMissing`: the administrator or a venue address has not been
///   set.
/// - `SlippageViolation`: a conversion's output fell short of the caller's
///   floor, or an arbitrage round fell short of its profit floor.
#[derive(Clone, Copy, Debug, PartialEq, Eq, Structural)]
pub enum SaveXError {
    AuthorizationFailure,
    ValidationFailure,
    StateConflict,
    NotFound,
    PreconditionNotMet,
    ConfigurationMissing,
    SlippageViolation,
}

} // verus!
