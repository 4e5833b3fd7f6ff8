//! Data model: transfers, rate locks, packages, fees, and the asset-movement
//! effect values the host executes.

use vstd::prelude::*;

verus! {

/// Longest allowed lifetime of an exchange-rate reservation, in seconds (24h).
pub const MAX_RATE_LOCK_DURATION: u64 = 86400;

/// Seconds per day, used when a package duration is given in days.
pub const SECONDS_PER_DAY: u64 = 86400;

/// Longest allowed package subscription, in days.
pub const MAX_PACKAGE_DURATION_DAYS: u32 = 365;

/// Largest batch a single batched transfer may carry.
pub const MAX_BATCH_SIZE: usize = 50;

/// How long a venue call stays valid once issued, in seconds (5 minutes).
pub const SWAP_DEADLINE_DELAY: u64 = 300;

/// Upper bound on ledger timestamps the core operates at.  It leaves room for
/// the farthest horizon any operation adds to `now` (a 365-day package end
/// plus a storage-lifetime refresh), so no time arithmetic can overflow.
pub const MAX_OPERATING_TIME: u64 = u64::MAX - 32140800;

/// Upper bound on amounts that enter fee or quote arithmetic: amounts are
/// multiplied by factors of at most 10000 (basis points), and the product must
/// fit in an `i128`.
pub const MAX_QUOTE_AMOUNT: i128 = 17014118346046923173168730371588410;

/// A party that can hold assets: an external account, or the ledger's own
/// custody (funds held pending a future scheduled release or a conversion).
#[derive(Clone, Copy, Debug, PartialEq, Eq, Structural)]
pub enum Party {
    Account(u64),
    Custody,
}

/// One synchronous asset movement the host must carry out against the
/// custody primitive: `amount` units of `token` move from `from` to `to`.
#[derive(Clone, Copy, Debug, PartialEq, Eq, Structural)]
pub struct TokenMovement {
    pub token: u64,
    pub from: Party,
    pub to: Party,
    pub amount: i128,
}

/// Which side of a timestamp a time bound admits.
#[derive(Clone, Copy, Debug, PartialEq, Eq, Structural)]
pub enum TimeBoundKind {
    Before,
    After,
}

/// A time bound on executing a transfer: satisfied at `t` when `t` is on the
/// admitted side of `timestamp` (inclusive on both kinds).
#[derive(Clone, Copy, Debug, PartialEq, Eq, Structural)]
pub struct TimeBound {
    pub kind: TimeBoundKind,
    pub timestamp: u64,
}

impl TimeBound {
    /// Whether the bound admits execution at ledger time `now`.
    pub open spec fn spec_satisfied_at(self, now: u64) -> bool {
        match self.kind {
            TimeBoundKind::Before => now <= self.timestamp,
            TimeBoundKind::After => now >= self.timestamp,
        }
    }

    /// Executable form of [`Self::spec_satisfied_at`].
    pub fn satisfied_at(&self, now: u64) -> (r: bool)
        ensures
            r == self.spec_satisfied_at(now),
    {
        match self.kind {
            TimeBoundKind::Before => now <= self.timestamp,
            TimeBoundKind::After => now >= self.timestamp,
        }
    }
}

/// The delivery mode a transfer record was created under.
#[derive(Clone, Copy, Debug, PartialEq, Eq, Structural)]
pub enum TransferType {
    Immediate,
    Scheduled,
    Split,
    Batched,
}

/// Lifecycle status of a transfer record.  `Completed` and `Cancelled` are
/// terminal; `Pending` is reserved and unused by the current flows.
#[derive(Clone, Copy, Debug, PartialEq, Eq, Structural)]
pub enum TransferStatus {
    Pending,
    Locked,
    Completed,
    Cancelled,
}

/// Mode-specific payload of a transfer record: each variant holds only the
/// fields its delivery mode uses.
#[derive(Clone, Copy, Debug)]
pub enum TransferMode {
    /// Settled synchronously; optionally consumed an exchange-rate lock.
    Immediate { rate_lock_id: Option<u64> },
    /// Funds in custody until `execute_bound` admits release.
    Scheduled { execute_bound: TimeBound },
    /// The synchronously settled leg of a split transfer.
    SplitImmediate,
    /// The custody-held leg of a split transfer.
    SplitScheduled { execute_bound: TimeBound },
    /// One entry of a batched transfer, settled synchronously.
    Batched,
}

impl TransferMode {
    /// The delivery mode a record of this payload reports.
    pub open spec fn spec_transfer_type(self) -> TransferType {
        match self {
            TransferMode::Immediate { .. } => TransferType::Immediate,
            TransferMode::Scheduled { .. } => TransferType::Scheduled,
            TransferMode::SplitImmediate => TransferType::Split,
            TransferMode::SplitScheduled { .. } => TransferType::Split,
            TransferMode::Batched => TransferType::Batched,
        }
    }
}

/// A transfer record.  Records are only ever appended and their status only
/// ever moves from `Locked` to a terminal status; identifiers are allocated
/// monotonically starting at 1.
#[derive(Clone, Copy, Debug)]
pub struct Transfer {
    pub id: u64,
    pub from: u64,
    pub to: u64,
    pub token: u64,
    pub amount: i128,
    pub mode: TransferMode,
    pub status: TransferStatus,
    pub created_at: u64,
}

impl Transfer {
    /// The delivery mode of this record.
    pub fn transfer_type(&self) -> (r: TransferType)
        ensures
            r == self.mode.spec_transfer_type(),
    {
        match self.mode {
            TransferMode::Immediate { .. } => TransferType::Immediate,
            TransferMode::Scheduled { .. } => TransferType::Scheduled,
            TransferMode::SplitImmediate => TransferType::Split,
            TransferMode::SplitScheduled { .. } => TransferType::Split,
            TransferMode::Batched => TransferType::Batched,
        }
    }
}

/// An exchange-rate reservation.  The rate carries 7 implied decimals.  The
/// `amount` is a ceiling for consuming transfers, never debited: one lock may
/// back any number of consuming transfers, each up to the ceiling, while
/// active and unexpired.
#[derive(Clone, Copy, Debug)]
pub struct RateLock {
    pub id: u64,
    pub owner: u64,
    pub from_token: u64,
    pub to_token: u64,
    pub locked_rate: i128,
    pub amount: i128,
    pub expiry: u64,
    pub is_active: bool,
    pub created_at: u64,
}

/// The discount tier of a package subscription.
#[derive(Clone, Copy, Debug, PartialEq, Eq, Structural)]
pub enum PackageType {
    Family,
    Business,
    Premium,
}

/// Discount a package tier grants, in basis points of the base fee.
pub open spec fn spec_package_discount_bps(t: PackageType) -> u32 {
    match t {
        PackageType::Family => 1500u32,
        PackageType::Business => 2000u32,
        PackageType::Premium => 2500u32,
    }
}

/// A time-boxed discount subscription, keyed by owner (one per owner).
/// `transfer_count` and `total_volume` are accumulators reserved for future
/// use; they are reset to zero on every subscription.
#[derive(Clone, Copy, Debug)]
pub struct Package {
    pub owner: u64,
    pub package_type: PackageType,
    pub transfer_count: u32,
    pub total_volume: i128,
    pub discount_rate: u32,
    pub start_date: u64,
    pub end_date: u64,
    pub is_active: bool,
}

/// The fixed fee schedule: a flat component plus a percentage of the amount
/// (in basis points), clamped between a minimum and a maximum.
#[derive(Clone, Copy, Debug)]
pub struct FeeStructure {
    pub base_fee: i128,
    pub percentage_fee: u32,
    pub min_fee: i128,
    pub max_fee: i128,
}

/// The fee quote an operation would incur: an illustrative half/half split of
/// the base fee into network and service components, the total discount, and
/// the final total after discounts and the minimum-fee floor.
#[derive(Clone, Copy, Debug)]
pub struct FeeBreakdown {
    pub network_fee: i128,
    pub service_fee: i128,
    pub discount: i128,
    pub total: i128,
}

/// A conversion route: input and output tokens, with the ordered intermediary
/// tokens a multi-hop conversion threads through (empty for a direct swap).
#[derive(Clone, Debug)]
pub struct SwapPath {
    pub from_token: u64,
    pub to_token: u64,
    pub intermediary_tokens: Vec<u64>,
}

} // verus!
