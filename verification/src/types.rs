//! The values that the contract stores, takes and hands back.

use vstd::prelude::*;

use crate::table::TableKey;

verus! {

/// A Stellar address: an account (ed25519 public key) or a contract (hash),
/// with its 32-byte payload split into two big-endian halves.
#[derive(Clone, Copy, Debug, PartialEq, Eq, Structural, Hash)]
pub struct Address {
    pub contract: bool,
    pub hi: u128,
    pub lo: u128,
}

/// The order in which the ledger sorts addresses: accounts before
/// contracts, then the payload bytes lexicographically.
pub open spec fn address_lt(a: Address, b: Address) -> bool {
    ||| (!a.contract && b.contract)
    ||| (a.contract == b.contract && a.hi < b.hi)
    ||| (a.contract == b.contract && a.hi == b.hi && a.lo < b.lo)
}

pub fn address_less(a: &Address, b: &Address) -> (r: bool)
    ensures
        r == address_lt(*a, *b),
{
    if a.contract != b.contract {
        !a.contract
    } else if a.hi != b.hi {
        a.hi < b.hi
    } else {
        a.lo < b.lo
    }
}

impl TableKey for Address {
    fn same_key(&self, other: &Self) -> (r: bool) {
        *self == *other
    }
}

impl TableKey for (Address, Address) {
    fn same_key(&self, other: &Self) -> (r: bool) {
        self.0 == other.0 && self.1 == other.1
    }
}

impl TableKey for (Address, u64) {
    fn same_key(&self, other: &Self) -> (r: bool) {
        self.0 == other.0 && self.1 == other.1
    }
}

impl TableKey for (Address, Address, u64) {
    fn same_key(&self, other: &Self) -> (r: bool) {
        self.0 == other.0 && self.1 == other.1 && self.2 == other.2
    }
}

/// Centralized contract error codes. Authorization failures are not among
/// them: they abort the invocation (see `Trap`).
#[derive(Clone, Copy, Debug, PartialEq, Eq, Structural, PartialOrd, Ord)]
pub enum RevoraError {
    /// revenue_share_bps exceeded 10000 (100%).
    InvalidRevenueShareBps,
    /// Reserved for future use (e.g. offering limit per issuer).
    LimitReached,
    /// Holder concentration exceeds configured limit and enforcement is enabled.
    ConcentrationLimitExceeded,
    /// No offering found for the given (issuer, token) pair.
    OfferingNotFound,
    /// Revenue already deposited for this period.
    PeriodAlreadyDeposited,
    /// No unclaimed periods for this holder.
    NoPendingClaims,
    /// Holder is blacklisted for this offering.
    HolderBlacklisted,
    /// Holder share_bps exceeded 10000 (100%).
    InvalidShareBps,
    /// Payment token does not match previously set token for this offering.
    PaymentTokenMismatch,
    /// Contract is frozen; state-changing operations are disabled.
    ContractFrozen,
    /// Revenue for this period is not yet claimable (delay not elapsed).
    ClaimDelayNotElapsed,
    /// Snapshot distribution is not enabled for this offering.
    SnapshotNotEnabled,
    /// Provided snapshot reference is outdated or duplicates a previous one.
    OutdatedSnapshot,
    /// Payout asset does not match the configured payout asset for this offering.
    PayoutAssetMismatch,
    /// A transfer is already pending for this offering.
    IssuerTransferPending,
    /// No transfer is pending for this offering.
    NoTransferPending,
    /// Caller is not authorized to accept this transfer.
    UnauthorizedTransferAccept,
    /// Metadata string exceeds maximum allowed length.
    MetadataTooLarge,
    /// Caller is not authorized to perform this action.
    NotAuthorized,
    /// Contract is not initialized (admin not set).
    NotInitialized,
    /// Amount is invalid (e.g. negative for deposit, or out of allowed range).
    InvalidAmount,
    /// period_id is invalid (e.g. zero when required to be positive).
    InvalidPeriodId,
}

/// The numeric code of each error, as callers see it.
pub open spec fn error_code(e: RevoraError) -> u32 {
    match e {
        RevoraError::InvalidRevenueShareBps => 1,
        RevoraError::LimitReached => 2,
        RevoraError::ConcentrationLimitExceeded => 3,
        RevoraError::OfferingNotFound => 4,
        RevoraError::PeriodAlreadyDeposited => 5,
        RevoraError::NoPendingClaims => 6,
        RevoraError::HolderBlacklisted => 7,
        RevoraError::InvalidShareBps => 8,
        RevoraError::PaymentTokenMismatch => 9,
        RevoraError::ContractFrozen => 10,
        RevoraError::ClaimDelayNotElapsed => 11,
        RevoraError::SnapshotNotEnabled => 12,
        RevoraError::OutdatedSnapshot => 13,
        RevoraError::PayoutAssetMismatch => 14,
        RevoraError::IssuerTransferPending => 15,
        RevoraError::NoTransferPending => 16,
        RevoraError::UnauthorizedTransferAccept => 17,
        RevoraError::MetadataTooLarge => 18,
        RevoraError::NotAuthorized => 19,
        RevoraError::NotInitialized => 20,
        RevoraError::InvalidAmount => 21,
        RevoraError::InvalidPeriodId => 22,
    }
}

impl RevoraError {
    /// The numeric code under which the error is reported to callers.
    pub fn code(&self) -> (c: u32)
        ensures
            c == error_code(*self),
    {
        match self {
            RevoraError::InvalidRevenueShareBps => 1,
            RevoraError::LimitReached => 2,
            RevoraError::ConcentrationLimitExceeded => 3,
            RevoraError::OfferingNotFound => 4,
            RevoraError::PeriodAlreadyDeposited => 5,
            RevoraError::NoPendingClaims => 6,
            RevoraError::HolderBlacklisted => 7,
            RevoraError::InvalidShareBps => 8,
            RevoraError::PaymentTokenMismatch => 9,
            RevoraError::ContractFrozen => 10,
            RevoraError::ClaimDelayNotElapsed => 11,
            RevoraError::SnapshotNotEnabled => 12,
            RevoraError::OutdatedSnapshot => 13,
            RevoraError::PayoutAssetMismatch => 14,
            RevoraError::IssuerTransferPending => 15,
            RevoraError::NoTransferPending => 16,
            RevoraError::UnauthorizedTransferAccept => 17,
            RevoraError::MetadataTooLarge => 18,
            RevoraError::NotAuthorized => 19,
            RevoraError::NotInitialized => 20,
            RevoraError::InvalidAmount => 21,
            RevoraError::InvalidPeriodId => 22,
        }
    }
}

/// Why an invocation aborts as a whole (the host panics and rolls back).
#[derive(Clone, Copy, Debug, PartialEq, Eq, Structural)]
pub enum Trap {
    /// The address did not authorize the invocation.
    Unauthorized(Address),
    /// The contract is paused.
    Paused,
    /// The contract is frozen (for entrypoints that report no error code).
    Frozen,
    /// `initialize` was called a second time.
    AlreadyInitialized,
    /// No admin has been set.
    AdminNotSet,
    /// The caller is not the admin.
    NotAdmin,
    /// No safety role has been set.
    SafetyNotSet,
    /// The caller is not the safety role.
    NotSafety,
    /// An integer operation overflowed.
    ArithmeticOverflow,
    /// `calculate_distribution` was given a total supply of zero.
    ZeroTotalSupply,
    /// `calculate_distribution` / `calculate_total_distributable` found no offering.
    OfferingNotFound,
    /// `calculate_distribution` was asked about a blacklisted holder.
    HolderBlacklisted,
}

/// The two ways in which a state-changing entrypoint can fail. Either way
/// the contract state is left as it was.
#[derive(Clone, Copy, Debug, PartialEq, Eq, Structural)]
pub enum Failure {
    /// The entrypoint returned one of the contract's error codes.
    Contract(RevoraError),
    /// The invocation aborted.
    Trap(Trap),
}

/// Defines how fractional shares are handled during distribution calculations.
#[derive(Clone, Copy, Debug, PartialEq, Eq, Structural)]
pub enum RoundingMode {
    /// Truncate toward zero: share = (amount * bps) / 10000.
    Truncation,
    /// Standard rounding: share = round((amount * bps) / 10000), where >= 0.5 rounds up.
    RoundHalfUp,
}

/// A revenue-share offering registered on-chain.
#[derive(Clone, Copy, Debug, PartialEq, Eq, Structural)]
pub struct Offering {
    /// The address authorized to manage this offering.
    pub issuer: Address,
    /// The token representing this offering.
    pub token: Address,
    /// Cumulative revenue share for all holders in basis points (0-10000).
    pub revenue_share_bps: u32,
    pub payout_asset: Address,
}

/// Configuration for single-holder concentration guardrails.
#[derive(Clone, Copy, Debug, PartialEq, Eq, Structural)]
pub struct ConcentrationLimitConfig {
    /// Maximum allowed share in basis points for a single holder (0 = disabled).
    pub max_bps: u32,
    /// If true, `report_revenue` will fail if current concentration exceeds `max_bps`.
    pub enforce: bool,
}

/// Summarizes the audit trail for a specific offering.
#[derive(Clone, Copy, Debug, PartialEq, Eq, Structural)]
pub struct AuditSummary {
    /// Cumulative revenue amount reported for this offering.
    pub total_revenue: i128,
    /// Total number of revenue reports submitted.
    pub report_count: u64,
}

/// Cross-offering aggregated metrics.
#[derive(Clone, Copy, Debug, PartialEq, Eq, Structural)]
pub struct AggregatedMetrics {
    pub total_reported_revenue: i128,
    pub total_deposited_revenue: i128,
    pub total_report_count: u64,
    pub offering_count: u32,
}

/// Result of `simulate_distribution`: per-holder payout and total.
#[derive(Clone, Debug)]
pub struct SimulateDistributionResult {
    /// Total amount that would be distributed.
    pub total_distributed: i128,
    /// Payout per holder (holder address, amount).
    pub payouts: Vec<(Address, i128)>,
}

/// A sensitive administrative action subject to multisig approval.
#[derive(Clone, Copy, Debug, PartialEq, Eq, Structural)]
pub enum ProposalAction {
    SetAdmin(Address),
    Freeze,
    SetThreshold(u32),
    AddOwner(Address),
    RemoveOwner(Address),
}

/// A multisig proposal and the owners that approved it so far.
#[derive(Clone, Debug)]
pub struct Proposal {
    pub id: u32,
    pub action: ProposalAction,
    pub proposer: Address,
    pub approvals: Vec<Address>,
    pub executed: bool,
}

/// A copy of a vector of addresses, element for element.
pub fn copy_addresses(v: &Vec<Address>) -> (r: Vec<Address>)
    ensures
        r@ == v@,
{
    let mut r: Vec<Address> = Vec::new();
    let mut i: usize = 0;
    while i < v.len()
        invariant
            i <= v@.len(),
            r@ == v@.subrange(0, i as int),
        decreases v@.len() - i,
    {
        r.push(v[i]);
        i = i + 1;
        assert(r@ =~= v@.subrange(0, i as int));
    }
    assert(r@ =~= v@);
    r
}

pub fn copy_u64s(v: &Vec<u64>) -> (r: Vec<u64>)
    ensures
        r@ == v@,
{
    let mut r: Vec<u64> = Vec::new();
    let mut i: usize = 0;
    while i < v.len()
        invariant
            i <= v@.len(),
            r@ == v@.subrange(0, i as int),
        decreases v@.len() - i,
    {
        r.push(v[i]);
        i = i + 1;
        assert(r@ =~= v@.subrange(0, i as int));
    }
    assert(r@ =~= v@);
    r
}

pub fn copy_bytes(v: &Vec<u8>) -> (r: Vec<u8>)
    ensures
        r@ == v@,
{
    let mut r: Vec<u8> = Vec::new();
    let mut i: usize = 0;
    while i < v.len()
        invariant
            i <= v@.len(),
            r@ == v@.subrange(0, i as int),
        decreases v@.len() - i,
    {
        r.push(v[i]);
        i = i + 1;
        assert(r@ =~= v@.subrange(0, i as int));
    }
    assert(r@ =~= v@);
    r
}

impl Proposal {
    /// An exact copy of the proposal.
    pub fn duplicate(&self) -> (r: Proposal)
        ensures
            r.id == self.id,
            r.action == self.action,
            r.proposer == self.proposer,
            r.approvals@ == self.approvals@,
            r.executed == self.executed,
    {
        Proposal {
            id: self.id,
            action: self.action,
            proposer: self.proposer,
            approvals: copy_addresses(&self.approvals),
            executed: self.executed,
        }
    }
}

} // verus!
