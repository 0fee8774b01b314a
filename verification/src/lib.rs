//! A revenue-share contract for tokenized offerings: issuers register
//! offerings, report and deposit revenue per period, and holders claim their
//! share. The contract's state is a plain value; every entrypoint either
//! succeeds, updating the state and queueing host calls (events and token
//! transfers), or fails and leaves everything as it was.

pub mod access;
pub mod admin;
pub mod claims;
pub mod config;
pub mod distribution;
pub mod events;
pub mod laws;
pub mod lists;
pub mod math;
pub mod multisig;
pub mod offerings;
pub mod revenue;
pub mod sets;
pub mod state;
pub mod table;
pub mod types;

pub use admin::{CONTRACT_VERSION, MAX_PLATFORM_FEE_BPS};
pub use events::{Event, EventOf, HostCall, HostCallOf};
pub use state::RevoraRevenueShare;
pub use types::{
    Address, AggregatedMetrics, AuditSummary, ConcentrationLimitConfig, Failure, Offering, Proposal,
    ProposalAction, RevoraError, RoundingMode, SimulateDistributionResult, Trap,
};
