//! What an invocation asks the host to do once it succeeds: publish events
//! and move tokens.

use vstd::prelude::*;

use crate::types::Address;

verus! {

/// An event of the contract. `A` is a list of addresses, `P` a list of
/// period ids and `B` a byte string; the executable event holds vectors,
/// its view sequences.
#[derive(Clone, Debug)]
pub enum EventOf<A, P, B> {
    /// `init`: the contract was initialized.
    Initialized { admin: Address, safety: Option<Address>, event_only: bool },
    /// `paused`.
    Paused { caller: Address },
    /// `unpaused`.
    Unpaused { caller: Address },
    /// `offer_reg`: an offering was registered.
    OfferingRegistered {
        issuer: Address,
        token: Address,
        revenue_share_bps: u32,
        payout_asset: Address,
    },
    /// `rev_init`: the first report for a period.
    RevenueReportInitial {
        issuer: Address,
        token: Address,
        amount: i128,
        period_id: u64,
        blacklist: A,
    },
    /// `rev_inia`: the first report for a period, with the payout asset.
    RevenueReportInitialAsset {
        issuer: Address,
        token: Address,
        payout_asset: Address,
        amount: i128,
        period_id: u64,
        blacklist: A,
    },
    /// `rev_ovrd`: a report replaced an earlier one for the period.
    RevenueReportOverride {
        issuer: Address,
        token: Address,
        amount: i128,
        period_id: u64,
        previous_amount: i128,
        blacklist: A,
    },
    /// `rev_ovra`: as `rev_ovrd`, with the payout asset.
    RevenueReportOverrideAsset {
        issuer: Address,
        token: Address,
        payout_asset: Address,
        amount: i128,
        period_id: u64,
        previous_amount: i128,
        blacklist: A,
    },
    /// `rev_rej`: a second report for the period was not applied.
    RevenueReportRejected {
        issuer: Address,
        token: Address,
        amount: i128,
        period_id: u64,
        existing_amount: i128,
        blacklist: A,
    },
    /// `rev_reja`: as `rev_rej`, with the payout asset.
    RevenueReportRejectedAsset {
        issuer: Address,
        token: Address,
        payout_asset: Address,
        amount: i128,
        period_id: u64,
        existing_amount: i128,
        blacklist: A,
    },
    /// `rev_rep`: a report was received.
    RevenueReported { issuer: Address, token: Address, amount: i128, period_id: u64, blacklist: A },
    /// `rev_repa`: a report was received, with the payout asset.
    RevenueReportedAsset {
        issuer: Address,
        token: Address,
        payout_asset: Address,
        amount: i128,
        period_id: u64,
    },
    /// `bl_add`.
    BlacklistAdded { token: Address, caller: Address, investor: Address },
    /// `bl_rem`.
    BlacklistRemoved { token: Address, caller: Address, investor: Address },
    /// `wl_add`.
    WhitelistAdded { token: Address, caller: Address, investor: Address },
    /// `wl_rem`.
    WhitelistRemoved { token: Address, caller: Address, investor: Address },
    /// `conc_warn`: the reported concentration exceeds the configured limit.
    ConcentrationWarning { issuer: Address, token: Address, concentration_bps: u32, max_bps: u32 },
    /// `min_rev`: the minimum revenue threshold was set.
    MinRevenueThresholdSet { issuer: Address, token: Address, previous: i128, min_amount: i128 },
    /// `rev_dep`: revenue was deposited for a period.
    RevenueDeposited {
        issuer: Address,
        token: Address,
        payment_token: Address,
        amount: i128,
        period_id: u64,
    },
    /// `rev_snap`: revenue was deposited against a snapshot reference.
    RevenueDepositedWithSnapshot {
        issuer: Address,
        token: Address,
        payment_token: Address,
        amount: i128,
        period_id: u64,
        snapshot_reference: u64,
    },
    /// `snap_cfg`.
    SnapshotConfigSet { issuer: Address, token: Address, enabled: bool },
    /// `share_set`.
    HolderShareSet { issuer: Address, token: Address, holder: Address, share_bps: u32 },
    /// `claim`: the periods claimed and the total paid out.
    Claimed { holder: Address, token: Address, total_payout: i128, periods: P },
    /// `delay_set`.
    ClaimDelaySet { issuer: Address, token: Address, delay_secs: u64 },
    /// `freeze`.
    Frozen { by: Address },
    /// `prop_new`.
    ProposalCreated { proposer: Address, id: u32 },
    /// `prop_app`.
    ProposalApproved { approver: Address, id: u32 },
    /// `prop_exe`.
    ProposalExecuted { id: u32 },
    /// `iss_prop`.
    IssuerTransferProposed { token: Address, current_issuer: Address, new_issuer: Address },
    /// `iss_acc`.
    IssuerTransferAccepted { token: Address, old_issuer: Address, new_issuer: Address },
    /// `iss_canc`.
    IssuerTransferCancelled { token: Address, current_issuer: Address, proposed_issuer: Address },
    /// `dist_calc`.
    DistributionCalculated {
        token: Address,
        holder: Address,
        total_revenue: i128,
        total_supply: i128,
        holder_balance: i128,
        revenue_share_bps: u32,
        payout: i128,
    },
    /// `meta_set`: metadata was set for the first time.
    MetadataSet { issuer: Address, token: Address, metadata: B },
    /// `meta_upd`: metadata was replaced.
    MetadataUpdated { issuer: Address, token: Address, metadata: B },
    /// `test_mode`.
    TestnetModeSet { admin: Address, enabled: bool },
}

pub type Event = EventOf<Vec<Address>, Vec<u64>, Vec<u8>>;

pub type EventView = EventOf<Seq<Address>, Seq<u64>, Seq<u8>>;

/// A request to the host.
#[derive(Clone, Debug)]
pub enum HostCallOf<E> {
    /// Move `amount` of `asset` from `from` to the contract.
    PayIn { asset: Address, from: Address, amount: i128 },
    /// Move `amount` of `asset` from the contract to `to`.
    PayOut { asset: Address, to: Address, amount: i128 },
    /// Publish an event.
    Publish(E),
}

pub type HostCall = HostCallOf<Event>;

pub type HostCallView = HostCallOf<EventView>;

pub open spec fn event_view(e: Event) -> EventView {
    match e {
        EventOf::Initialized { admin, safety, event_only } => EventOf::Initialized {
            admin,
            safety,
            event_only,
        },
        EventOf::Paused { caller } => EventOf::Paused { caller },
        EventOf::Unpaused { caller } => EventOf::Unpaused { caller },
        EventOf::OfferingRegistered { issuer, token, revenue_share_bps, payout_asset } =>
            EventOf::OfferingRegistered { issuer, token, revenue_share_bps, payout_asset },
        EventOf::RevenueReportInitial { issuer, token, amount, period_id, blacklist } =>
            EventOf::RevenueReportInitial {
            issuer,
            token,
            amount,
            period_id,
            blacklist: blacklist@,
        },
        EventOf::RevenueReportInitialAsset {
            issuer,
            token,
            payout_asset,
            amount,
            period_id,
            blacklist,
        } => EventOf::RevenueReportInitialAsset {
            issuer,
            token,
            payout_asset,
            amount,
            period_id,
            blacklist: blacklist@,
        },
        EventOf::RevenueReportOverride {
            issuer,
            token,
            amount,
            period_id,
            previous_amount,
            blacklist,
        } => EventOf::RevenueReportOverride {
            issuer,
            token,
            amount,
            period_id,
            previous_amount,
            blacklist: blacklist@,
        },
        EventOf::RevenueReportOverrideAsset {
            issuer,
            token,
            payout_asset,
            amount,
            period_id,
            previous_amount,
            blacklist,
        } => EventOf::RevenueReportOverrideAsset {
            issuer,
            token,
            payout_asset,
            amount,
            period_id,
            previous_amount,
            blacklist: blacklist@,
        },
        EventOf::RevenueReportRejected {
            issuer,
            token,
            amount,
            period_id,
            existing_amount,
            blacklist,
        } => EventOf::RevenueReportRejected {
            issuer,
            token,
            amount,
            period_id,
            existing_amount,
            blacklist: blacklist@,
        },
        EventOf::RevenueReportRejectedAsset {
            issuer,
            token,
            payout_asset,
            amount,
            period_id,
            existing_amount,
            blacklist,
        } => EventOf::RevenueReportRejectedAsset {
            issuer,
            token,
            payout_asset,
            amount,
            period_id,
            existing_amount,
            blacklist: blacklist@,
        },
        EventOf::RevenueReported { issuer, token, amount, period_id, blacklist } =>
            EventOf::RevenueReported { issuer, token, amount, period_id, blacklist: blacklist@ },
        EventOf::RevenueReportedAsset { issuer, token, payout_asset, amount, period_id } =>
            EventOf::RevenueReportedAsset { issuer, token, payout_asset, amount, period_id },
        EventOf::BlacklistAdded { token, caller, investor } => EventOf::BlacklistAdded {
            token,
            caller,
            investor,
        },
        EventOf::BlacklistRemoved { token, caller, investor } => EventOf::BlacklistRemoved {
            token,
            caller,
            investor,
        },
        EventOf::WhitelistAdded { token, caller, investor } => EventOf::WhitelistAdded {
            token,
            caller,
            investor,
        },
        EventOf::WhitelistRemoved { token, caller, investor } => EventOf::WhitelistRemoved {
            token,
            caller,
            investor,
        },
        EventOf::ConcentrationWarning { issuer, token, concentration_bps, max_bps } =>
            EventOf::ConcentrationWarning { issuer, token, concentration_bps, max_bps },
        EventOf::MinRevenueThresholdSet { issuer, token, previous, min_amount } =>
            EventOf::MinRevenueThresholdSet { issuer, token, previous, min_amount },
        EventOf::RevenueDeposited { issuer, token, payment_token, amount, period_id } =>
            EventOf::RevenueDeposited { issuer, token, payment_token, amount, period_id },
        EventOf::RevenueDepositedWithSnapshot {
            issuer,
            token,
            payment_token,
            amount,
            period_id,
            snapshot_reference,
        } => EventOf::RevenueDepositedWithSnapshot {
            issuer,
            token,
            payment_token,
            amount,
            period_id,
            snapshot_reference,
        },
        EventOf::SnapshotConfigSet { issuer, token, enabled } => EventOf::SnapshotConfigSet {
            issuer,
            token,
            enabled,
        },
        EventOf::HolderShareSet { issuer, token, holder, share_bps } => EventOf::HolderShareSet {
            issuer,
            token,
            holder,
            share_bps,
        },
        EventOf::Claimed { holder, token, total_payout, periods } => EventOf::Claimed {
            holder,
            token,
            total_payout,
            periods: periods@,
        },
        EventOf::ClaimDelaySet { issuer, token, delay_secs } => EventOf::ClaimDelaySet {
            issuer,
            token,
            delay_secs,
        },
        EventOf::Frozen { by } => EventOf::Frozen { by },
        EventOf::ProposalCreated { proposer, id } => EventOf::ProposalCreated { proposer, id },
        EventOf::ProposalApproved { approver, id } => EventOf::ProposalApproved { approver, id },
        EventOf::ProposalExecuted { id } => EventOf::ProposalExecuted { id },
        EventOf::IssuerTransferProposed { token, current_issuer, new_issuer } =>
            EventOf::IssuerTransferProposed { token, current_issuer, new_issuer },
        EventOf::IssuerTransferAccepted { token, old_issuer, new_issuer } =>
            EventOf::IssuerTransferAccepted { token, old_issuer, new_issuer },
        EventOf::IssuerTransferCancelled { token, current_issuer, proposed_issuer } =>
            EventOf::IssuerTransferCancelled { token, current_issuer, proposed_issuer },
        EventOf::DistributionCalculated {
            token,
            holder,
            total_revenue,
            total_supply,
            holder_balance,
            revenue_share_bps,
            payout,
        } => EventOf::DistributionCalculated {
            token,
            holder,
            total_revenue,
            total_supply,
            holder_balance,
            revenue_share_bps,
            payout,
        },
        EventOf::MetadataSet { issuer, token, metadata } => EventOf::MetadataSet {
            issuer,
            token,
            metadata: metadata@,
        },
        EventOf::MetadataUpdated { issuer, token, metadata } => EventOf::MetadataUpdated {
            issuer,
            token,
            metadata: metadata@,
        },
        EventOf::TestnetModeSet { admin, enabled } => EventOf::TestnetModeSet { admin, enabled },
    }
}

pub open spec fn host_call_view(c: HostCall) -> HostCallView {
    match c {
        HostCallOf::PayIn { asset, from, amount } => HostCallOf::PayIn { asset, from, amount },
        HostCallOf::PayOut { asset, to, amount } => HostCallOf::PayOut { asset, to, amount },
        HostCallOf::Publish(e) => HostCallOf::Publish(event_view(e)),
    }
}

} // verus!
