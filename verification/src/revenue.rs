//! Revenue reports, revenue deposits and the revenue queries.

use vstd::prelude::*;

use crate::access::require_auth;
use crate::events::{EventOf, EventView, HostCallOf, HostCallView};
use crate::math::{in_i128, sat_i128, sat_u64, saturating_add_i128, saturating_add_u64};
use crate::offerings::offering_of;
use crate::state::{lookup, RevoraRevenueShare, RevoraView};
use crate::types::{copy_addresses, Address, AuditSummary, Failure, RevoraError, Trap};

verus! {

/// Whether an enforced, non-zero concentration limit of the offering is
/// exceeded by the last reported concentration.
pub open spec fn concentration_exceeded(v: RevoraView, issuer: Address, token: Address) -> bool {
    let current: u32 = match lookup(v.current_concentration, (issuer, token)) {
        Some(x) => x,
        None => 0,
    };
    match lookup(v.concentration_limits, (issuer, token)) {
        Some(c) => c.enforce && c.max_bps > 0 && current > c.max_bps,
        None => false,
    }
}

pub open spec fn report_revenue_outcome(
    v: RevoraView,
    signers: Seq<Address>,
    issuer: Address,
    token: Address,
    payout_asset: Address,
) -> Result<(), Failure> {
    if v.frozen {
        Err(Failure::Contract(RevoraError::ContractFrozen))
    } else if v.paused {
        Err(Failure::Trap(Trap::Paused))
    } else if !signers.contains(issuer) {
        Err(Failure::Trap(Trap::Unauthorized(issuer)))
    } else if v.event_only {
        Ok(())
    } else if v.issuer_of(token) != Some(issuer) {
        Err(Failure::Contract(RevoraError::OfferingNotFound))
    } else if offering_of(v, issuer, token) is None {
        Err(Failure::Contract(RevoraError::OfferingNotFound))
    } else if offering_of(v, issuer, token).unwrap().payout_asset != payout_asset {
        Err(Failure::Contract(RevoraError::PayoutAssetMismatch))
    } else if !v.testnet_mode && concentration_exceeded(v, issuer, token) {
        Err(Failure::Contract(RevoraError::ConcentrationLimitExceeded))
    } else {
        Ok(())
    }
}

/// The audit summary of (issuer, token) after one more report of `amount`.
pub open spec fn audited(v: RevoraView, issuer: Address, token: Address, amount: i128) -> AuditSummary {
    let prev = match lookup(v.audit_summaries, (issuer, token)) {
        Some(s) => s,
        None => AuditSummary { total_revenue: 0, report_count: 0 },
    };
    AuditSummary {
        total_revenue: sat_i128(prev.total_revenue + amount) as i128,
        report_count: sat_u64(prev.report_count + 1) as u64,
    }
}

/// The cumulative reported revenue of (token, period) after an initial
/// report of `amount`; on overflow it restarts at `amount`.
pub open spec fn cumulated(v: RevoraView, token: Address, period_id: u64, amount: i128) -> i128 {
    let prev: int = match lookup(v.revenue_index, (token, period_id)) {
        Some(c) => c as int,
        None => 0,
    };
    if in_i128(prev + amount) {
        (prev + amount) as i128
    } else {
        amount
    }
}

/// The state after a successful report.
pub open spec fn reported(
    v: RevoraView,
    issuer: Address,
    token: Address,
    amount: i128,
    period_id: u64,
    override_existing: bool,
    now: u64,
) -> RevoraView {
    let key = (issuer, token, period_id);
    let v1 = if v.event_only {
        v
    } else if v.revenue_reports.contains_key(key) {
        if override_existing {
            RevoraView { revenue_reports: v.revenue_reports.insert(key, (amount, now)), ..v }
        } else {
            v
        }
    } else {
        RevoraView {
            revenue_index: v.revenue_index.insert(
                (token, period_id),
                cumulated(v, token, period_id, amount),
            ),
            revenue_reports: v.revenue_reports.insert(key, (amount, now)),
            ..v
        }
    };
    RevoraView {
        audit_summaries: v1.audit_summaries.insert((issuer, token), audited(v, issuer, token, amount)),
        ..v1
    }
}

/// The events of a successful report.
pub open spec fn report_events(
    v: RevoraView,
    issuer: Address,
    token: Address,
    payout_asset: Address,
    amount: i128,
    period_id: u64,
    override_existing: bool,
) -> Seq<HostCallView> {
    let blacklist = if v.event_only {
        Seq::<Address>::empty()
    } else {
        v.blacklist_of(token)
    };
    let key = (issuer, token, period_id);
    let first: Seq<HostCallView> = if v.event_only {
        seq![
            HostCallOf::Publish(
                EventOf::RevenueReportInitial { issuer, token, amount, period_id, blacklist },
            ),
        ]
    } else if v.revenue_reports.contains_key(key) {
        let prev = v.revenue_reports[key].0;
        if override_existing {
            seq![
                HostCallOf::Publish(
                    EventOf::RevenueReportOverride {
                        issuer,
                        token,
                        amount,
                        period_id,
                        previous_amount: prev,
                        blacklist,
                    },
                ),
                HostCallOf::Publish(
                    EventOf::RevenueReportOverrideAsset {
                        issuer,
                        token,
                        payout_asset,
                        amount,
                        period_id,
                        previous_amount: prev,
                        blacklist,
                    },
                ),
            ]
        } else {
            seq![
                HostCallOf::Publish(
                    EventOf::RevenueReportRejected {
                        issuer,
                        token,
                        amount,
                        period_id,
                        existing_amount: prev,
                        blacklist,
                    },
                ),
                HostCallOf::Publish(
                    EventOf::RevenueReportRejectedAsset {
                        issuer,
                        token,
                        payout_asset,
                        amount,
                        period_id,
                        existing_amount: prev,
                        blacklist,
                    },
                ),
            ]
        }
    } else {
        seq![
            HostCallOf::Publish(
                EventOf::RevenueReportInitial { issuer, token, amount, period_id, blacklist },
            ),
            HostCallOf::Publish(
                EventOf::RevenueReportInitialAsset {
                    issuer,
                    token,
                    payout_asset,
                    amount,
                    period_id,
                    blacklist,
                },
            ),
        ]
    };
    first + seq![
        HostCallOf::Publish(EventOf::RevenueReported { issuer, token, amount, period_id, blacklist }),
        HostCallOf::Publish(
            EventOf::RevenueReportedAsset { issuer, token, payout_asset, amount, period_id },
        ),
    ]
}

pub open spec fn deposit_outcome(
    v: RevoraView,
    issuer: Address,
    token: Address,
    payment_token: Address,
    period_id: u64,
) -> Result<(), Failure> {
    if offering_of(v, issuer, token) is None {
        Err(Failure::Contract(RevoraError::OfferingNotFound))
    } else if v.period_revenue.contains_key((token, period_id)) {
        Err(Failure::Contract(RevoraError::PeriodAlreadyDeposited))
    } else if v.payment_tokens.contains_key(token) && v.payment_tokens[token] != payment_token {
        Err(Failure::Contract(RevoraError::PaymentTokenMismatch))
    } else if v.entries_of(token).len() >= u32::MAX {
        Err(Failure::Trap(Trap::ArithmeticOverflow))
    } else {
        Ok(())
    }
}

/// The state after a successful deposit.
pub open spec fn deposited(
    v: RevoraView,
    token: Address,
    payment_token: Address,
    amount: i128,
    period_id: u64,
    now: u64,
) -> RevoraView {
    RevoraView {
        payment_tokens: v.payment_tokens.insert(token, payment_token),
        period_revenue: v.period_revenue.insert((token, period_id), amount),
        period_deposit_time: v.period_deposit_time.insert((token, period_id), now),
        period_entries: v.period_entries.insert(token, v.entries_of(token).push(period_id)),
        deposited_revenue: v.deposited_revenue.insert(
            token,
            sat_i128(
                match lookup(v.deposited_revenue, token) {
                    Some(d) => d as int,
                    None => 0,
                } + amount,
            ) as i128,
        ),
        ..v
    }
}

pub open spec fn snapshot_deposit_outcome(
    v: RevoraView,
    signers: Seq<Address>,
    issuer: Address,
    token: Address,
    payment_token: Address,
    period_id: u64,
    snapshot_reference: u64,
) -> Result<(), Failure> {
    if v.frozen {
        Err(Failure::Contract(RevoraError::ContractFrozen))
    } else if v.paused {
        Err(Failure::Trap(Trap::Paused))
    } else if !signers.contains(issuer) {
        Err(Failure::Trap(Trap::Unauthorized(issuer)))
    } else if lookup(v.snapshot_configs, (issuer, token)) != Some(true) {
        Err(Failure::Contract(RevoraError::SnapshotNotEnabled))
    } else if snapshot_reference <= match lookup(v.last_snapshot_refs, (issuer, token)) {
        Some(s) => s,
        None => 0,
    } {
        Err(Failure::Contract(RevoraError::OutdatedSnapshot))
    } else {
        deposit_outcome(v, issuer, token, payment_token, period_id)
    }
}

/// Reported revenue of `token` for period `p` (0 if none).
pub open spec fn revenue_at(v: RevoraView, token: Address, p: int) -> int {
    match lookup(v.revenue_index, (token, p as u64)) {
        Some(x) => x as int,
        None => 0,
    }
}

/// Sum of the reported revenue of the `k` periods starting at `from`.
pub open spec fn range_total(v: RevoraView, token: Address, from: int, k: nat) -> int
    decreases k,
{
    if k == 0 {
        0
    } else {
        range_total(v, token, from, (k - 1) as nat) + revenue_at(v, token, from + k - 1)
    }
}

/// Whether every partial sum of that range fits in `i128`.
pub open spec fn range_fits(v: RevoraView, token: Address, from: int, k: nat) -> bool
    decreases k,
{
    k == 0 || (range_fits(v, token, from, (k - 1) as nat) && in_i128(range_total(v, token, from, k)))
}

impl RevoraRevenueShare {
    /// Record a revenue report for the offering of `issuer` for `token` at
    /// ledger time `now`. A second report for the same period replaces the
    /// first only when `override_existing` is set; either way the audit
    /// summary counts the report.
    pub fn report_revenue(
        &mut self,
        signers: &Vec<Address>,
        issuer: Address,
        token: Address,
        payout_asset: Address,
        amount: i128,
        period_id: u64,
        override_existing: bool,
        now: u64,
    ) -> (r: Result<(), Failure>)
        requires
            old(self).wf(),
        ensures
            final(self).wf(),
            old(self)@.proposals_kept(final(self)@),
            r == report_revenue_outcome(old(self)@, signers@, issuer, token, payout_asset),
            r is Err ==> final(self)@ == old(self)@ && final(self).host_calls() == old(
                self,
            ).host_calls(),
            r is Ok ==> final(self)@ == reported(
                old(self)@,
                issuer,
                token,
                amount,
                period_id,
                override_existing,
                now,
            ) && final(self).host_calls() == old(self).host_calls() + report_events(
                old(self)@,
                issuer,
                token,
                payout_asset,
                amount,
                period_id,
                override_existing,
            ),
    {
        self.require_not_frozen()?;
        if let Err(t) = self.require_not_paused() {
            return Err(Failure::Trap(t));
        }
        if let Err(t) = require_auth(signers, &issuer) {
            return Err(Failure::Trap(t));
        }
        let ghost v = self@;
        let ghost calls0 = self.host_calls();
        let event_only = self.is_event_only();
        if !event_only {
            match self.get_current_issuer(&token) {
                Some(i) => {
                    if i != issuer {
                        return Err(Failure::Contract(RevoraError::OfferingNotFound));
                    }
                },
                None => {
                    return Err(Failure::Contract(RevoraError::OfferingNotFound));
                },
            }
            let offering = match self.get_offering(issuer, token) {
                Some(o) => o,
                None => {
                    return Err(Failure::Contract(RevoraError::OfferingNotFound));
                },
            };
            if offering.payout_asset != payout_asset {
                return Err(Failure::Contract(RevoraError::PayoutAssetMismatch));
            }
            if !self.is_testnet_mode() {
                if let Some(config) = self.read_concentration_limits(&(issuer, token)) {
                    if config.enforce && config.max_bps > 0 {
                        let current = match self.read_current_concentration(&(issuer, token)) {
                            Some(c) => c,
                            None => 0,
                        };
                        if current > config.max_bps {
                            return Err(Failure::Contract(RevoraError::ConcentrationLimitExceeded));
                        }
                    }
                }
            }
        }
        let blacklist: Vec<Address> = if event_only {
            Vec::new()
        } else {
            match self.read_blacklist(&token) {
                Some(b) => copy_addresses(b),
                None => Vec::new(),
            }
        };
        let ghost bl = blacklist@;
        assert(bl == (if v.event_only {
            Seq::<Address>::empty()
        } else {
            v.blacklist_of(token)
        }));
        let key = (issuer, token, period_id);
        if !event_only {
            match self.read_revenue_reports(&key) {
                Some((existing_amount, _)) => {
                    if override_existing {
                        self.write_revenue_reports(key, (amount, now));
                        self.emit(
                            EventOf::RevenueReportOverride {
                                issuer,
                                token,
                                amount,
                                period_id,
                                previous_amount: existing_amount,
                                blacklist: copy_addresses(&blacklist),
                            },
                        );
                        self.emit(
                            EventOf::RevenueReportOverrideAsset {
                                issuer,
                                token,
                                payout_asset,
                                amount,
                                period_id,
                                previous_amount: existing_amount,
                                blacklist: copy_addresses(&blacklist),
                            },
                        );
                    } else {
                        self.emit(
                            EventOf::RevenueReportRejected {
                                issuer,
                                token,
                                amount,
                                period_id,
                                existing_amount,
                                blacklist: copy_addresses(&blacklist),
                            },
                        );
                        self.emit(
                            EventOf::RevenueReportRejectedAsset {
                                issuer,
                                token,
                                payout_asset,
                                amount,
                                period_id,
                                existing_amount,
                                blacklist: copy_addresses(&blacklist),
                            },
                        );
                    }
                },
                None => {
                    let cumulative: i128 = match self.read_revenue_index(&(token, period_id)) {
                        Some(c) => c,
                        None => 0,
                    };
                    let cumulative = match cumulative.checked_add(amount) {
                        Some(s) => s,
                        None => amount,
                    };
                    self.write_revenue_index((token, period_id), cumulative);
                    self.write_revenue_reports(key, (amount, now));
                    self.emit(
                        EventOf::RevenueReportInitial {
                            issuer,
                            token,
                            amount,
                            period_id,
                            blacklist: copy_addresses(&blacklist),
                        },
                    );
                    self.emit(
                        EventOf::RevenueReportInitialAsset {
                            issuer,
                            token,
                            payout_asset,
                            amount,
                            period_id,
                            blacklist: copy_addresses(&blacklist),
                        },
                    );
                },
            }
        } else {
            self.emit(
                EventOf::RevenueReportInitial {
                    issuer,
                    token,
                    amount,
                    period_id,
                    blacklist: copy_addresses(&blacklist),
                },
            );
        }
        self.emit(
            EventOf::RevenueReported {
                issuer,
                token,
                amount,
                period_id,
                blacklist: copy_addresses(&blacklist),
            },
        );
        self.emit(EventOf::RevenueReportedAsset { issuer, token, payout_asset, amount, period_id });
        let summary = match self.read_audit_summaries(&(issuer, token)) {
            Some(s) => s,
            None => AuditSummary { total_revenue: 0, report_count: 0 },
        };
        let updated = AuditSummary {
            total_revenue: saturating_add_i128(summary.total_revenue, amount),
            report_count: saturating_add_u64(summary.report_count, 1),
        };
        self.write_audit_summaries((issuer, token), updated);
        assert(self.host_calls() =~= calls0 + report_events(
            v,
            issuer,
            token,
            payout_asset,
            amount,
            period_id,
            override_existing,
        ));
        Ok(())
    }

    /// The cumulative reported revenue of `token` for `period_id` (0 if none).
    pub fn get_revenue_by_period(&self, token: Address, period_id: u64) -> (r: i128)
        ensures
            r == revenue_at(self@, token, period_id as int),
    {
        match self.read_revenue_index(&(token, period_id)) {
            Some(x) => x,
            None => 0,
        }
    }

    /// The sum of the reported revenue of `token` over the periods
    /// `from_period..=to_period`; aborts if a partial sum overflows.
    pub fn get_revenue_range(&self, token: Address, from_period: u64, to_period: u64) -> (r: Result<
        i128,
        Trap,
    >)
        ensures
            ({
                let n: nat = if from_period <= to_period {
                    (to_period - from_period + 1) as nat
                } else {
                    0
                };
                &&& range_fits(self@, token, from_period as int, n) ==> r == Ok::<i128, Trap>(
                    range_total(self@, token, from_period as int, n) as i128,
                )
                &&& !range_fits(self@, token, from_period as int, n) ==> r == Err::<i128, Trap>(
                    Trap::ArithmeticOverflow,
                )
            }),
    {
        if from_period > to_period {
            return Ok(0);
        }
        let mut total: i128 = 0;
        let mut period = from_period;
        loop
            invariant
                from_period <= period <= to_period,
                range_fits(self@, token, from_period as int, (period - from_period) as nat),
                total == range_total(self@, token, from_period as int, (period - from_period) as nat),
            decreases to_period - period,
        {
            let ghost k = (period - from_period + 1) as nat;
            let x = self.get_revenue_by_period(token, period);
            assert(range_total(self@, token, from_period as int, k) == total + x);
            match total.checked_add(x) {
                Some(s) => {
                    total = s;
                },
                None => {
                    assert(!range_fits(self@, token, from_period as int, k));
                    proof {
                        lemma_range_fits_prefix(
                            self@,
                            token,
                            from_period as int,
                            k,
                            (to_period - from_period + 1) as nat,
                        );
                    }
                    return Err(Trap::ArithmeticOverflow);
                },
            }
            if period == to_period {
                return Ok(total);
            }
            period = period + 1;
        }
    }

    /// Return the number of deposited periods of `token`.
    pub fn get_period_count(&self, token: Address) -> (n: u32)
        requires
            self.wf(),
        ensures
            n == self@.entries_of(token).len(),
    {
        match self.read_period_entries(&token) {
            Some(v) => v.len() as u32,
            None => 0,
        }
    }

    /// Return the total deposited revenue of `token`.
    pub fn get_total_deposited_revenue(&self, token: Address) -> (r: i128)
        ensures
            r == match lookup(self@.deposited_revenue, token) {
                Some(d) => d,
                None => 0,
            },
    {
        match self.read_deposited_revenue(&token) {
            Some(d) => d,
            None => 0,
        }
    }

    /// The deposit itself: checks the offering, the period and the payment
    /// token, asks for the transfer and records the period.
    fn do_deposit_revenue(
        &mut self,
        issuer: Address,
        token: Address,
        payment_token: Address,
        amount: i128,
        period_id: u64,
        now: u64,
    ) -> (r: Result<(), Failure>)
        requires
            old(self).wf(),
        ensures
            final(self).wf(),
            old(self)@.proposals_kept(final(self)@),
            r == deposit_outcome(old(self)@, issuer, token, payment_token, period_id),
            r is Err ==> final(self)@ == old(self)@ && final(self).host_calls() == old(
                self,
            ).host_calls(),
            r is Ok ==> final(self)@ == deposited(
                old(self)@,
                token,
                payment_token,
                amount,
                period_id,
                now,
            ) && final(self).host_calls() == old(self).host_calls().push(
                HostCallOf::PayIn { asset: payment_token, from: issuer, amount },
            ).push(
                HostCallOf::Publish(
                    EventOf::RevenueDeposited { issuer, token, payment_token, amount, period_id },
                ),
            ),
    {
        if self.get_offering(issuer, token).is_none() {
            return Err(Failure::Contract(RevoraError::OfferingNotFound));
        }
        if self.read_period_revenue(&(token, period_id)).is_some() {
            return Err(Failure::Contract(RevoraError::PeriodAlreadyDeposited));
        }
        if let Some(existing) = self.read_payment_tokens(&token) {
            if existing != payment_token {
                return Err(Failure::Contract(RevoraError::PaymentTokenMismatch));
            }
        }
        let count = match self.read_period_entries(&token) {
            Some(v) => v.len(),
            None => 0,
        };
        if count >= u32::MAX as usize {
            return Err(Failure::Trap(Trap::ArithmeticOverflow));
        }
        let ghost v0 = self@;
        self.write_payment_tokens(token, payment_token);
        self.pay_in(payment_token, issuer, amount);
        self.record_period(token, period_id, amount, now);
        let total = match self.read_deposited_revenue(&token) {
            Some(d) => d,
            None => 0,
        };
        self.write_deposited_revenue(token, saturating_add_i128(total, amount));
        self.emit(EventOf::RevenueDeposited { issuer, token, payment_token, amount, period_id });
        assert(self@ == deposited(v0, token, payment_token, amount, period_id, now));
        Ok(())
    }

    /// Deposit revenue for a period of the offering at ledger time `now`:
    /// `amount` of `payment_token` moves from `issuer` to the contract. The
    /// payment token is locked by the first deposit. Only the current issuer.
    pub fn deposit_revenue(
        &mut self,
        issuer: Address,
        token: Address,
        payment_token: Address,
        amount: i128,
        period_id: u64,
        now: u64,
    ) -> (r: Result<(), Failure>)
        requires
            old(self).wf(),
        ensures
            final(self).wf(),
            old(self)@.proposals_kept(final(self)@),
            old(self)@.frozen ==> r == Err::<(), Failure>(Failure::Contract(RevoraError::ContractFrozen)),
            !old(self)@.frozen && old(self)@.paused ==> r == Err::<(), Failure>(
                Failure::Trap(Trap::Paused),
            ),
            !old(self)@.frozen && !old(self)@.paused && old(self)@.issuer_of(token) != Some(issuer)
                ==> r == Err::<(), Failure>(Failure::Contract(RevoraError::OfferingNotFound)),
            !old(self)@.frozen && !old(self)@.paused && old(self)@.issuer_of(token) == Some(issuer)
                ==> r == deposit_outcome(old(self)@, issuer, token, payment_token, period_id),
            r is Err ==> final(self)@ == old(self)@ && final(self).host_calls() == old(
                self,
            ).host_calls(),
            r is Ok ==> final(self)@ == deposited(
                old(self)@,
                token,
                payment_token,
                amount,
                period_id,
                now,
            ) && final(self).host_calls() == old(self).host_calls().push(
                HostCallOf::PayIn { asset: payment_token, from: issuer, amount },
            ).push(
                HostCallOf::Publish(
                    EventOf::RevenueDeposited { issuer, token, payment_token, amount, period_id },
                ),
            ),
    {
        self.require_not_frozen()?;
        self.require_unpaused()?;
        match self.get_current_issuer(&token) {
            Some(i) => {
                if i != issuer {
                    return Err(Failure::Contract(RevoraError::OfferingNotFound));
                }
            },
            None => {
                return Err(Failure::Contract(RevoraError::OfferingNotFound));
            },
        }
        self.do_deposit_revenue(issuer, token, payment_token, amount, period_id, now)
    }

    /// Deposit revenue against a snapshot reference, which must exceed every
    /// earlier one for the offering; snapshots must be enabled for it.
    pub fn deposit_revenue_with_snapshot(
        &mut self,
        signers: &Vec<Address>,
        issuer: Address,
        token: Address,
        payment_token: Address,
        amount: i128,
        period_id: u64,
        snapshot_reference: u64,
        now: u64,
    ) -> (r: Result<(), Failure>)
        requires
            old(self).wf(),
        ensures
            final(self).wf(),
            old(self)@.proposals_kept(final(self)@),
            r == snapshot_deposit_outcome(
                old(self)@,
                signers@,
                issuer,
                token,
                payment_token,
                period_id,
                snapshot_reference,
            ),
            r is Err ==> final(self)@ == old(self)@ && final(self).host_calls() == old(
                self,
            ).host_calls(),
            r is Ok ==> final(self)@ == (RevoraView {
                last_snapshot_refs: old(self)@.last_snapshot_refs.insert(
                    (issuer, token),
                    snapshot_reference,
                ),
                ..deposited(old(self)@, token, payment_token, amount, period_id, now)
            }) && final(self).host_calls() == old(self).host_calls().push(
                HostCallOf::PayIn { asset: payment_token, from: issuer, amount },
            ).push(
                HostCallOf::Publish(
                    EventOf::RevenueDeposited { issuer, token, payment_token, amount, period_id },
                ),
            ).push(
                HostCallOf::Publish(
                    EventOf::RevenueDepositedWithSnapshot {
                        issuer,
                        token,
                        payment_token,
                        amount,
                        period_id,
                        snapshot_reference,
                    },
                ),
            ),
    {
        self.require_not_frozen()?;
        self.require_unpaused()?;
        if let Err(t) = require_auth(signers, &issuer) {
            return Err(Failure::Trap(t));
        }
        if !self.get_snapshot_config(issuer, token) {
            return Err(Failure::Contract(RevoraError::SnapshotNotEnabled));
        }
        let last_snap = self.get_last_snapshot_ref(issuer, token);
        if snapshot_reference <= last_snap {
            return Err(Failure::Contract(RevoraError::OutdatedSnapshot));
        }
        self.do_deposit_revenue(issuer, token, payment_token, amount, period_id, now)?;
        self.write_last_snapshot_refs((issuer, token), snapshot_reference);
        self.emit(
            EventOf::RevenueDepositedWithSnapshot {
                issuer,
                token,
                payment_token,
                amount,
                period_id,
                snapshot_reference,
            },
        );
        Ok(())
    }
}

pub proof fn lemma_range_fits_prefix(v: RevoraView, token: Address, from: int, k: nat, n: nat)
    requires
        k <= n,
        !range_fits(v, token, from, k),
    ensures
        !range_fits(v, token, from, n),
    decreases n - k,
{
    if k < n {
        lemma_range_fits_prefix(v, token, from, k, (n - 1) as nat);
    }
}

} // verus!
