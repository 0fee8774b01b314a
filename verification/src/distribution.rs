//! Distribution arithmetic for integrators: a holder's payout, the
//! distributable total, a simulated distribution, and aggregated metrics.

use vstd::prelude::*;

use crate::access::require_auth;
use crate::events::{EventOf, HostCallOf};
use crate::math::{
    bps_part, checked_bps_part, in_i128, sat_i128, sat_u32, sat_u64, saturating_add_i128,
    saturating_add_u32, saturating_add_u64, share_of,
};
use crate::offerings::{min_nat, offering_of, MAX_AGGREGATION_ISSUERS};
use crate::state::{lookup, RevoraRevenueShare, RevoraView};
use crate::types::{
    AggregatedMetrics, Address, AuditSummary, RoundingMode, SimulateDistributionResult, Trap,
};

verus! {

/// Division rounding toward zero for any non-zero divisor.
pub open spec fn quot(x: int, d: int) -> int {
    if x == 0 {
        0
    } else if x > 0 && d > 0 {
        x / d
    } else if x < 0 && d < 0 {
        (-x) / (-d)
    } else if x < 0 {
        -((-x) / d)
    } else {
        -(x / (-d))
    }
}

pub open spec fn distribution_outcome(
    v: RevoraView,
    signers: Seq<Address>,
    caller: Address,
    issuer: Address,
    token: Address,
    total_revenue: i128,
    total_supply: i128,
    holder_balance: i128,
    holder: Address,
) -> Result<i128, Trap> {
    if !signers.contains(caller) {
        Err(Trap::Unauthorized(caller))
    } else if total_supply == 0 {
        Err(Trap::ZeroTotalSupply)
    } else if offering_of(v, issuer, token) is None {
        Err(Trap::OfferingNotFound)
    } else if v.blacklist_of(token).contains(holder) {
        Err(Trap::HolderBlacklisted)
    } else if total_revenue == 0 || holder_balance == 0 {
        Ok(0)
    } else {
        let bps = offering_of(v, issuer, token).unwrap().revenue_share_bps as int;
        let distributable = bps_part(total_revenue as int, bps);
        if !in_i128(total_revenue * bps) {
            Err(Trap::ArithmeticOverflow)
        } else if !in_i128(holder_balance * distributable) {
            Err(Trap::ArithmeticOverflow)
        } else if !in_i128(quot(holder_balance * distributable, total_supply as int)) {
            Err(Trap::ArithmeticOverflow)
        } else {
            Ok(quot(holder_balance * distributable, total_supply as int) as i128)
        }
    }
}

/// The sum of the simulated payouts of the first `k` entries, saturating.
pub open spec fn simulated_total(
    amount: i128,
    shares: Seq<(Address, u32)>,
    mode: RoundingMode,
    k: nat,
) -> int
    decreases k,
{
    if k == 0 {
        0
    } else {
        sat_i128(
            simulated_total(amount, shares, mode, (k - 1) as nat) + share_of(
                amount as int,
                shares[k - 1].1 as int,
                mode,
            ),
        )
    }
}

pub open spec fn zero_metrics() -> AggregatedMetrics {
    AggregatedMetrics {
        total_reported_revenue: 0,
        total_deposited_revenue: 0,
        total_report_count: 0,
        offering_count: 0,
    }
}

/// Field-wise saturating sum of two metrics.
pub open spec fn add_metrics(a: AggregatedMetrics, b: AggregatedMetrics) -> AggregatedMetrics {
    AggregatedMetrics {
        total_reported_revenue: sat_i128(a.total_reported_revenue + b.total_reported_revenue) as i128,
        total_deposited_revenue: sat_i128(a.total_deposited_revenue + b.total_deposited_revenue) as i128,
        total_report_count: sat_u64(a.total_report_count + b.total_report_count) as u64,
        offering_count: sat_u32(a.offering_count + b.offering_count) as u32,
    }
}

/// What the offering of `issuer` for `token` adds to its issuer's metrics.
pub open spec fn offering_metrics(v: RevoraView, issuer: Address, token: Address) -> AggregatedMetrics {
    let summary = match lookup(v.audit_summaries, (issuer, token)) {
        Some(s) => s,
        None => AuditSummary { total_revenue: 0, report_count: 0 },
    };
    AggregatedMetrics {
        total_reported_revenue: summary.total_revenue,
        total_deposited_revenue: match lookup(v.deposited_revenue, token) {
            Some(d) => d,
            None => 0,
        },
        total_report_count: summary.report_count,
        offering_count: 0,
    }
}

/// Metrics of the first `k` offerings of `issuer`.
pub open spec fn issuer_fold(v: RevoraView, issuer: Address, k: nat) -> AggregatedMetrics
    decreases k,
{
    if k == 0 {
        zero_metrics()
    } else {
        add_metrics(
            issuer_fold(v, issuer, (k - 1) as nat),
            offering_metrics(v, issuer, v.offerings_of(issuer)[k - 1].token),
        )
    }
}

/// Metrics of all offerings of `issuer`.
pub open spec fn issuer_metrics(v: RevoraView, issuer: Address) -> AggregatedMetrics {
    let s = v.offerings_of(issuer);
    AggregatedMetrics { offering_count: s.len() as u32, ..issuer_fold(v, issuer, s.len()) }
}

/// Metrics of the first `k` registered issuers.
pub open spec fn platform_fold(v: RevoraView, k: nat) -> AggregatedMetrics
    decreases k,
{
    if k == 0 {
        zero_metrics()
    } else {
        add_metrics(platform_fold(v, (k - 1) as nat), issuer_metrics(v, v.issuers[k - 1]))
    }
}

fn add_metrics_exec(a: AggregatedMetrics, b: AggregatedMetrics) -> (r: AggregatedMetrics)
    ensures
        r == add_metrics(a, b),
{
    AggregatedMetrics {
        total_reported_revenue: saturating_add_i128(a.total_reported_revenue, b.total_reported_revenue),
        total_deposited_revenue: saturating_add_i128(
            a.total_deposited_revenue,
            b.total_deposited_revenue,
        ),
        total_report_count: saturating_add_u64(a.total_report_count, b.total_report_count),
        offering_count: saturating_add_u32(a.offering_count, b.offering_count),
    }
}

impl RevoraRevenueShare {
    /// The payout of `holder` in the offering of `issuer` for `token`:
    /// `holder_balance * (total_revenue * share / 10000) / total_supply`,
    /// each division rounding toward zero. Publishes the result. Aborts for a
    /// zero supply, a missing offering, a blacklisted holder, or on overflow.
    pub fn calculate_distribution(
        &mut self,
        signers: &Vec<Address>,
        caller: Address,
        issuer: Address,
        token: Address,
        total_revenue: i128,
        total_supply: i128,
        holder_balance: i128,
        holder: Address,
    ) -> (r: Result<i128, Trap>)
        requires
            old(self).wf(),
        ensures
            final(self).wf(),
            old(self)@.proposals_kept(final(self)@),
            r == distribution_outcome(
                old(self)@,
                signers@,
                caller,
                issuer,
                token,
                total_revenue,
                total_supply,
                holder_balance,
                holder,
            ),
            final(self)@ == old(self)@,
            r is Err ==> final(self).host_calls() == old(self).host_calls(),
            r matches Ok(payout) ==> final(self).host_calls() == old(self).host_calls().push(
                HostCallOf::Publish(
                    EventOf::DistributionCalculated {
                        token,
                        holder,
                        total_revenue,
                        total_supply,
                        holder_balance,
                        revenue_share_bps: offering_of(old(self)@, issuer, token).unwrap().revenue_share_bps,
                        payout,
                    },
                ),
            ),
    {
        require_auth(signers, &caller)?;
        if total_supply == 0 {
            return Err(Trap::ZeroTotalSupply);
        }
        let offering = match self.get_offering(issuer, token) {
            Some(o) => o,
            None => {
                return Err(Trap::OfferingNotFound);
            },
        };
        if self.is_blacklisted(token, holder) {
            return Err(Trap::HolderBlacklisted);
        }
        let payout = if total_revenue == 0 || holder_balance == 0 {
            0
        } else {
            let distributable = match checked_bps_part(
                total_revenue,
                offering.revenue_share_bps as i128,
            ) {
                Some(d) => d,
                None => {
                    return Err(Trap::ArithmeticOverflow);
                },
            };
            let product = match holder_balance.checked_mul(distributable) {
                Some(p) => p,
                None => {
                    return Err(Trap::ArithmeticOverflow);
                },
            };
            match product.checked_div(total_supply) {
                Some(q) => q,
                None => {
                    return Err(Trap::ArithmeticOverflow);
                },
            }
        };
        self.emit(
            EventOf::DistributionCalculated {
                token,
                holder,
                total_revenue,
                total_supply,
                holder_balance,
                revenue_share_bps: offering.revenue_share_bps,
                payout,
            },
        );
        Ok(payout)
    }

    /// The distributable part of `total_revenue` for the offering:
    /// `total_revenue * share / 10000`, rounded toward zero. Aborts when the
    /// offering is missing or on overflow.
    pub fn calculate_total_distributable(&self, issuer: Address, token: Address, total_revenue: i128) -> (r:
        Result<i128, Trap>)
        ensures
            offering_of(self@, issuer, token) is None ==> r == Err::<i128, Trap>(
                Trap::OfferingNotFound,
            ),
            offering_of(self@, issuer, token) matches Some(o) ==> {
                let bps = o.revenue_share_bps as int;
                &&& total_revenue == 0 ==> r == Ok::<i128, Trap>(0)
                &&& total_revenue != 0 && in_i128(total_revenue * bps) ==> r == Ok::<i128, Trap>(
                    bps_part(total_revenue as int, bps) as i128,
                )
                &&& total_revenue != 0 && !in_i128(total_revenue * bps) ==> r == Err::<i128, Trap>(
                    Trap::ArithmeticOverflow,
                )
            },
    {
        let offering = match self.get_offering(issuer, token) {
            Some(o) => o,
            None => {
                return Err(Trap::OfferingNotFound);
            },
        };
        if total_revenue == 0 {
            return Ok(0);
        }
        match checked_bps_part(total_revenue, offering.revenue_share_bps as i128) {
            Some(d) => Ok(d),
            None => Err(Trap::ArithmeticOverflow),
        }
    }

    /// Simulate distributing `amount` to the given holders and shares, with
    /// the offering's rounding mode, without changing anything. Shares above
    /// 10000 bps pay nothing; the total saturates.
    pub fn simulate_distribution(
        &self,
        issuer: Address,
        token: Address,
        amount: i128,
        holder_shares: &Vec<(Address, u32)>,
    ) -> (r: SimulateDistributionResult)
        ensures
            ({
                let mode = self@.rounding_mode(issuer, token);
                &&& r.payouts@.len() == holder_shares@.len()
                &&& forall|i: int|
                    0 <= i < holder_shares@.len() ==> #[trigger] r.payouts@[i] == (
                        holder_shares@[i].0,
                        share_of(amount as int, holder_shares@[i].1 as int, mode) as i128,
                    )
                &&& r.total_distributed == simulated_total(
                    amount,
                    holder_shares@,
                    mode,
                    holder_shares@.len(),
                )
            }),
    {
        let mode = self.get_rounding_mode(issuer, token);
        let mut total: i128 = 0;
        let mut payouts: Vec<(Address, i128)> = Vec::new();
        let mut i: usize = 0;
        while i < holder_shares.len()
            invariant
                i <= holder_shares@.len(),
                mode == self@.rounding_mode(issuer, token),
                payouts@.len() == i,
                forall|j: int|
                    0 <= j < i ==> #[trigger] payouts@[j] == (
                        holder_shares@[j].0,
                        share_of(amount as int, holder_shares@[j].1 as int, mode) as i128,
                    ),
                total == simulated_total(amount, holder_shares@, mode, i as nat),
            decreases holder_shares@.len() - i,
        {
            let (holder, share_bps) = holder_shares[i];
            let payout = if share_bps > 10_000 {
                0
            } else {
                Self::compute_share(amount, share_bps, mode)
            };
            total = saturating_add_i128(total, payout);
            payouts.push((holder, payout));
            i = i + 1;
        }
        SimulateDistributionResult { total_distributed: total, payouts }
    }

    /// Aggregate the audit summaries and deposited revenue of all offerings
    /// of `issuer` (saturating sums).
    pub fn get_issuer_aggregation(&self, issuer: Address) -> (r: AggregatedMetrics)
        requires
            self.wf(),
        ensures
            r == issuer_metrics(self@, issuer),
    {
        let offerings = self.offerings_list(&issuer);
        let mut acc = AggregatedMetrics {
            total_reported_revenue: 0,
            total_deposited_revenue: 0,
            total_report_count: 0,
            offering_count: 0,
        };
        let mut i: usize = 0;
        while i < offerings.len()
            invariant
                i <= offerings@.len(),
                offerings@ == self@.offerings_of(issuer),
                acc == issuer_fold(self@, issuer, i as nat),
            decreases offerings@.len() - i,
        {
            let token = offerings[i].token;
            let summary = match self.get_audit_summary(issuer, token) {
                Some(s) => s,
                None => AuditSummary { total_revenue: 0, report_count: 0 },
            };
            let contribution = AggregatedMetrics {
                total_reported_revenue: summary.total_revenue,
                total_deposited_revenue: self.get_total_deposited_revenue(token),
                total_report_count: summary.report_count,
                offering_count: 0,
            };
            acc = add_metrics_exec(acc, contribution);
            i = i + 1;
        }
        AggregatedMetrics { offering_count: offerings.len() as u32, ..acc }
    }

    /// Aggregate the metrics of the first 50 registered issuers (saturating sums).
    pub fn get_platform_aggregation(&self) -> (r: AggregatedMetrics)
        requires
            self.wf(),
        ensures
            r == platform_fold(
                self@,
                min_nat(self@.issuers.len() as int, MAX_AGGREGATION_ISSUERS as int) as nat,
            ),
    {
        let n = self.issuer_count();
        let cap: usize = if n < MAX_AGGREGATION_ISSUERS as usize {
            n
        } else {
            MAX_AGGREGATION_ISSUERS as usize
        };
        let mut acc = AggregatedMetrics {
            total_reported_revenue: 0,
            total_deposited_revenue: 0,
            total_report_count: 0,
            offering_count: 0,
        };
        let mut i: usize = 0;
        while i < cap
            invariant
                i <= cap,
                cap <= self@.issuers.len(),
                self.wf(),
                acc == platform_fold(self@, i as nat),
            decreases cap - i,
        {
            let issuer = self.issuer_at(i);
            let metrics = self.get_issuer_aggregation(issuer);
            acc = add_metrics_exec(acc, metrics);
            i = i + 1;
        }
        acc
    }
}

} // verus!
