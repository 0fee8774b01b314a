//! Multi-period claims: what a holder may claim, and claiming it.

use vstd::prelude::*;

use crate::access::require_auth;
use crate::events::{EventOf, HostCallOf, HostCallView};
use crate::math::{bps_part, in_i128, sat_u64};
use crate::state::{RevoraRevenueShare, RevoraView};
use crate::types::{Address, Failure, RevoraError, Trap};

verus! {

/// Maximum number of periods that can be claimed in a single invocation.
pub const MAX_CLAIM_PERIODS: u32 = 50;

/// Whether the claim delay of `token` has elapsed at `now` for the period
/// at index `idx` of its deposited periods.
pub open spec fn ready_at(v: RevoraView, token: Address, now: u64, idx: int) -> bool {
    let delay = v.claim_delay(token);
    let p = v.entries_of(token)[idx];
    !(delay > 0 && now < sat_u64(v.deposit_time(token, p) + delay))
}

/// The first index in `i..end` whose period is not yet claimable, or `end`.
pub open spec fn first_unready_from(v: RevoraView, token: Address, now: u64, i: int, end: int) -> int
    decreases end - i,
{
    if i >= end {
        end
    } else if !ready_at(v, token, now, i) {
        i
    } else {
        first_unready_from(v, token, now, i + 1, end)
    }
}

/// The revenue deposited for the period at index `idx` of `token`.
pub open spec fn revenue_at_index(v: RevoraView, token: Address, idx: int) -> int {
    v.period_revenue[(token, v.entries_of(token)[idx])] as int
}

/// What `holder` is owed for the period at index `idx` of `token`.
pub open spec fn payout_at(v: RevoraView, token: Address, holder: Address, idx: int) -> int {
    bps_part(revenue_at_index(v, token, idx), v.holder_share(token, holder) as int)
}

/// What `holder` is owed for the `k` periods from index `start`.
pub open spec fn sum_payouts(v: RevoraView, token: Address, holder: Address, start: int, k: nat) -> int
    decreases k,
{
    if k == 0 {
        0
    } else {
        sum_payouts(v, token, holder, start, (k - 1) as nat) + payout_at(
            v,
            token,
            holder,
            start + k - 1,
        )
    }
}

/// Whether computing that sum stays within `i128`: every product of a
/// revenue and the share, and every partial sum.
pub open spec fn payouts_fit(v: RevoraView, token: Address, holder: Address, start: int, k: nat) -> bool
    decreases k,
{
    k == 0 || {
        &&& payouts_fit(v, token, holder, start, (k - 1) as nat)
        &&& in_i128(revenue_at_index(v, token, start + k - 1) * v.holder_share(token, holder))
        &&& in_i128(sum_payouts(v, token, holder, start, k))
    }
}

/// The number of periods a claim limited to `max_periods` may visit
/// (0 means the maximum of 50).
pub open spec fn effective_max(max_periods: u32) -> int {
    if max_periods == 0 || max_periods > MAX_CLAIM_PERIODS {
        MAX_CLAIM_PERIODS as int
    } else {
        max_periods as int
    }
}

/// The index after the last period a claim visits.
pub open spec fn claim_end(v: RevoraView, token: Address, holder: Address, max_periods: u32) -> int {
    let start = v.claim_index(token, holder) as int;
    let count = v.entries_of(token).len() as int;
    if start + effective_max(max_periods) < count {
        start + effective_max(max_periods)
    } else {
        count
    }
}

/// The index after the last period a claim pays.
pub open spec fn claim_stop(
    v: RevoraView,
    token: Address,
    holder: Address,
    max_periods: u32,
    now: u64,
) -> int {
    first_unready_from(
        v,
        token,
        now,
        v.claim_index(token, holder) as int,
        claim_end(v, token, holder, max_periods),
    )
}

pub open spec fn claim_outcome(
    v: RevoraView,
    signers: Seq<Address>,
    holder: Address,
    token: Address,
    max_periods: u32,
    now: u64,
) -> Result<i128, Failure> {
    let start = v.claim_index(token, holder) as int;
    let stop = claim_stop(v, token, holder, max_periods, now);
    if v.paused {
        Err(Failure::Trap(Trap::Paused))
    } else if !signers.contains(holder) {
        Err(Failure::Trap(Trap::Unauthorized(holder)))
    } else if v.blacklist_of(token).contains(holder) {
        Err(Failure::Contract(RevoraError::HolderBlacklisted))
    } else if v.holder_share(token, holder) == 0 {
        Err(Failure::Contract(RevoraError::NoPendingClaims))
    } else if start >= v.entries_of(token).len() {
        Err(Failure::Contract(RevoraError::NoPendingClaims))
    } else if start + effective_max(max_periods) > u32::MAX {
        Err(Failure::Trap(Trap::ArithmeticOverflow))
    } else if stop == start {
        Err(Failure::Contract(RevoraError::ClaimDelayNotElapsed))
    } else if !payouts_fit(v, token, holder, start, (stop - start) as nat) {
        Err(Failure::Trap(Trap::ArithmeticOverflow))
    } else {
        Ok(sum_payouts(v, token, holder, start, (stop - start) as nat) as i128)
    }
}

/// What `get_claimable` gives at `now`: 0 without a share, else the
/// payouts of the unclaimed periods up to the first one whose claim delay
/// has not elapsed, or an overflow.
pub open spec fn claimable_outcome(v: RevoraView, token: Address, holder: Address, now: u64) -> Result<
    i128,
    Trap,
> {
    let start = v.claim_index(token, holder) as int;
    let stop = first_unready_from(v, token, now, start, v.entries_of(token).len() as int);
    if v.holder_share(token, holder) == 0 {
        Ok(0)
    } else if payouts_fit(v, token, holder, start, (stop - start) as nat) {
        Ok(sum_payouts(v, token, holder, start, (stop - start) as nat) as i128)
    } else {
        Err(Trap::ArithmeticOverflow)
    }
}

/// The host calls of a successful claim of `total`.
pub open spec fn claim_calls(
    v: RevoraView,
    holder: Address,
    token: Address,
    max_periods: u32,
    now: u64,
    total: i128,
) -> Seq<HostCallView> {
    let start = v.claim_index(token, holder) as int;
    let stop = claim_stop(v, token, holder, max_periods, now);
    let paid: Seq<HostCallView> = if total > 0 {
        seq![HostCallOf::PayOut { asset: v.payment_tokens[token], to: holder, amount: total }]
    } else {
        Seq::empty()
    };
    paid.push(
        HostCallOf::Publish(
            EventOf::Claimed {
                holder,
                token,
                total_payout: total,
                periods: v.entries_of(token).subrange(start, stop),
            },
        ),
    )
}

pub proof fn lemma_first_unready_bounds(v: RevoraView, token: Address, now: u64, i: int, end: int)
    requires
        i <= end,
    ensures
        i <= first_unready_from(v, token, now, i, end) <= end,
        forall|j: int| i <= j < first_unready_from(v, token, now, i, end) ==> ready_at(v, token, now, j),
    decreases end - i,
{
    if i < end && ready_at(v, token, now, i) {
        lemma_first_unready_bounds(v, token, now, i + 1, end);
    }
}

impl RevoraRevenueShare {
    /// The deposited periods of `token`, in deposit order.
    fn entries_copy(&self, token: &Address) -> (r: Vec<u64>)
        ensures
            r@ == self@.entries_of(*token),
    {
        match self.read_period_entries(token) {
            Some(v) => crate::types::copy_u64s(v),
            None => Vec::new(),
        }
    }

    /// The first index in `i..end` whose period is not yet claimable at `now`, or `end`.
    fn find_unready(&self, token: &Address, entries: &Vec<u64>, now: u64, start: usize, end: usize) -> (r:
        usize)
        requires
            entries@ == self@.entries_of(*token),
            start <= end <= entries@.len(),
        ensures
            r == first_unready_from(self@, *token, now, start as int, end as int),
    {
        let delay = self.get_claim_delay(*token);
        let mut i = start;
        while i < end
            invariant
                start <= i <= end,
                end <= entries@.len(),
                entries@ == self@.entries_of(*token),
                delay == self@.claim_delay(*token),
                first_unready_from(self@, *token, now, start as int, end as int) == first_unready_from(
                    self@,
                    *token,
                    now,
                    i as int,
                    end as int,
                ),
            decreases end - i,
        {
            let p = entries[i];
            let deposit_time = match self.read_period_deposit_time(&(*token, p)) {
                Some(t) => t,
                None => 0,
            };
            let due = if deposit_time > u64::MAX - delay {
                u64::MAX
            } else {
                deposit_time + delay
            };
            if delay > 0 && now < due {
                return i;
            }
            i = i + 1;
        }
        i
    }

    /// Sum of the payouts of `holder` for the periods at indices
    /// `start..stop`, with the periods themselves; aborts on overflow.
    fn sum_claimable(
        &self,
        token: &Address,
        holder: &Address,
        entries: &Vec<u64>,
        share_bps: u32,
        start: usize,
        stop: usize,
    ) -> (r: Result<(i128, Vec<u64>), Trap>)
        requires
            self.wf(),
            entries@ == self@.entries_of(*token),
            share_bps == self@.holder_share(*token, *holder),
            start <= stop <= entries@.len(),
        ensures
            payouts_fit(self@, *token, *holder, start as int, (stop - start) as nat) ==> (r matches Ok(
                (total, periods),
            ) && total == sum_payouts(self@, *token, *holder, start as int, (stop - start) as nat)
                && periods@ == entries@.subrange(start as int, stop as int)),
            !payouts_fit(self@, *token, *holder, start as int, (stop - start) as nat) ==> r == Err::<
                (i128, Vec<u64>),
                Trap,
            >(Trap::ArithmeticOverflow),
    {
        let ghost v = self@;
        assert(forall|k: int|
            0 <= k < entries@.len() ==> v.period_revenue.contains_key((*token, #[trigger] entries@[k])));
        let mut total: i128 = 0;
        let mut periods: Vec<u64> = Vec::new();
        let mut i = start;
        while i < stop
            invariant
                start <= i <= stop,
                stop <= entries@.len(),
                v == self@,
                entries@ == v.entries_of(*token),
                share_bps == v.holder_share(*token, *holder),
                forall|k: int|
                    0 <= k < entries@.len() ==> v.period_revenue.contains_key(
                        (*token, #[trigger] entries@[k]),
                    ),
                payouts_fit(v, *token, *holder, start as int, (i - start) as nat),
                total == sum_payouts(v, *token, *holder, start as int, (i - start) as nat),
                periods@ == entries@.subrange(start as int, i as int),
            decreases stop - i,
        {
            let ghost k = (i - start + 1) as nat;
            let p = entries[i];
            let revenue = match self.read_period_revenue(&(*token, p)) {
                Some(x) => x,
                None => 0,
            };
            assert(revenue == revenue_at_index(v, *token, i as int));
            let product = match revenue.checked_mul(share_bps as i128) {
                Some(x) => x,
                None => {
                    proof {
                        lemma_payouts_fit_prefix(
                            v,
                            *token,
                            *holder,
                            start as int,
                            k,
                            (stop - start) as nat,
                        );
                    }
                    return Err(Trap::ArithmeticOverflow);
                },
            };
            proof {
                crate::math::lemma_trunc_div_bounds(product as int, 10_000);
            }
            let payout = product / 10_000;
            assert(payout == payout_at(v, *token, *holder, i as int));
            total = match total.checked_add(payout) {
                Some(x) => x,
                None => {
                    proof {
                        lemma_payouts_fit_prefix(
                            v,
                            *token,
                            *holder,
                            start as int,
                            k,
                            (stop - start) as nat,
                        );
                    }
                    return Err(Trap::ArithmeticOverflow);
                },
            };
            periods.push(p);
            i = i + 1;
            assert(periods@ =~= entries@.subrange(start as int, i as int));
        }
        Ok((total, periods))
    }

    /// Claim the revenue owed to `holder` for `token`'s unclaimed periods, at
    /// ledger time `now`: at most `max_periods` of them (0 or more than 50
    /// means 50), stopping at the first period whose claim delay has not
    /// elapsed. Payouts use the holder's current share.
    pub fn claim(&mut self, signers: &Vec<Address>, holder: Address, token: Address, max_periods: u32, now: u64) -> (r:
        Result<i128, Failure>)
        requires
            old(self).wf(),
        ensures
            final(self).wf(),
            old(self)@.proposals_kept(final(self)@),
            r == claim_outcome(old(self)@, signers@, holder, token, max_periods, now),
            r is Err ==> final(self)@ == old(self)@ && final(self).host_calls() == old(
                self,
            ).host_calls(),
            r matches Ok(total) ==> final(self)@ == (RevoraView {
                last_claimed: old(self)@.last_claimed.insert(
                    (token, holder),
                    claim_stop(old(self)@, token, holder, max_periods, now) as u32,
                ),
                ..old(self)@
            }) && final(self).host_calls() == old(self).host_calls() + claim_calls(
                old(self)@,
                holder,
                token,
                max_periods,
                now,
                total,
            ),
    {
        self.require_unpaused()?;
        if let Err(t) = require_auth(signers, &holder) {
            return Err(Failure::Trap(t));
        }
        if self.is_blacklisted(token, holder) {
            return Err(Failure::Contract(RevoraError::HolderBlacklisted));
        }
        let share_bps = self.get_holder_share(token, holder);
        if share_bps == 0 {
            return Err(Failure::Contract(RevoraError::NoPendingClaims));
        }
        let entries = self.entries_copy(&token);
        let period_count = entries.len();
        let start_idx: u32 = match self.read_last_claimed(&(token, holder)) {
            Some(i) => i,
            None => 0,
        };
        if start_idx as usize >= period_count {
            return Err(Failure::Contract(RevoraError::NoPendingClaims));
        }
        let effective = if max_periods == 0 || max_periods > MAX_CLAIM_PERIODS {
            MAX_CLAIM_PERIODS
        } else {
            max_periods
        };
        if start_idx > u32::MAX - effective {
            return Err(Failure::Trap(Trap::ArithmeticOverflow));
        }
        let wanted = (start_idx + effective) as usize;
        let end_idx = if wanted < period_count {
            wanted
        } else {
            period_count
        };
        let start = start_idx as usize;
        let stop = self.find_unready(&token, &entries, now, start, end_idx);
        proof {
            lemma_first_unready_bounds(self@, token, now, start as int, end_idx as int);
        }
        if stop == start {
            return Err(Failure::Contract(RevoraError::ClaimDelayNotElapsed));
        }
        let (total_payout, claimed_periods) = match self.sum_claimable(
            &token,
            &holder,
            &entries,
            share_bps,
            start,
            stop,
        ) {
            Ok(x) => x,
            Err(t) => {
                return Err(Failure::Trap(t));
            },
        };
        let ghost v0 = self@;
        let ghost calls0 = self.host_calls();
        if total_payout > 0 {
            let payment_token = match self.read_payment_tokens(&token) {
                Some(p) => p,
                None => holder,
            };
            self.pay_out(payment_token, holder, total_payout);
        }
        self.write_last_claimed((token, holder), stop as u32);
        self.emit(
            EventOf::Claimed {
                holder,
                token,
                total_payout,
                periods: claimed_periods,
            },
        );
        assert(self.host_calls() =~= calls0 + claim_calls(v0, holder, token, max_periods, now, total_payout));
        Ok(total_payout)
    }

    /// Return the unclaimed period ids of `holder` for `token`, in deposit order.
    pub fn get_pending_periods(&self, token: Address, holder: Address) -> (r: Vec<u64>)
        requires
            self.wf(),
        ensures
            r@ == self@.entries_of(token).subrange(
                self@.claim_index(token, holder) as int,
                self@.entries_of(token).len() as int,
            ),
    {
        let entries = self.entries_copy(&token);
        let start: u32 = match self.read_last_claimed(&(token, holder)) {
            Some(i) => i,
            None => 0,
        };
        let mut periods: Vec<u64> = Vec::new();
        let mut i = start as usize;
        while i < entries.len()
            invariant
                start <= i <= entries@.len(),
                periods@ == entries@.subrange(start as int, i as int),
            decreases entries@.len() - i,
        {
            periods.push(entries[i]);
            i = i + 1;
            assert(periods@ =~= entries@.subrange(start as int, i as int));
        }
        periods
    }

    /// Preview what `holder` could claim of `token` at ledger time `now`,
    /// without changing anything: the payouts of all unclaimed periods up to
    /// the first whose claim delay has not elapsed. Aborts on overflow.
    pub fn get_claimable(&self, token: Address, holder: Address, now: u64) -> (r: Result<i128, Trap>)
        requires
            self.wf(),
        ensures
            r == claimable_outcome(self@, token, holder, now),
    {
        let share_bps = self.get_holder_share(token, holder);
        if share_bps == 0 {
            return Ok(0);
        }
        let entries = self.entries_copy(&token);
        let start: u32 = match self.read_last_claimed(&(token, holder)) {
            Some(i) => i,
            None => 0,
        };
        let start = start as usize;
        let count = entries.len();
        let stop = self.find_unready(&token, &entries, now, start, count);
        proof {
            lemma_first_unready_bounds(self@, token, now, start as int, count as int);
        }
        match self.sum_claimable(&token, &holder, &entries, share_bps, start, stop) {
            Ok((total, _)) => Ok(total),
            Err(t) => Err(t),
        }
    }
}

pub proof fn lemma_payouts_fit_prefix(
    v: RevoraView,
    token: Address,
    holder: Address,
    start: int,
    k: nat,
    n: nat,
)
    requires
        k <= n,
        !payouts_fit(v, token, holder, start, k),
    ensures
        !payouts_fit(v, token, holder, start, n),
    decreases n - k,
{
    if k < n {
        lemma_payouts_fit_prefix(v, token, holder, start, k, (n - 1) as nat);
    }
}

} // verus!
