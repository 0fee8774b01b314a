//! Properties of the contract as a whole, proved over the outcome and
//! effect specifications of its entrypoints.

use vstd::prelude::*;

use crate::admin::{admin_only_outcome, freeze_outcome, pause_outcome, set_admin_outcome, PauseRole};
use crate::claims::{
    claim_calls, claim_end, claim_outcome, claim_stop, claimable_outcome, effective_max,
    first_unready_from, lemma_first_unready_bounds, payouts_fit, ready_at, sum_payouts,
    MAX_CLAIM_PERIODS,
};
use crate::config::{
    issuer_only_outcome, report_concentration_outcome, set_concentration_limit_outcome,
    set_rounding_mode_outcome, set_snapshot_config_outcome,
};
use crate::distribution::{distribution_outcome, issuer_fold, issuer_metrics, platform_fold, quot};
use crate::lists::{blacklist_change_outcome, blacklist_remove_outcome};
use crate::multisig::{approve_outcome, execute_outcome, executed, init_multisig_outcome, owner_outcome};
use crate::math::{bps_part, in_i128, lemma_trunc_div_bounds, share_of, trunc_div};
use crate::offerings::{
    accept_transfer_outcome, current_issuer_outcome, find_token, lemma_find_token_from, offering_of,
    register_offering_outcome, registered, set_metadata_outcome, transferred,
};
use crate::revenue::{
    deposit_outcome, deposited, report_revenue_outcome, reported, revenue_at, snapshot_deposit_outcome,
};
use crate::sets::{
    appended_once, lemma_contains_push, lemma_seq_without_contains,
    lemma_seq_without_no_duplicates, seq_without,
};
use crate::state::{lookup, RevoraView};
use crate::events::{EventView, HostCallOf};
use crate::types::{Address, AuditSummary, Failure, Offering, RevoraError, RoundingMode, Trap};

verus! {

/// While the contract is frozen, every state-changing entrypoint that
/// reports error codes fails with `ContractFrozen` (and so changes
/// nothing), except claims, freezing itself and pausing; the whitelist
/// calls and `initialize` abort instead (see their contracts).
pub proof fn law_frozen_blocks_changes(
    v: RevoraView,
    signers: Seq<Address>,
    issuer: Address,
    token: Address,
    payout_asset: Address,
    payment_token: Address,
    bps: u32,
    len: int,
    period_id: u64,
    snapshot_reference: u64,
    missing: RevoraError,
    owners: Seq<Address>,
    threshold: u32,
    id: u32,
)
    requires
        v.frozen,
    ensures
        register_offering_outcome(v, signers, issuer, bps) == Err::<(), Failure>(
            Failure::Contract(RevoraError::ContractFrozen),
        ),
        report_revenue_outcome(v, signers, issuer, token, payout_asset) == Err::<(), Failure>(
            Failure::Contract(RevoraError::ContractFrozen),
        ),
        blacklist_change_outcome(v, signers, issuer, token) == Err::<(), Failure>(
            Failure::Contract(RevoraError::ContractFrozen),
        ),
        issuer_only_outcome(v, signers, issuer, token, missing) == Err::<(), Failure>(
            Failure::Contract(RevoraError::ContractFrozen),
        ),
        set_concentration_limit_outcome(v, signers, issuer, token) == Err::<(), Failure>(
            Failure::Contract(RevoraError::ContractFrozen),
        ),
        report_concentration_outcome(v, signers, issuer, token) == Err::<(), Failure>(
            Failure::Contract(RevoraError::ContractFrozen),
        ),
        set_rounding_mode_outcome(v, signers, issuer, token) == Err::<(), Failure>(
            Failure::Contract(RevoraError::ContractFrozen),
        ),
        set_snapshot_config_outcome(v, signers, issuer, token) == Err::<(), Failure>(
            Failure::Contract(RevoraError::ContractFrozen),
        ),
        snapshot_deposit_outcome(v, signers, issuer, token, payment_token, period_id, snapshot_reference)
            == Err::<(), Failure>(Failure::Contract(RevoraError::ContractFrozen)),
        current_issuer_outcome(v, signers, token) == Err::<(), Failure>(
            Failure::Contract(RevoraError::ContractFrozen),
        ),
        accept_transfer_outcome(v, signers, token) == Err::<(), Failure>(
            Failure::Contract(RevoraError::ContractFrozen),
        ),
        set_metadata_outcome(v, signers, issuer, token, len) == Err::<(), Failure>(
            Failure::Contract(RevoraError::ContractFrozen),
        ),
        blacklist_remove_outcome(v, signers, issuer, token) == Err::<(), Failure>(
            Failure::Contract(RevoraError::ContractFrozen),
        ),
        set_admin_outcome(v, signers, issuer) == Err::<(), Failure>(
            Failure::Contract(RevoraError::ContractFrozen),
        ),
        admin_only_outcome(v, signers) == Err::<(), Failure>(
            Failure::Contract(RevoraError::ContractFrozen),
        ),
        init_multisig_outcome(v, signers, issuer, owners, threshold) == Err::<(), Failure>(
            Failure::Contract(RevoraError::ContractFrozen),
        ),
        owner_outcome(v, signers, issuer) == Err::<(), Failure>(
            Failure::Contract(RevoraError::ContractFrozen),
        ),
        approve_outcome(v, signers, issuer, id) == Err::<(), Failure>(
            Failure::Contract(RevoraError::ContractFrozen),
        ),
        execute_outcome(v, id) == Err::<(), Failure>(
            Failure::Contract(RevoraError::ContractFrozen),
        ),
{
}

/// While the contract is paused (and not frozen, which is reported first
/// where both are checked), every state-changing entrypoint other than
/// pausing and unpausing aborts with `Paused` (and so changes nothing).
pub proof fn law_paused_blocks_changes(
    v: RevoraView,
    signers: Seq<Address>,
    caller: Address,
    issuer: Address,
    token: Address,
    holder: Address,
    payout_asset: Address,
    payment_token: Address,
    bps: u32,
    len: int,
    period_id: u64,
    snapshot_reference: u64,
    max_periods: u32,
    now: u64,
    owners: Seq<Address>,
    threshold: u32,
    id: u32,
    missing: RevoraError,
)
    requires
        v.paused,
        !v.frozen,
    ensures
        ({
            let paused = Err::<(), Failure>(Failure::Trap(Trap::Paused));
            &&& register_offering_outcome(v, signers, issuer, bps) == paused
            &&& report_revenue_outcome(v, signers, issuer, token, payout_asset) == paused
            &&& blacklist_change_outcome(v, signers, caller, token) == paused
            &&& blacklist_remove_outcome(v, signers, caller, token) == paused
            &&& issuer_only_outcome(v, signers, issuer, token, missing) == paused
            &&& set_concentration_limit_outcome(v, signers, issuer, token) == paused
            &&& report_concentration_outcome(v, signers, issuer, token) == paused
            &&& set_rounding_mode_outcome(v, signers, issuer, token) == paused
            &&& set_snapshot_config_outcome(v, signers, issuer, token) == paused
            &&& snapshot_deposit_outcome(
                v,
                signers,
                issuer,
                token,
                payment_token,
                period_id,
                snapshot_reference,
            ) == paused
            &&& current_issuer_outcome(v, signers, token) == paused
            &&& accept_transfer_outcome(v, signers, token) == paused
            &&& set_metadata_outcome(v, signers, issuer, token, len) == paused
            &&& claim_outcome(v, signers, holder, token, max_periods, now) == Err::<i128, Failure>(
                Failure::Trap(Trap::Paused),
            )
            &&& set_admin_outcome(v, signers, caller) == paused
            &&& freeze_outcome(v, signers) == paused
            &&& admin_only_outcome(v, signers) == paused
            &&& init_multisig_outcome(v, signers, caller, owners, threshold) == paused
            &&& owner_outcome(v, signers, caller) == paused
            &&& approve_outcome(v, signers, caller, id) == paused
            &&& execute_outcome(v, id) == paused
        }),
{
}

/// Freezing does not stop claims: the outcome of a claim is the same
/// whether or not the contract is frozen.
pub proof fn law_claims_survive_freeze(
    v: RevoraView,
    signers: Seq<Address>,
    holder: Address,
    token: Address,
    max_periods: u32,
    now: u64,
)
    ensures
        claim_outcome((RevoraView { frozen: true, ..v }), signers, holder, token, max_periods, now)
            == claim_outcome(v, signers, holder, token, max_periods, now),
{
    let f = RevoraView { frozen: true, ..v };
    assert(claim_stop(f, token, holder, max_periods, now) == claim_stop(
        v,
        token,
        holder,
        max_periods,
        now,
    )) by {
        lemma_first_unready_same(f, v, token, now, f.claim_index(token, holder) as int, claim_end(v, token, holder, max_periods));
    }
    assert(f.entries_of(token) == v.entries_of(token));
    lemma_payouts_same(f, v, token, holder, v.claim_index(token, holder) as int,
        (claim_stop(v, token, holder, max_periods, now) - v.claim_index(token, holder)) as nat);
}

proof fn lemma_first_unready_same(a: RevoraView, b: RevoraView, token: Address, now: u64, i: int, end: int)
    requires
        a.period_entries == b.period_entries,
        a.claim_delays == b.claim_delays,
        a.period_deposit_time == b.period_deposit_time,
    ensures
        crate::claims::first_unready_from(a, token, now, i, end)
            == crate::claims::first_unready_from(b, token, now, i, end),
    decreases end - i,
{
    if i < end {
        lemma_first_unready_same(a, b, token, now, i + 1, end);
    }
}

proof fn lemma_payouts_same(a: RevoraView, b: RevoraView, token: Address, holder: Address, start: int, k: nat)
    requires
        a.period_entries == b.period_entries,
        a.period_revenue == b.period_revenue,
        a.holder_shares == b.holder_shares,
    ensures
        crate::claims::sum_payouts(a, token, holder, start, k) == crate::claims::sum_payouts(
            b,
            token,
            holder,
            start,
            k,
        ),
        crate::claims::payouts_fit(a, token, holder, start, k) == crate::claims::payouts_fit(
            b,
            token,
            holder,
            start,
            k,
        ),
    decreases k,
{
    if k > 0 {
        lemma_payouts_same(a, b, token, holder, start, (k - 1) as nat);
    }
}

/// Whatever else holds, a blacklisted holder is never paid: every claim
/// fails (an authorized one, outside a pause, with `HolderBlacklisted`),
/// and computing its distribution aborts once the caller, supply and
/// offering are in order.
pub proof fn law_blacklisted_holder_never_paid(
    v: RevoraView,
    signers: Seq<Address>,
    holder: Address,
    token: Address,
    max_periods: u32,
    now: u64,
    caller: Address,
    issuer: Address,
    total_revenue: i128,
    total_supply: i128,
    holder_balance: i128,
)
    requires
        v.blacklist_of(token).contains(holder),
    ensures
        claim_outcome(v, signers, holder, token, max_periods, now) is Err,
        !v.paused && signers.contains(holder) ==> claim_outcome(
            v,
            signers,
            holder,
            token,
            max_periods,
            now,
        ) == Err::<i128, Failure>(Failure::Contract(RevoraError::HolderBlacklisted)),
        signers.contains(caller) && total_supply != 0 && offering_of(v, issuer, token) is Some
            ==> distribution_outcome(
            v,
            signers,
            caller,
            issuer,
            token,
            total_revenue,
            total_supply,
            holder_balance,
            holder,
        ) == Err::<i128, Trap>(Trap::HolderBlacklisted),
{
}

/// A successful claim pays at least one and at most 50 unclaimed periods,
/// and moves the claim index past exactly the periods it paid, so no
/// period is paid twice.
pub proof fn law_claim_advances(
    v: RevoraView,
    signers: Seq<Address>,
    holder: Address,
    token: Address,
    max_periods: u32,
    now: u64,
)
    requires
        v.wf(),
        claim_outcome(v, signers, holder, token, max_periods, now) is Ok,
    ensures
        ({
            let start = v.claim_index(token, holder) as int;
            let stop = claim_stop(v, token, holder, max_periods, now);
            &&& start < stop <= v.entries_of(token).len()
            &&& stop - start <= MAX_CLAIM_PERIODS
            &&& stop - start <= effective_max(max_periods)
        }),
{
    let start = v.claim_index(token, holder) as int;
    lemma_first_unready_bounds(v, token, now, start, claim_end(v, token, holder, max_periods));
}

/// Sum of the truncated shares of `amount` for the first `k` shares.
pub open spec fn truncated_total(amount: i128, bps: Seq<u32>, k: nat) -> int
    decreases k,
{
    if k == 0 {
        0
    } else {
        truncated_total(amount, bps, (k - 1) as nat) + share_of(
            amount as int,
            bps[k - 1] as int,
            RoundingMode::Truncation,
        )
    }
}

pub open spec fn bps_total(bps: Seq<u32>, k: nat) -> int
    decreases k,
{
    if k == 0 {
        0
    } else {
        bps_total(bps, (k - 1) as nat) + bps[k - 1]
    }
}

proof fn lemma_truncated_share_bound(amount: i128, b: u32)
    requires
        amount >= 0,
    ensures
        0 <= share_of(amount as int, b as int, RoundingMode::Truncation),
        10_000 * share_of(amount as int, b as int, RoundingMode::Truncation) <= amount * b,
{
    let a = amount as int;
    let bi = b as int;
    assert(a * bi >= 0) by (nonlinear_arith)
        requires
            a >= 0,
            bi >= 0,
    ;
    if bi <= 10_000 {
        let raw = if in_i128(a * bi) {
            a * bi
        } else {
            0
        };
        lemma_trunc_div_bounds(raw, 10_000);
    }
}

proof fn lemma_truncated_total_bound(amount: i128, bps: Seq<u32>, k: nat)
    requires
        amount >= 0,
        k <= bps.len(),
    ensures
        0 <= truncated_total(amount, bps, k),
        10_000 * truncated_total(amount, bps, k) <= amount * bps_total(bps, k),
    decreases k,
{
    if k > 0 {
        lemma_truncated_total_bound(amount, bps, (k - 1) as nat);
        lemma_truncated_share_bound(amount, bps[k - 1]);
        let a = amount as int;
        let t = bps_total(bps, (k - 1) as nat);
        let b = bps[k - 1] as int;
        assert(a * t + a * b == a * (t + b)) by (nonlinear_arith);
    }
}

/// `get_claimable` previews `claim`: when at most 50 periods are unclaimed,
/// a successful claim with the default limit pays exactly what
/// `get_claimable` reports at the same ledger time.
pub proof fn law_claimable_previews_claim(
    v: RevoraView,
    signers: Seq<Address>,
    holder: Address,
    token: Address,
    now: u64,
)
    requires
        v.entries_of(token).len() - v.claim_index(token, holder) <= MAX_CLAIM_PERIODS,
        claim_outcome(v, signers, holder, token, 0, now) is Ok,
    ensures
        match claim_outcome(v, signers, holder, token, 0, now) {
            Ok(total) => claimable_outcome(v, token, holder, now) == Ok::<i128, Trap>(total),
            Err(_) => true,
        },
{
    assert(claim_end(v, token, holder, 0) == v.entries_of(token).len());
}

/// `get_claimable` is what a claim pays: for an authorized holder who is
/// not blacklisted, outside a pause, with at most 50 unclaimed periods of
/// which the first is past its claim delay, a claim with the default limit
/// succeeds exactly when `get_claimable` does, and pays what it reports.
pub proof fn law_claim_pays_claimable(
    v: RevoraView,
    signers: Seq<Address>,
    holder: Address,
    token: Address,
    now: u64,
)
    requires
        signers.contains(holder),
        !v.paused,
        !v.blacklist_of(token).contains(holder),
        v.holder_share(token, holder) != 0,
        v.claim_index(token, holder) < v.entries_of(token).len(),
        v.entries_of(token).len() - v.claim_index(token, holder) <= MAX_CLAIM_PERIODS,
        v.claim_index(token, holder) + MAX_CLAIM_PERIODS <= u32::MAX,
        ready_at(v, token, now, v.claim_index(token, holder) as int),
    ensures
        match claimable_outcome(v, token, holder, now) {
            Ok(total) => claim_outcome(v, signers, holder, token, 0, now) == Ok::<i128, Failure>(
                total,
            ),
            Err(t) => claim_outcome(v, signers, holder, token, 0, now) == Err::<i128, Failure>(
                Failure::Trap(t),
            ),
        },
{
    let start = v.claim_index(token, holder) as int;
    let count = v.entries_of(token).len() as int;
    assert(claim_end(v, token, holder, 0) == count);
    assert(first_unready_from(v, token, now, start, count) == first_unready_from(
        v,
        token,
        now,
        start + 1,
        count,
    ));
    lemma_first_unready_bounds(v, token, now, start + 1, count);
}

/// With truncation, the shares of a non-negative amount for holders whose
/// shares add up to at most 10000 bps never add up to more than the amount.
pub proof fn law_truncation_never_over_distributes(amount: i128, bps: Seq<u32>)
    requires
        amount >= 0,
        bps_total(bps, bps.len()) <= 10_000,
    ensures
        truncated_total(amount, bps, bps.len()) <= amount,
{
    lemma_truncated_total_bound(amount, bps, bps.len());
    let a = amount as int;
    let t = bps_total(bps, bps.len());
    let s = truncated_total(amount, bps, bps.len());
    assert(a * t <= a * 10_000) by (nonlinear_arith)
        requires
            a >= 0,
            t <= 10_000,
    ;
    assert(s <= a) by (nonlinear_arith)
        requires
            10_000 * s <= a * 10_000,
    ;
}

/// The payout computed for a holder never exceeds the holder's exact
/// proportion of the distributable revenue, which never exceeds the exact
/// revenue share (for non-negative inputs and a positive supply).
pub proof fn law_distribution_never_over_distributes(
    v: RevoraView,
    signers: Seq<Address>,
    caller: Address,
    issuer: Address,
    token: Address,
    total_revenue: i128,
    total_supply: i128,
    holder_balance: i128,
    holder: Address,
)
    requires
        total_revenue >= 0,
        total_supply > 0,
        holder_balance >= 0,
        distribution_outcome(
            v,
            signers,
            caller,
            issuer,
            token,
            total_revenue,
            total_supply,
            holder_balance,
            holder,
        ) is Ok,
    ensures
        ({
            let payout = distribution_outcome(
                v,
                signers,
                caller,
                issuer,
                token,
                total_revenue,
                total_supply,
                holder_balance,
                holder,
            ).unwrap() as int;
            let bps = offering_of(v, issuer, token).unwrap().revenue_share_bps as int;
            let distributable = bps_part(total_revenue as int, bps);
            &&& 0 <= payout
            &&& 10_000 * distributable <= total_revenue * bps
            &&& payout * total_supply <= holder_balance * distributable
        }),
{
    let bps = offering_of(v, issuer, token).unwrap().revenue_share_bps as int;
    let r = total_revenue as int;
    assert(r * bps >= 0) by (nonlinear_arith)
        requires
            r >= 0,
            bps >= 0,
    ;
    lemma_trunc_div_bounds(r * bps, 10_000);
    let d = bps_part(r, bps);
    let hb = holder_balance as int;
    let ts = total_supply as int;
    assert(hb * d >= 0) by (nonlinear_arith)
        requires
            hb >= 0,
            d >= 0,
    ;
    if r != 0 && hb != 0 {
        let x = hb * d;
        vstd::arithmetic::div_mod::lemma_fundamental_div_mod(x, ts);
        vstd::arithmetic::div_mod::lemma_mod_pos_bound(x, ts);
        vstd::arithmetic::div_mod::lemma_div_pos_is_pos(x, ts);
        assert(quot(x, ts) == x / ts);
        assert((x / ts) * ts == ts * (x / ts)) by (nonlinear_arith);
        assert((x / ts) * ts <= x);
        let payout = distribution_outcome(
            v,
            signers,
            caller,
            issuer,
            token,
            total_revenue,
            total_supply,
            holder_balance,
            holder,
        ).unwrap() as int;
        assert(payout == x / ts);
    } else {
        assert(0 * ts == 0);
    }
}

/// Sum of the first `k` entries of `s`.
pub open spec fn seq_total(s: Seq<i128>, k: nat) -> int
    decreases k,
{
    if k == 0 {
        0
    } else {
        seq_total(s, (k - 1) as nat) + s[k - 1]
    }
}

proof fn lemma_distribution_totals(
    v: RevoraView,
    signers: Seq<Address>,
    caller: Address,
    issuer: Address,
    token: Address,
    total_revenue: i128,
    total_supply: i128,
    holders: Seq<Address>,
    balances: Seq<i128>,
    payouts: Seq<i128>,
    k: nat,
)
    requires
        total_revenue >= 0,
        total_supply > 0,
        k <= holders.len(),
        holders.len() == balances.len(),
        balances.len() == payouts.len(),
        forall|i: int| 0 <= i < balances.len() ==> #[trigger] balances[i] >= 0,
        forall|i: int|
            0 <= i < holders.len() ==> distribution_outcome(
                v,
                signers,
                caller,
                issuer,
                token,
                total_revenue,
                total_supply,
                #[trigger] balances[i],
                holders[i],
            ) == Ok::<i128, Trap>(payouts[i]),
    ensures
        k > 0 ==> total_supply * seq_total(payouts, k) <= bps_part(
            total_revenue as int,
            offering_of(v, issuer, token).unwrap().revenue_share_bps as int,
        ) * seq_total(balances, k),
        seq_total(balances, k) >= 0,
    decreases k,
{
    if k > 0 {
        let i = k - 1;
        lemma_distribution_totals(
            v,
            signers,
            caller,
            issuer,
            token,
            total_revenue,
            total_supply,
            holders,
            balances,
            payouts,
            (k - 1) as nat,
        );
        assert(balances[i] >= 0);
        law_distribution_never_over_distributes(
            v,
            signers,
            caller,
            issuer,
            token,
            total_revenue,
            total_supply,
            balances[i],
            holders[i],
        );
        let d = bps_part(
            total_revenue as int,
            offering_of(v, issuer, token).unwrap().revenue_share_bps as int,
        );
        let ts = total_supply as int;
        let pp = seq_total(payouts, (k - 1) as nat);
        let bb = seq_total(balances, (k - 1) as nat);
        let p = payouts[i] as int;
        let b = balances[i] as int;
        assert(p * ts <= b * d);
        if k - 1 > 0 {
            assert(ts * pp <= d * bb);
        } else {
            assert(pp == 0 && bb == 0);
            assert(ts * pp == 0 && d * bb == 0) by (nonlinear_arith)
                requires
                    pp == 0,
                    bb == 0,
            ;
        }
        assert(ts * (pp + p) <= d * (bb + b)) by (nonlinear_arith)
            requires
                ts * pp <= d * bb,
                p * ts <= b * d,
        ;
    }
}

/// Distributions never pay out more than the distributable revenue in
/// total: for holders whose balances add up to at most the total supply,
/// the payouts `calculate_distribution` computes for them (with the same
/// revenue, supply and offering) add up to at most
/// `total_revenue * revenue_share_bps / 10000`.
pub proof fn law_distribution_total_bounded(
    v: RevoraView,
    signers: Seq<Address>,
    caller: Address,
    issuer: Address,
    token: Address,
    total_revenue: i128,
    total_supply: i128,
    holders: Seq<Address>,
    balances: Seq<i128>,
    payouts: Seq<i128>,
)
    requires
        total_revenue >= 0,
        total_supply > 0,
        holders.len() > 0,
        holders.len() == balances.len(),
        balances.len() == payouts.len(),
        forall|i: int| 0 <= i < balances.len() ==> #[trigger] balances[i] >= 0,
        seq_total(balances, balances.len()) <= total_supply,
        forall|i: int|
            0 <= i < holders.len() ==> distribution_outcome(
                v,
                signers,
                caller,
                issuer,
                token,
                total_revenue,
                total_supply,
                #[trigger] balances[i],
                holders[i],
            ) == Ok::<i128, Trap>(payouts[i]),
    ensures
        seq_total(payouts, payouts.len()) <= bps_part(
            total_revenue as int,
            offering_of(v, issuer, token).unwrap().revenue_share_bps as int,
        ),
{
    let n = holders.len();
    lemma_distribution_totals(
        v,
        signers,
        caller,
        issuer,
        token,
        total_revenue,
        total_supply,
        holders,
        balances,
        payouts,
        n,
    );
    assert(balances[0] >= 0);
    law_distribution_never_over_distributes(
        v,
        signers,
        caller,
        issuer,
        token,
        total_revenue,
        total_supply,
        balances[0],
        holders[0],
    );
    let d = bps_part(
        total_revenue as int,
        offering_of(v, issuer, token).unwrap().revenue_share_bps as int,
    );
    let ts = total_supply as int;
    let p = seq_total(payouts, n);
    let b = seq_total(balances, n);
    assert(d >= 0) by {
        let bps = offering_of(v, issuer, token).unwrap().revenue_share_bps as int;
        let r = total_revenue as int;
        assert(r * bps >= 0) by (nonlinear_arith)
            requires
                r >= 0,
                bps >= 0,
        ;
        lemma_trunc_div_bounds(r * bps, 10_000);
    }
    assert(p <= d) by (nonlinear_arith)
        requires
            ts * p <= d * b,
            0 <= b <= ts,
            d >= 0,
            ts > 0,
    ;
}

/// A period is deposited at most once: after a deposit for a period, a
/// second deposit for it fails with `PeriodAlreadyDeposited`.
pub proof fn law_period_deposited_once(
    v: RevoraView,
    issuer: Address,
    token: Address,
    payment_token: Address,
    amount: i128,
    period_id: u64,
    now: u64,
    other_payment_token: Address,
)
    requires
        deposit_outcome(v, issuer, token, payment_token, period_id) is Ok,
    ensures
        deposit_outcome(
            deposited(v, token, payment_token, amount, period_id, now),
            issuer,
            token,
            other_payment_token,
            period_id,
        ) == Err::<(), Failure>(Failure::Contract(RevoraError::PeriodAlreadyDeposited)),
{
    let w = deposited(v, token, payment_token, amount, period_id, now);
    assert(w.offerings == v.offerings);
    assert(offering_of(w, issuer, token) == offering_of(v, issuer, token));
}

/// The payment token is locked by the first deposit: a later deposit of
/// another period with a different payment token fails with
/// `PaymentTokenMismatch`.
pub proof fn law_payment_token_locked(
    v: RevoraView,
    issuer: Address,
    token: Address,
    payment_token: Address,
    amount: i128,
    period_id: u64,
    now: u64,
    other_payment_token: Address,
    other_period: u64,
)
    requires
        deposit_outcome(v, issuer, token, payment_token, period_id) is Ok,
        other_payment_token != payment_token,
        other_period != period_id,
        !v.period_revenue.contains_key((token, other_period)),
    ensures
        deposit_outcome(
            deposited(v, token, payment_token, amount, period_id, now),
            issuer,
            token,
            other_payment_token,
            other_period,
        ) == Err::<(), Failure>(Failure::Contract(RevoraError::PaymentTokenMismatch)),
{
    let w = deposited(v, token, payment_token, amount, period_id, now);
    assert(offering_of(w, issuer, token) == offering_of(v, issuer, token));
    assert(!w.period_revenue.contains_key((token, other_period)));
}

/// Snapshot references of an offering strictly increase: a snapshot deposit
/// succeeds only with a reference above the last recorded one.
pub proof fn law_snapshot_references_increase(
    v: RevoraView,
    signers: Seq<Address>,
    issuer: Address,
    token: Address,
    payment_token: Address,
    period_id: u64,
    snapshot_reference: u64,
)
    requires
        snapshot_deposit_outcome(v, signers, issuer, token, payment_token, period_id, snapshot_reference)
            is Ok,
    ensures
        snapshot_reference > match lookup(v.last_snapshot_refs, (issuer, token)) {
            Some(s) => s,
            None => 0,
        },
{
}

/// Accepting an issuer transfer hands the offering to the new issuer: the
/// token's issuer becomes the new issuer, the offering (with the new issuer)
/// ends the new issuer's list after its earlier offerings, and the old
/// issuer keeps its other offerings in their registration order.
pub proof fn law_transfer_moves_offering(v: RevoraView, signers: Seq<Address>, token: Address)
    requires
        accept_transfer_outcome(v, signers, token) is Ok,
    ensures
        ({
            let old_issuer = v.issuer_of(token).unwrap();
            let new_issuer = v.pending_transfers[token];
            let w = transferred(v, token);
            let offering = offering_of(v, old_issuer, token).unwrap();
            &&& w.issuer_of(token) == Some(new_issuer)
            &&& !w.pending_transfers.contains_key(token)
            &&& w.offerings_of(new_issuer).last() == Offering { issuer: new_issuer, ..offering }
            &&& new_issuer != old_issuer ==> w.offerings_of(old_issuer).len() + 1 == v.offerings_of(
                old_issuer,
            ).len() && w.offerings_of(new_issuer).len() == v.offerings_of(new_issuer).len() + 1
            &&& new_issuer != old_issuer ==> w.offerings_of(old_issuer) == v.offerings_of(
                old_issuer,
            ).remove(find_token(v.offerings_of(old_issuer), token))
            &&& new_issuer != old_issuer ==> w.offerings_of(new_issuer).drop_last()
                == v.offerings_of(new_issuer)
            &&& new_issuer == old_issuer ==> w.offerings_of(old_issuer).len() == v.offerings_of(
                old_issuer,
            ).len()
        }),
{
    let old_issuer = v.issuer_of(token).unwrap();
    lemma_find_token_from(v.offerings_of(old_issuer), token, 0);
}

/// Registration never alters an offering already registered: every
/// issuer's earlier offerings stay, in order, at the front of its list.
pub proof fn law_registration_keeps_offerings(v: RevoraView, o: Offering, issuer: Address)
    ensures
        v.offerings_of(issuer).len() <= registered(v, o).offerings_of(issuer).len(),
        registered(v, o).offerings_of(issuer).subrange(0, v.offerings_of(issuer).len() as int)
            == v.offerings_of(issuer),
{
    let w = registered(v, o);
    assert(w.offerings_of(issuer).subrange(0, v.offerings_of(issuer).len() as int) =~= v.offerings_of(
        issuer,
    ));
}

/// `set_admin` takes effect once: with an admin in place it fails (with
/// `LimitReached` unless the contract is frozen or paused).
pub proof fn law_admin_set_once(v: RevoraView, signers: Seq<Address>, admin: Address)
    requires
        v.admin is Some,
        signers.contains(admin),
    ensures
        set_admin_outcome(v, signers, admin) is Err,
        !v.frozen && !v.paused ==> set_admin_outcome(v, signers, admin) == Err::<(), Failure>(
            Failure::Contract(RevoraError::LimitReached),
        ),
{
}

/// Pausing and unpausing are idempotent: a second pause (or unpause) by an
/// authorized role succeeds and leaves the same state.
pub proof fn law_pause_idempotent(
    v: RevoraView,
    signers: Seq<Address>,
    caller: Address,
    role: PauseRole,
    paused: bool,
)
    requires
        pause_outcome(v, signers, caller, role) is Ok,
    ensures
        pause_outcome((RevoraView { paused, ..v }), signers, caller, role) is Ok,
        (RevoraView { paused, ..(RevoraView { paused, ..v }) }) == (RevoraView { paused, ..v }),
{
}

/// Freezing is idempotent: once frozen, the admin may freeze again.
pub proof fn law_freeze_sticks(v: RevoraView, signers: Seq<Address>)
    requires
        freeze_outcome(v, signers) is Ok,
    ensures
        freeze_outcome((RevoraView { frozen: true, ..v }), signers) is Ok,
{
}

/// Multisig proposals persist across any sequence of entrypoint calls:
/// every state-changing entrypoint's contract states `proposals_kept`
/// from the state before to the state after, and this chains those steps,
/// so a proposal keeps its id, action and proposer, its approvals only
/// grow, and once executed it stays executed.
pub proof fn law_proposals_persist(a: RevoraView, b: RevoraView, c: RevoraView)
    requires
        a.proposals_kept(b),
        b.proposals_kept(c),
    ensures
        a.proposals_kept(c),
{
    assert forall|i: int, j: int|
        0 <= i < a.proposals.len() && 0 <= j < a.proposals[i].approvals.len() implies
            #[trigger] c.proposals[i].approvals[j] == a.proposals[i].approvals[j] by {
        assert(b.proposals[i].approvals[j] == a.proposals[i].approvals[j]);
    }
}

/// An executed proposal can never run again: in any later state (one that
/// keeps the proposals), executing it fails (with `LimitReached` unless the
/// contract is frozen or paused).
pub proof fn law_executed_proposal_stays_closed(v: RevoraView, w: RevoraView, id: u32)
    requires
        v.proposals_kept(w),
        id < v.proposals.len(),
        v.proposals[id as int].executed,
    ensures
        execute_outcome(w, id) is Err,
        !w.frozen && !w.paused ==> execute_outcome(w, id) == Err::<(), Failure>(
            Failure::Contract(RevoraError::LimitReached),
        ),
{
    assert(w.proposals[id as int].executed);
}

/// A multisig proposal is executed at most once: once executed, executing
/// it again fails (with `LimitReached`, unless the proposal froze the
/// contract, which then reports `ContractFrozen`).
pub proof fn law_proposal_executes_once(v: RevoraView, id: u32)
    requires
        execute_outcome(v, id) is Ok,
    ensures
        execute_outcome(executed(v, id), id) is Err,
        !executed(v, id).frozen ==> execute_outcome(executed(v, id), id) == Err::<(), Failure>(
            Failure::Contract(RevoraError::LimitReached),
        ),
{
}

/// A blacklist never holds an address twice: adding and removing keep it
/// free of duplicates, adding makes the address listed, removing unlists it,
/// and adding (or removing) an address a second time changes nothing.
pub proof fn law_blacklist_is_a_set(s: Seq<Address>, x: Address)
    requires
        s.no_duplicates(),
    ensures
        appended_once(s, x).no_duplicates(),
        appended_once(s, x).contains(x),
        seq_without(s, x).no_duplicates(),
        !seq_without(s, x).contains(x),
        appended_once(appended_once(s, x), x) == appended_once(s, x),
        seq_without(seq_without(s, x), x) == seq_without(s, x),
{
    lemma_contains_push(s, x, x);
    lemma_seq_without_contains(s, x, x);
    lemma_seq_without_no_duplicates(s, x);
    lemma_seq_without_idempotent(s, x);
}

proof fn lemma_seq_without_idempotent(s: Seq<Address>, x: Address)
    ensures
        seq_without(seq_without(s, x), x) == seq_without(s, x),
    decreases s.len(),
{
    if s.len() > 0 {
        let t = s.drop_last();
        lemma_seq_without_idempotent(t, x);
        if s.last() != x {
            let w = seq_without(t, x);
            assert(w.push(s.last()).drop_last() =~= w);
        }
    }
}


/// A successful claim with a positive total makes exactly one transfer, of
/// that total, to the holder, in the payment token recorded for the
/// offering's token (which exists, since a claim needs a deposited period).
pub proof fn law_claim_pays_in_payment_token(
    v: RevoraView,
    signers: Seq<Address>,
    holder: Address,
    token: Address,
    max_periods: u32,
    now: u64,
)
    requires
        v.wf(),
    ensures
        match claim_outcome(v, signers, holder, token, max_periods, now) {
            Ok(total) => total > 0 ==> {
                &&& v.payment_tokens.contains_key(token)
                &&& claim_calls(v, holder, token, max_periods, now, total).len() == 2
                &&& claim_calls(v, holder, token, max_periods, now, total)[0] == HostCallOf::<EventView>::PayOut {
                    asset: v.payment_tokens[token],
                    to: holder,
                    amount: total,
                }
            },
            Err(_) => true,
        },
{
    assert(v.entries_of(token).len() > 0 ==> v.payment_tokens.contains_key(token));
}

/// Claims pay in the asset that deposits moved in: after a deposit of
/// `payment_token` for `token`, any successful claim of a positive total
/// on that state transfers `payment_token`, not the offering token or any
/// other asset.
pub proof fn law_claim_pays_in_deposited_asset(
    v: RevoraView,
    issuer: Address,
    token: Address,
    payment_token: Address,
    amount: i128,
    period_id: u64,
    deposit_time: u64,
    signers: Seq<Address>,
    holder: Address,
    max_periods: u32,
    now: u64,
)
    requires
        deposit_outcome(v, issuer, token, payment_token, period_id) is Ok,
    ensures
        ({
            let w = deposited(v, token, payment_token, amount, period_id, deposit_time);
            match claim_outcome(w, signers, holder, token, max_periods, now) {
                Ok(total) => total > 0 ==> claim_calls(w, holder, token, max_periods, now, total)[0]
                    == HostCallOf::<EventView>::PayOut { asset: payment_token, to: holder, amount: total },
                Err(_) => true,
            }
        }),
{
}

/// What `holder` is owed for the `k` periods of `token` from index `start`:
/// each period's deposited revenue times the holder's share, over 10000,
/// rounded toward zero.
pub open spec fn owed(v: RevoraView, token: Address, holder: Address, start: int, k: nat) -> int
    decreases k,
{
    if k == 0 {
        0
    } else {
        owed(v, token, holder, start, (k - 1) as nat) + trunc_div(
            v.period_revenue[(token, v.entries_of(token)[start + k - 1])] * v.holder_share(
                token,
                holder,
            ),
            10_000,
        )
    }
}

proof fn lemma_owed_is_sum_payouts(v: RevoraView, token: Address, holder: Address, start: int, k: nat)
    ensures
        owed(v, token, holder, start, k) == sum_payouts(v, token, holder, start, k),
    decreases k,
{
    if k > 0 {
        lemma_owed_is_sum_payouts(v, token, holder, start, (k - 1) as nat);
    }
}

proof fn lemma_no_delay_all_ready(v: RevoraView, token: Address, now: u64, i: int, end: int)
    requires
        v.claim_delay(token) == 0,
        i <= end,
    ensures
        first_unready_from(v, token, now, i, end) == end,
    decreases end - i,
{
    if i < end {
        lemma_no_delay_all_ready(v, token, now, i + 1, end);
    }
}

/// Without a claim delay, `get_claimable` is what the holder is owed for
/// every unclaimed period, however many there are (the 50-period cap is a
/// limit of `claim` only); a holder without a share can claim nothing.
pub proof fn law_claimable_counts_every_unclaimed_period(
    v: RevoraView,
    token: Address,
    holder: Address,
    now: u64,
)
    requires
        v.wf(),
        v.claim_delay(token) == 0,
    ensures
        ({
            let start = v.claim_index(token, holder) as int;
            let n = (v.entries_of(token).len() - start) as nat;
            &&& v.holder_share(token, holder) == 0 ==> claimable_outcome(v, token, holder, now)
                == Ok::<i128, Trap>(0)
            &&& v.holder_share(token, holder) != 0 && payouts_fit(v, token, holder, start, n)
                ==> claimable_outcome(v, token, holder, now) == Ok::<i128, Trap>(
                owed(v, token, holder, start, n) as i128,
            )
        }),
{
    let start = v.claim_index(token, holder) as int;
    let count = v.entries_of(token).len() as int;
    if v.last_claimed.contains_key((token, holder)) {
        assert(v.last_claimed[(token, holder)] <= v.entries_of(token).len());
    }
    lemma_no_delay_all_ready(v, token, now, start, count);
    lemma_owed_is_sum_payouts(v, token, holder, start, (count - start) as nat);
}

/// The concentration guardrail blocks a report only when it is enforced: a
/// report fails with `ConcentrationLimitExceeded` only if the offering's
/// stored limit has `enforce` set, a non-zero `max_bps`, the last reported
/// concentration exceeds it, and testnet mode is off. An advisory limit
/// (`enforce == false`) never blocks a report.
pub proof fn law_only_enforced_limits_block_reports(
    v: RevoraView,
    signers: Seq<Address>,
    issuer: Address,
    token: Address,
    payout_asset: Address,
)
    ensures
        report_revenue_outcome(v, signers, issuer, token, payout_asset) == Err::<(), Failure>(
            Failure::Contract(RevoraError::ConcentrationLimitExceeded),
        ) ==> {
            let current: u32 = if v.current_concentration.contains_key((issuer, token)) {
                v.current_concentration[(issuer, token)]
            } else {
                0
            };
            &&& !v.testnet_mode
            &&& v.concentration_limits.contains_key((issuer, token))
            &&& v.concentration_limits[(issuer, token)].enforce
            &&& v.concentration_limits[(issuer, token)].max_bps > 0
            &&& current > v.concentration_limits[(issuer, token)].max_bps
        },
        v.concentration_limits.contains_key((issuer, token)) && !v.concentration_limits[(
            issuer,
            token,
        )].enforce ==> report_revenue_outcome(v, signers, issuer, token, payout_asset) != Err::<
            (),
            Failure,
        >(Failure::Contract(RevoraError::ConcentrationLimitExceeded)),
{
}

/// Multisig can be set up with any threshold from 1 up to the number of
/// owners (an n-of-n multisig included), and with no other: on an open
/// contract without multisig, with the caller signed and at least one
/// owner, `init_multisig` succeeds exactly for `1 <= threshold <= owners`.
pub proof fn law_multisig_accepts_every_valid_threshold(
    v: RevoraView,
    signers: Seq<Address>,
    caller: Address,
    owners: Seq<Address>,
    threshold: u32,
)
    requires
        !v.frozen,
        !v.paused,
        v.multisig_threshold is None,
        signers.contains(caller),
        owners.len() > 0,
    ensures
        1 <= threshold <= owners.len() ==> init_multisig_outcome(v, signers, caller, owners, threshold)
            is Ok,
        (threshold == 0 || threshold > owners.len()) ==> init_multisig_outcome(
            v,
            signers,
            caller,
            owners,
            threshold,
        ) == Err::<(), Failure>(Failure::Contract(RevoraError::LimitReached)),
{
}

/// The audit summary of the offering at index `i` of `issuer`'s offerings.
pub open spec fn audit_at(v: RevoraView, issuer: Address, i: int) -> AuditSummary {
    let key = (issuer, v.offerings_of(issuer)[i].token);
    if v.audit_summaries.contains_key(key) {
        v.audit_summaries[key]
    } else {
        AuditSummary { total_revenue: 0, report_count: 0 }
    }
}

/// The deposited revenue of the offering at index `i` of `issuer`'s offerings.
pub open spec fn deposited_at(v: RevoraView, issuer: Address, i: int) -> int {
    let t = v.offerings_of(issuer)[i].token;
    if v.deposited_revenue.contains_key(t) {
        v.deposited_revenue[t] as int
    } else {
        0
    }
}

/// Reported revenue, report count and deposited revenue summed over the
/// first `k` offerings of `issuer`.
pub open spec fn issuer_sums(v: RevoraView, issuer: Address, k: nat) -> (int, int, int)
    decreases k,
{
    if k == 0 {
        (0, 0, 0)
    } else {
        let p = issuer_sums(v, issuer, (k - 1) as nat);
        let a = audit_at(v, issuer, k - 1);
        (
            p.0 + a.total_revenue,
            p.1 + a.report_count,
            p.2 + deposited_at(v, issuer, k - 1),
        )
    }
}

/// Whether every partial sum of `issuer_sums` up to `k` fits its field.
pub open spec fn issuer_sums_fit(v: RevoraView, issuer: Address, k: nat) -> bool
    decreases k,
{
    k == 0 || {
        let p = issuer_sums(v, issuer, k);
        &&& issuer_sums_fit(v, issuer, (k - 1) as nat)
        &&& in_i128(p.0)
        &&& p.1 <= u64::MAX
        &&& in_i128(p.2)
    }
}

proof fn lemma_issuer_fold_sums(v: RevoraView, issuer: Address, k: nat)
    requires
        k <= v.offerings_of(issuer).len(),
        issuer_sums_fit(v, issuer, k),
    ensures
        issuer_fold(v, issuer, k).total_reported_revenue == issuer_sums(v, issuer, k).0,
        issuer_fold(v, issuer, k).total_report_count == issuer_sums(v, issuer, k).1,
        issuer_fold(v, issuer, k).total_deposited_revenue == issuer_sums(v, issuer, k).2,
    decreases k,
{
    if k > 0 {
        lemma_issuer_fold_sums(v, issuer, (k - 1) as nat);
    }
}

/// An issuer's aggregation sums over all of its offerings: its reported
/// revenue, report count and deposited revenue are the sums of the audit
/// summaries and deposited totals of every one of its offerings (when no
/// partial sum overflows; the sums saturate otherwise), and its offering
/// count is the number of its offerings.
pub proof fn law_issuer_aggregation_sums_all_offerings(v: RevoraView, issuer: Address)
    requires
        v.wf(),
        issuer_sums_fit(v, issuer, v.offerings_of(issuer).len()),
    ensures
        ({
            let m = issuer_metrics(v, issuer);
            let n = v.offerings_of(issuer).len();
            &&& m.total_reported_revenue == issuer_sums(v, issuer, n).0
            &&& m.total_report_count == issuer_sums(v, issuer, n).1
            &&& m.total_deposited_revenue == issuer_sums(v, issuer, n).2
            &&& m.offering_count == n
        }),
{
    let n = v.offerings_of(issuer).len();
    if v.offerings.contains_key(issuer) {
        assert(v.offerings[issuer].len() <= u32::MAX);
    }
    lemma_issuer_fold_sums(v, issuer, n);
}

/// A successful claim pays exactly what the holder is owed for the periods
/// it claims: the first unclaimed period up to (not including) the first
/// one whose delay has not elapsed, at most `max_periods` (50 for 0), and
/// the holder's claim index moves to just past them.
pub proof fn law_claim_pays_what_is_owed(
    v: RevoraView,
    signers: Seq<Address>,
    holder: Address,
    token: Address,
    max_periods: u32,
    now: u64,
)
    requires
        v.wf(),
    ensures
        match claim_outcome(v, signers, holder, token, max_periods, now) {
            Ok(total) => {
                let start = v.claim_index(token, holder) as int;
                let stop = claim_stop(v, token, holder, max_periods, now);
                &&& start < stop <= v.entries_of(token).len()
                &&& stop - start <= effective_max(max_periods)
                &&& forall|i: int| start <= i < stop ==> #[trigger] ready_at(v, token, now, i)
                &&& (stop < v.entries_of(token).len() && stop - start < effective_max(max_periods)
                    ==> !ready_at(v, token, now, stop))
                &&& total == owed(v, token, holder, start, (stop - start) as nat)
            },
            Err(_) => true,
        },
{
    if claim_outcome(v, signers, holder, token, max_periods, now) is Ok {
        let start = v.claim_index(token, holder) as int;
        let end = claim_end(v, token, holder, max_periods);
        lemma_first_unready_bounds(v, token, now, start, end);
        lemma_first_unready_stops(v, token, now, start, end);
        lemma_owed_is_sum_payouts(
            v,
            token,
            holder,
            start,
            (claim_stop(v, token, holder, max_periods, now) - start) as nat,
        );
    }
}

proof fn lemma_first_unready_stops(v: RevoraView, token: Address, now: u64, i: int, end: int)
    requires
        i <= end,
    ensures
        first_unready_from(v, token, now, i, end) < end ==> !ready_at(
            v,
            token,
            now,
            first_unready_from(v, token, now, i, end),
        ),
    decreases end - i,
{
    if i < end && ready_at(v, token, now, i) {
        lemma_first_unready_stops(v, token, now, i + 1, end);
    }
}

/// A deposit records the period: its revenue is the deposited amount, it
/// joins the end of the token's deposited periods (the others unchanged),
/// its deposit time is the ledger time, the payment token is the one
/// deposited, and the token's deposited total grows by the amount (unless
/// it saturates).
pub proof fn law_deposit_records_period(
    v: RevoraView,
    issuer: Address,
    token: Address,
    payment_token: Address,
    amount: i128,
    period_id: u64,
    now: u64,
    other: Address,
)
    requires
        deposit_outcome(v, issuer, token, payment_token, period_id) is Ok,
    ensures
        ({
            let w = deposited(v, token, payment_token, amount, period_id, now);
            let before: int = if v.deposited_revenue.contains_key(token) {
                v.deposited_revenue[token] as int
            } else {
                0
            };
            &&& w.period_revenue[(token, period_id)] == amount
            &&& w.entries_of(token) == v.entries_of(token).push(period_id)
            &&& w.deposit_time(token, period_id) == now
            &&& w.payment_tokens[token] == payment_token
            &&& in_i128(before + amount) ==> w.deposited_revenue[token] == before + amount
            &&& other != token ==> w.entries_of(other) == v.entries_of(other)
            &&& !v.period_revenue.contains_key((token, period_id))
        }),
{
}

/// What a report does to the recorded revenue: the first report of a
/// period adds its amount to the period's revenue (unless that overflows,
/// when the amount replaces it) and records it; a later report leaves the
/// period's revenue alone and replaces the recorded report only with
/// `override_existing`. Every successful report counts once in the
/// offering's audit summary, adding its amount (both saturating).
pub proof fn law_report_revenue_effects(
    v: RevoraView,
    signers: Seq<Address>,
    issuer: Address,
    token: Address,
    payout_asset: Address,
    amount: i128,
    period_id: u64,
    override_existing: bool,
    now: u64,
)
    requires
        report_revenue_outcome(v, signers, issuer, token, payout_asset) is Ok,
    ensures
        ({
            let w = reported(v, issuer, token, amount, period_id, override_existing, now);
            let key = (issuer, token, period_id);
            let prev = revenue_at(v, token, period_id as int);
            let summary = if v.audit_summaries.contains_key((issuer, token)) {
                v.audit_summaries[(issuer, token)]
            } else {
                AuditSummary { total_revenue: 0, report_count: 0 }
            };
            &&& !v.event_only && !v.revenue_reports.contains_key(key) ==> {
                &&& revenue_at(w, token, period_id as int) == if in_i128(prev + amount) {
                    prev + amount
                } else {
                    amount as int
                }
                &&& w.revenue_reports[key] == (amount, now)
            }
            &&& !v.event_only && v.revenue_reports.contains_key(key) ==> {
                &&& revenue_at(w, token, period_id as int) == prev
                &&& w.revenue_reports[key] == if override_existing {
                    (amount, now)
                } else {
                    v.revenue_reports[key]
                }
            }
            &&& v.event_only ==> w.revenue_reports == v.revenue_reports && w.revenue_index
                == v.revenue_index
            &&& summary.report_count < u64::MAX ==> w.audit_summaries[(issuer, token)].report_count
                == summary.report_count + 1
            &&& in_i128(summary.total_revenue + amount) ==> w.audit_summaries[(
                issuer,
                token,
            )].total_revenue == summary.total_revenue + amount
        }),
{
}

/// Reported revenue, report count and deposited revenue summed over the
/// issuer metrics of the first `k` registered issuers.
pub open spec fn platform_sums(v: RevoraView, k: nat) -> (int, int, int)
    decreases k,
{
    if k == 0 {
        (0, 0, 0)
    } else {
        let p = platform_sums(v, (k - 1) as nat);
        let m = issuer_metrics(v, v.issuers[k - 1]);
        (
            p.0 + m.total_reported_revenue,
            p.1 + m.total_report_count,
            p.2 + m.total_deposited_revenue,
        )
    }
}

/// Whether every partial sum of `platform_sums` up to `k` fits its field.
pub open spec fn platform_sums_fit(v: RevoraView, k: nat) -> bool
    decreases k,
{
    k == 0 || {
        let p = platform_sums(v, k);
        &&& platform_sums_fit(v, (k - 1) as nat)
        &&& in_i128(p.0)
        &&& p.1 <= u64::MAX
        &&& in_i128(p.2)
    }
}

proof fn lemma_platform_fold_sums(v: RevoraView, k: nat)
    requires
        k <= v.issuers.len(),
        platform_sums_fit(v, k),
    ensures
        platform_fold(v, k).total_reported_revenue == platform_sums(v, k).0,
        platform_fold(v, k).total_report_count == platform_sums(v, k).1,
        platform_fold(v, k).total_deposited_revenue == platform_sums(v, k).2,
    decreases k,
{
    if k > 0 {
        lemma_platform_fold_sums(v, (k - 1) as nat);
    }
}

/// The platform aggregation over the first `k` issuers sums their issuer
/// aggregations (when no partial sum overflows; the sums saturate
/// otherwise).
pub proof fn law_platform_aggregation_sums_issuers(v: RevoraView, k: nat)
    requires
        k <= v.issuers.len(),
        platform_sums_fit(v, k),
    ensures
        platform_fold(v, k).total_reported_revenue == platform_sums(v, k).0,
        platform_fold(v, k).total_report_count == platform_sums(v, k).1,
        platform_fold(v, k).total_deposited_revenue == platform_sums(v, k).2,
{
    lemma_platform_fold_sums(v, k);
}

} // verus!
