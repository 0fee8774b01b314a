//! The contract's persistent state, its abstract view, and the accessors
//! through which the entrypoints read and write it.

use vstd::prelude::*;

use crate::events::{event_view, host_call_view, Event, HostCall, HostCallOf, HostCallView};
use crate::table::Table;
use crate::types::{
    address_lt, copy_addresses, Address, AuditSummary, ConcentrationLimitConfig, Offering, Proposal, ProposalAction,
    RoundingMode,
};

verus! {

/// Abstract view of a multisig proposal.
pub struct ProposalView {
    pub id: u32,
    pub action: ProposalAction,
    pub proposer: Address,
    pub approvals: Seq<Address>,
    pub executed: bool,
}

impl Proposal {
    pub open spec fn view(&self) -> ProposalView {
        ProposalView {
            id: self.id,
            action: self.action,
            proposer: self.proposer,
            approvals: self.approvals@,
            executed: self.executed,
        }
    }
}

/// Strictly increasing in the ledger's order of addresses.
pub open spec fn sorted_addresses(s: Seq<Address>) -> bool {
    forall|i: int, j: int| 0 <= i < j < s.len() ==> address_lt(#[trigger] s[i], #[trigger] s[j])
}

/// The contract's persistent state, as maps and sequences.
#[verifier::ext_equal]
pub struct RevoraView {
    /// Global admin address.
    pub admin: Option<Address>,
    /// Safety role address for emergency pause.
    pub safety: Option<Address>,
    /// Global pause flag.
    pub paused: bool,
    /// Contract frozen flag.
    pub frozen: bool,
    /// Event-only mode: no persistent business state is kept for offerings.
    pub event_only: bool,
    /// Testnet mode: some validations are relaxed.
    pub testnet_mode: bool,
    /// Platform fee in basis points.
    pub platform_fee_bps: u32,
    /// Multisig threshold, once multisig is initialized.
    pub multisig_threshold: Option<u32>,
    /// Multisig owners, once multisig is initialized.
    pub multisig_owners: Option<Seq<Address>>,
    /// Multisig proposals; the proposal with id `i` stands at index `i`.
    pub proposals: Seq<ProposalView>,
    /// Global registry of issuers, in order of first registration.
    pub issuers: Seq<Address>,
    /// Offerings of each issuer, by registration index.
    pub offerings: Map<Address, Seq<Offering>>,
    /// Current issuer of each offering token.
    pub offering_issuer: Map<Address, Address>,
    /// Blacklisted addresses of each token, in insertion order.
    pub blacklists: Map<Address, Seq<Address>>,
    /// Whitelisted addresses of each token, in the ledger's address order.
    pub whitelists: Map<Address, Seq<Address>>,
    /// Per (issuer, token): concentration limit.
    pub concentration_limits: Map<(Address, Address), ConcentrationLimitConfig>,
    /// Per (issuer, token): last reported concentration in bps.
    pub current_concentration: Map<(Address, Address), u32>,
    /// Per (issuer, token): audit summary.
    pub audit_summaries: Map<(Address, Address), AuditSummary>,
    /// Per (issuer, token): rounding mode for share math.
    pub rounding_modes: Map<(Address, Address), RoundingMode>,
    /// Per (issuer, token, period): reported amount and report timestamp.
    pub revenue_reports: Map<(Address, Address, u64), (i128, u64)>,
    /// Per (token, period): cumulative reported revenue.
    pub revenue_index: Map<(Address, u64), i128>,
    /// Per (token, period): deposited revenue.
    pub period_revenue: Map<(Address, u64), i128>,
    /// Per (token, period): ledger timestamp of the deposit.
    pub period_deposit_time: Map<(Address, u64), u64>,
    /// Per token: deposited period ids, in deposit order.
    pub period_entries: Map<Address, Seq<u64>>,
    /// Per token: the payment token locked on first deposit.
    pub payment_tokens: Map<Address, Address>,
    /// Per (token, holder): share in basis points.
    pub holder_shares: Map<(Address, Address), u32>,
    /// Per (token, holder): index of the next period to claim.
    pub last_claimed: Map<(Address, Address), u32>,
    /// Per token: claim delay in seconds.
    pub claim_delays: Map<Address, u64>,
    /// Per (issuer, token): whether snapshot distribution is enabled.
    pub snapshot_configs: Map<(Address, Address), bool>,
    /// Per (issuer, token): latest recorded snapshot reference.
    pub last_snapshot_refs: Map<(Address, Address), u64>,
    /// Per token: proposed new issuer.
    pub pending_transfers: Map<Address, Address>,
    /// Per (issuer, token): metadata reference.
    pub metadata: Map<(Address, Address), Seq<u8>>,
    /// Per (issuer, token): minimum revenue threshold.
    pub min_revenue_thresholds: Map<(Address, Address), i128>,
    /// Per token: total deposited revenue.
    pub deposited_revenue: Map<Address, i128>,
}

impl RevoraView {
    pub open spec fn offerings_of(self, issuer: Address) -> Seq<Offering> {
        if self.offerings.contains_key(issuer) {
            self.offerings[issuer]
        } else {
            Seq::empty()
        }
    }

    pub open spec fn issuer_of(self, token: Address) -> Option<Address> {
        if self.offering_issuer.contains_key(token) {
            Some(self.offering_issuer[token])
        } else {
            None
        }
    }

    pub open spec fn blacklist_of(self, token: Address) -> Seq<Address> {
        if self.blacklists.contains_key(token) {
            self.blacklists[token]
        } else {
            Seq::empty()
        }
    }

    pub open spec fn whitelist_of(self, token: Address) -> Seq<Address> {
        if self.whitelists.contains_key(token) {
            self.whitelists[token]
        } else {
            Seq::empty()
        }
    }

    pub open spec fn entries_of(self, token: Address) -> Seq<u64> {
        if self.period_entries.contains_key(token) {
            self.period_entries[token]
        } else {
            Seq::empty()
        }
    }

    pub open spec fn holder_share(self, token: Address, holder: Address) -> u32 {
        if self.holder_shares.contains_key((token, holder)) {
            self.holder_shares[(token, holder)]
        } else {
            0
        }
    }

    pub open spec fn claim_index(self, token: Address, holder: Address) -> u32 {
        if self.last_claimed.contains_key((token, holder)) {
            self.last_claimed[(token, holder)]
        } else {
            0
        }
    }

    pub open spec fn claim_delay(self, token: Address) -> u64 {
        if self.claim_delays.contains_key(token) {
            self.claim_delays[token]
        } else {
            0
        }
    }

    pub open spec fn deposit_time(self, token: Address, period: u64) -> u64 {
        if self.period_deposit_time.contains_key((token, period)) {
            self.period_deposit_time[(token, period)]
        } else {
            0
        }
    }

    pub open spec fn rounding_mode(self, issuer: Address, token: Address) -> RoundingMode {
        if self.rounding_modes.contains_key((issuer, token)) {
            self.rounding_modes[(issuer, token)]
        } else {
            RoundingMode::Truncation
        }
    }

    /// Every multisig proposal of `self` is still in `later`, under the same
    /// id, with the same action and proposer, its approvals only extended,
    /// and still executed if it was.
    pub open spec fn proposals_kept(self, later: RevoraView) -> bool {
        &&& self.proposals.len() <= later.proposals.len()
        &&& forall|i: int|
            #![trigger later.proposals[i]]
            0 <= i < self.proposals.len() ==> {
                let p = self.proposals[i];
                let q = later.proposals[i];
                &&& q.id == p.id
                &&& q.action == p.action
                &&& q.proposer == p.proposer
                &&& p.approvals.len() <= q.approvals.len()
                &&& forall|j: int|
                    0 <= j < p.approvals.len() ==> #[trigger] q.approvals[j] == p.approvals[j]
                &&& (p.executed ==> q.executed)
            }
    }

    pub open spec fn is_multisig_owner(self, a: Address) -> bool {
        self.multisig_owners matches Some(o) && o.contains(a)
    }

    /// The invariant that every reachable state keeps.
    pub open spec fn wf(self) -> bool {
        &&& (self.multisig_threshold is Some <==> self.multisig_owners is Some)
        &&& (self.multisig_threshold matches Some(t) ==> 1 <= t && t
            <= self.multisig_owners.unwrap().len())
        &&& (self.multisig_owners matches Some(o) ==> o.len() <= u32::MAX)
        &&& self.proposals.len() <= u32::MAX
        &&& (self.multisig_threshold is None ==> self.proposals.len() == 0)
        &&& (forall|i: int| 0 <= i < self.proposals.len() ==> #[trigger] self.proposals[i].id == i)
        &&& self.issuers.len() <= u32::MAX
        &&& self.issuers.no_duplicates()
        &&& (forall|t: Address| #[trigger]
            self.blacklists.contains_key(t) ==> self.blacklists[t].no_duplicates())
        &&& (forall|i: Address| #[trigger]
            self.offerings.contains_key(i) ==> self.offerings[i].len() <= u32::MAX)
        &&& (forall|t: Address| #[trigger]
            self.period_entries.contains_key(t) ==> self.period_entries[t].len() <= u32::MAX)
        &&& (forall|t: Address, k: int|
            self.period_entries.contains_key(t) && 0 <= k < self.period_entries[t].len()
                ==> self.period_revenue.contains_key((t, #[trigger] self.period_entries[t][k])))
        &&& (forall|t: Address| #[trigger]
            self.period_entries.contains_key(t) && self.period_entries[t].len() > 0
                ==> self.payment_tokens.contains_key(t))
        &&& (forall|t: Address, h: Address| #[trigger]
            self.last_claimed.contains_key((t, h)) ==> self.last_claimed[(t, h)]
                <= self.entries_of(t).len())
        &&& (forall|t: Address| #[trigger]
            self.whitelists.contains_key(t) ==> sorted_addresses(self.whitelists[t]))
    }
}

/// The revenue-share contract: its persistent state, and the host calls
/// that the last invocations asked for and that have not been handed out yet.
pub struct RevoraRevenueShare {
    pub(crate) admin: Option<Address>,
    pub(crate) safety: Option<Address>,
    pub(crate) paused: bool,
    pub(crate) frozen: bool,
    pub(crate) event_only: bool,
    pub(crate) testnet_mode: bool,
    pub(crate) platform_fee_bps: u32,
    pub(crate) multisig_threshold: Option<u32>,
    pub(crate) multisig_owners: Option<Vec<Address>>,
    pub(crate) proposals: Vec<Proposal>,
    pub(crate) issuers: Vec<Address>,
    pub(crate) offerings: Table<Address, Vec<Offering>>,
    pub(crate) offering_issuer: Table<Address, Address>,
    pub(crate) blacklists: Table<Address, Vec<Address>>,
    pub(crate) whitelists: Table<Address, Vec<Address>>,
    pub(crate) concentration_limits: Table<(Address, Address), ConcentrationLimitConfig>,
    pub(crate) current_concentration: Table<(Address, Address), u32>,
    pub(crate) audit_summaries: Table<(Address, Address), AuditSummary>,
    pub(crate) rounding_modes: Table<(Address, Address), RoundingMode>,
    pub(crate) revenue_reports: Table<(Address, Address, u64), (i128, u64)>,
    pub(crate) revenue_index: Table<(Address, u64), i128>,
    pub(crate) period_revenue: Table<(Address, u64), i128>,
    pub(crate) period_deposit_time: Table<(Address, u64), u64>,
    pub(crate) period_entries: Table<Address, Vec<u64>>,
    pub(crate) payment_tokens: Table<Address, Address>,
    pub(crate) holder_shares: Table<(Address, Address), u32>,
    pub(crate) last_claimed: Table<(Address, Address), u32>,
    pub(crate) claim_delays: Table<Address, u64>,
    pub(crate) snapshot_configs: Table<(Address, Address), bool>,
    pub(crate) last_snapshot_refs: Table<(Address, Address), u64>,
    pub(crate) pending_transfers: Table<Address, Address>,
    pub(crate) metadata: Table<(Address, Address), Vec<u8>>,
    pub(crate) min_revenue_thresholds: Table<(Address, Address), i128>,
    pub(crate) deposited_revenue: Table<Address, i128>,
    pub(crate) outbox: Vec<HostCall>,
}

/// The value stored under `k`, if any.
pub open spec fn lookup<K, V>(m: Map<K, V>, k: K) -> Option<V> {
    if m.contains_key(k) {
        Some(m[k])
    } else {
        None
    }
}

impl RevoraRevenueShare {
    pub closed spec fn view(&self) -> RevoraView {
        RevoraView {
            admin: self.admin,
            safety: self.safety,
            paused: self.paused,
            frozen: self.frozen,
            event_only: self.event_only,
            testnet_mode: self.testnet_mode,
            platform_fee_bps: self.platform_fee_bps,
            multisig_threshold: self.multisig_threshold,
            multisig_owners: match self.multisig_owners {
                Some(o) => Some(o@),
                None => None,
            },
            proposals: self.proposals@.map_values(|p: Proposal| p.view()),
            issuers: self.issuers@,
            offerings: self.offerings@.map_values(|v: Vec<Offering>| v@),
            offering_issuer: self.offering_issuer@,
            blacklists: self.blacklists@.map_values(|v: Vec<Address>| v@),
            whitelists: self.whitelists@.map_values(|v: Vec<Address>| v@),
            concentration_limits: self.concentration_limits@,
            current_concentration: self.current_concentration@,
            audit_summaries: self.audit_summaries@,
            rounding_modes: self.rounding_modes@,
            revenue_reports: self.revenue_reports@,
            revenue_index: self.revenue_index@,
            period_revenue: self.period_revenue@,
            period_deposit_time: self.period_deposit_time@,
            period_entries: self.period_entries@.map_values(|v: Vec<u64>| v@),
            payment_tokens: self.payment_tokens@,
            holder_shares: self.holder_shares@,
            last_claimed: self.last_claimed@,
            claim_delays: self.claim_delays@,
            snapshot_configs: self.snapshot_configs@,
            last_snapshot_refs: self.last_snapshot_refs@,
            pending_transfers: self.pending_transfers@,
            metadata: self.metadata@.map_values(|v: Vec<u8>| v@),
            min_revenue_thresholds: self.min_revenue_thresholds@,
            deposited_revenue: self.deposited_revenue@,
        }
    }

    /// The host calls asked for and not yet handed out, oldest first.
    pub closed spec fn host_calls(&self) -> Seq<HostCallView> {
        self.outbox@.map_values(|c: HostCall| host_call_view(c))
    }

    pub open spec fn wf(&self) -> bool {
        self@.wf()
    }

    /// A contract with empty storage.
    pub fn new() -> (s: Self)
        ensures
            s.wf(),
            s.host_calls() == Seq::<HostCallView>::empty(),
            s@.admin is None,
            s@.safety is None,
            !s@.paused,
            !s@.frozen,
            !s@.event_only,
            !s@.testnet_mode,
            s@.platform_fee_bps == 0,
            s@.multisig_threshold is None,
            s@.multisig_owners is None,
            s@.proposals.len() == 0,
            s@.issuers.len() == 0,
            s@.offerings.is_empty(),
            s@.offering_issuer.is_empty(),
            s@.blacklists.is_empty(),
            s@.whitelists.is_empty(),
            s@.concentration_limits.is_empty(),
            s@.current_concentration.is_empty(),
            s@.audit_summaries.is_empty(),
            s@.rounding_modes.is_empty(),
            s@.revenue_reports.is_empty(),
            s@.revenue_index.is_empty(),
            s@.period_revenue.is_empty(),
            s@.period_deposit_time.is_empty(),
            s@.period_entries.is_empty(),
            s@.payment_tokens.is_empty(),
            s@.holder_shares.is_empty(),
            s@.last_claimed.is_empty(),
            s@.claim_delays.is_empty(),
            s@.snapshot_configs.is_empty(),
            s@.last_snapshot_refs.is_empty(),
            s@.pending_transfers.is_empty(),
            s@.metadata.is_empty(),
            s@.min_revenue_thresholds.is_empty(),
            s@.deposited_revenue.is_empty(),
    {
        let s = RevoraRevenueShare {
            admin: None,
            safety: None,
            paused: false,
            frozen: false,
            event_only: false,
            testnet_mode: false,
            platform_fee_bps: 0,
            multisig_threshold: None,
            multisig_owners: None,
            proposals: Vec::new(),
            issuers: Vec::new(),
            offerings: Table::new(),
            offering_issuer: Table::new(),
            blacklists: Table::new(),
            whitelists: Table::new(),
            concentration_limits: Table::new(),
            current_concentration: Table::new(),
            audit_summaries: Table::new(),
            rounding_modes: Table::new(),
            revenue_reports: Table::new(),
            revenue_index: Table::new(),
            period_revenue: Table::new(),
            period_deposit_time: Table::new(),
            period_entries: Table::new(),
            payment_tokens: Table::new(),
            holder_shares: Table::new(),
            last_claimed: Table::new(),
            claim_delays: Table::new(),
            snapshot_configs: Table::new(),
            last_snapshot_refs: Table::new(),
            pending_transfers: Table::new(),
            metadata: Table::new(),
            min_revenue_thresholds: Table::new(),
            deposited_revenue: Table::new(),
            outbox: Vec::new(),
        };
        assert(s.host_calls() =~= Seq::<HostCallView>::empty());
        assert(s@.offerings =~= Map::empty());
        assert(s@.blacklists =~= Map::empty());
        assert(s@.whitelists =~= Map::empty());
        assert(s@.period_entries =~= Map::empty());
        assert(s@.metadata =~= Map::empty());
        assert(s@.entries_of(Address { contract: false, hi: 0, lo: 0 }).len() == 0);
        s
    }

    /// Hands out the host calls asked for so far, oldest first, and forgets them.
    pub fn take_host_calls(&mut self) -> (calls: Vec<HostCall>)
        ensures
            final(self)@ == old(self)@,
            calls@.map_values(|c: HostCall| host_call_view(c)) == old(self).host_calls(),
            final(self).host_calls() == Seq::<HostCallView>::empty(),
    {
        let mut calls = Vec::new();
        std::mem::swap(&mut calls, &mut self.outbox);
        assert(self.host_calls() =~= Seq::<HostCallView>::empty());
        calls
    }


    // ---- scalars ----
    pub(crate) fn write_admin(&mut self, a: Address)
        ensures
            final(self)@ == (RevoraView { admin: Some(a), ..old(self)@ }),
            final(self).host_calls() == old(self).host_calls(),
    {
        self.admin = Some(a);
    }

    pub(crate) fn read_safety(&self) -> (r: Option<Address>)
        ensures
            r == self@.safety,
    {
        self.safety
    }

    pub(crate) fn write_safety(&mut self, a: Address)
        ensures
            final(self)@ == (RevoraView { safety: Some(a), ..old(self)@ }),
            final(self).host_calls() == old(self).host_calls(),
    {
        self.safety = Some(a);
    }

    pub(crate) fn write_paused(&mut self, b: bool)
        ensures
            final(self)@ == (RevoraView { paused: b, ..old(self)@ }),
            old(self).wf() ==> final(self).wf(),
            final(self).host_calls() == old(self).host_calls(),
    {
        self.paused = b;
    }

    pub(crate) fn write_frozen(&mut self, b: bool)
        ensures
            final(self)@ == (RevoraView { frozen: b, ..old(self)@ }),
            final(self).host_calls() == old(self).host_calls(),
    {
        self.frozen = b;
    }

    pub(crate) fn write_event_only(&mut self, b: bool)
        ensures
            final(self)@ == (RevoraView { event_only: b, ..old(self)@ }),
            final(self).host_calls() == old(self).host_calls(),
    {
        self.event_only = b;
    }

    pub(crate) fn write_testnet_mode(&mut self, b: bool)
        ensures
            final(self)@ == (RevoraView { testnet_mode: b, ..old(self)@ }),
            final(self).host_calls() == old(self).host_calls(),
    {
        self.testnet_mode = b;
    }

    pub(crate) fn write_platform_fee(&mut self, fee: u32)
        ensures
            final(self)@ == (RevoraView { platform_fee_bps: fee, ..old(self)@ }),
            final(self).host_calls() == old(self).host_calls(),
    {
        self.platform_fee_bps = fee;
    }

    /// Get the admin address, if set.
    pub fn get_admin(&self) -> (r: Option<Address>)
        ensures
            r == self@.admin,
    {
        self.admin
    }

    /// Query the paused state of the contract.
    pub fn is_paused(&self) -> (r: bool)
        ensures
            r == self@.paused,
    {
        self.paused
    }

    /// Return true if the contract is frozen.
    pub fn is_frozen(&self) -> (r: bool)
        ensures
            r == self@.frozen,
    {
        self.frozen
    }

    /// Return true if the contract is in event-only mode.
    pub fn is_event_only(&self) -> (r: bool)
        ensures
            r == self@.event_only,
    {
        self.event_only
    }

    /// Return true if testnet mode is enabled.
    pub fn is_testnet_mode(&self) -> (r: bool)
        ensures
            r == self@.testnet_mode,
    {
        self.testnet_mode
    }

    /// Return the current platform fee in basis points (default 0).
    pub fn get_platform_fee(&self) -> (r: u32)
        ensures
            r == self@.platform_fee_bps,
    {
        self.platform_fee_bps
    }

    // ---- multisig ----
    /// Get the current multisig threshold.
    pub fn get_multisig_threshold(&self) -> (r: Option<u32>)
        ensures
            r == self@.multisig_threshold,
    {
        self.multisig_threshold
    }

    /// Get the current multisig owners list (empty before multisig is initialized).
    pub fn get_multisig_owners(&self) -> (r: Vec<Address>)
        ensures
            r@ == match self@.multisig_owners {
                Some(o) => o,
                None => Seq::empty(),
            },
    {
        match &self.multisig_owners {
            Some(o) => copy_addresses(o),
            None => Vec::new(),
        }
    }

    pub(crate) fn read_multisig_owners(&self) -> (r: Option<&Vec<Address>>)
        ensures
            r is Some <==> self@.multisig_owners is Some,
            r matches Some(o) ==> o@ == self@.multisig_owners.unwrap(),
    {
        match &self.multisig_owners {
            Some(o) => Some(o),
            None => None,
        }
    }

    pub(crate) fn write_multisig(&mut self, threshold: u32, owners: Vec<Address>)
        requires
            1 <= threshold <= owners@.len() <= u32::MAX,
        ensures
            final(self)@ == (RevoraView {
                multisig_threshold: Some(threshold),
                multisig_owners: Some(owners@),
                ..old(self)@
            }),
            final(self).host_calls() == old(self).host_calls(),
    {
        self.multisig_threshold = Some(threshold);
        self.multisig_owners = Some(owners);
    }

    pub(crate) fn write_multisig_threshold(&mut self, threshold: u32)
        ensures
            final(self)@ == (RevoraView { multisig_threshold: Some(threshold), ..old(self)@ }),
            final(self).host_calls() == old(self).host_calls(),
    {
        self.multisig_threshold = Some(threshold);
    }

    pub(crate) fn write_multisig_owners(&mut self, owners: Vec<Address>)
        ensures
            final(self)@ == (RevoraView { multisig_owners: Some(owners@), ..old(self)@ }),
            final(self).host_calls() == old(self).host_calls(),
    {
        self.multisig_owners = Some(owners);
    }

    pub(crate) fn proposal_count(&self) -> (n: usize)
        ensures
            n == self@.proposals.len(),
    {
        self.proposals.len()
    }

    pub(crate) fn read_proposal(&self, id: u32) -> (r: Option<&Proposal>)
        ensures
            r is Some <==> id < self@.proposals.len(),
            r matches Some(p) ==> p.view() == self@.proposals[id as int],
    {
        if (id as usize) < self.proposals.len() {
            Some(&self.proposals[id as usize])
        } else {
            None
        }
    }

    pub(crate) fn push_proposal(&mut self, p: Proposal)
        ensures
            final(self)@ == (RevoraView { proposals: old(self)@.proposals.push(p.view()), ..old(self)@ }),
            final(self).host_calls() == old(self).host_calls(),
    {
        let ghost pv = p.view();
        self.proposals.push(p);
        assert(self@.proposals =~= old(self)@.proposals.push(pv));
    }

    pub(crate) fn write_proposal(&mut self, i: usize, p: Proposal)
        requires
            i < old(self)@.proposals.len(),
        ensures
            final(self)@ == (RevoraView {
                proposals: old(self)@.proposals.update(i as int, p.view()),
                ..old(self)@
            }),
            final(self).host_calls() == old(self).host_calls(),
    {
        let ghost pv = p.view();
        self.proposals.set(i, p);
        assert(self@.proposals =~= old(self)@.proposals.update(i as int, pv));
    }

    // ---- issuer registry ----
    pub(crate) fn issuer_count(&self) -> (n: usize)
        ensures
            n == self@.issuers.len(),
    {
        self.issuers.len()
    }

    pub(crate) fn issuers_contains(&self, a: &Address) -> (r: bool)
        ensures
            r == self@.issuers.contains(*a),
    {
        crate::access::is_signer(&self.issuers, a)
    }

    pub(crate) fn issuer_at(&self, i: usize) -> (a: Address)
        requires
            i < self@.issuers.len(),
        ensures
            a == self@.issuers[i as int],
    {
        self.issuers[i]
    }

    pub(crate) fn push_issuer(&mut self, a: Address)
        ensures
            final(self)@ == (RevoraView { issuers: old(self)@.issuers.push(a), ..old(self)@ }),
            final(self).host_calls() == old(self).host_calls(),
    {
        self.issuers.push(a);
    }

    // ---- tables of vectors ----
    pub(crate) fn read_offerings(&self, issuer: &Address) -> (r: Option<&Vec<Offering>>)
        ensures
            r is Some <==> self@.offerings.contains_key(*issuer),
            r matches Some(v) ==> v@ == self@.offerings[*issuer],
    {
        self.offerings.get(issuer)
    }

    pub(crate) fn write_offerings(&mut self, issuer: Address, v: Vec<Offering>)
        ensures
            final(self)@ == (RevoraView { offerings: old(self)@.offerings.insert(issuer, v@), ..old(self)@ }),
            final(self).host_calls() == old(self).host_calls(),
    {
        let ghost w = v@;
        self.offerings.insert(issuer, v);
        assert(self@.offerings =~= old(self)@.offerings.insert(issuer, w));
    }

    pub(crate) fn read_blacklist(&self, token: &Address) -> (r: Option<&Vec<Address>>)
        ensures
            r is Some <==> self@.blacklists.contains_key(*token),
            r matches Some(v) ==> v@ == self@.blacklists[*token],
    {
        self.blacklists.get(token)
    }

    pub(crate) fn write_blacklist(&mut self, token: Address, v: Vec<Address>)
        ensures
            final(self)@ == (RevoraView { blacklists: old(self)@.blacklists.insert(token, v@), ..old(self)@ }),
            final(self).host_calls() == old(self).host_calls(),
    {
        let ghost w = v@;
        self.blacklists.insert(token, v);
        assert(self@.blacklists =~= old(self)@.blacklists.insert(token, w));
    }

    pub(crate) fn read_whitelist(&self, token: &Address) -> (r: Option<&Vec<Address>>)
        ensures
            r is Some <==> self@.whitelists.contains_key(*token),
            r matches Some(v) ==> v@ == self@.whitelists[*token],
    {
        self.whitelists.get(token)
    }

    pub(crate) fn write_whitelist(&mut self, token: Address, v: Vec<Address>)
        ensures
            final(self)@ == (RevoraView { whitelists: old(self)@.whitelists.insert(token, v@), ..old(self)@ }),
            final(self).host_calls() == old(self).host_calls(),
    {
        let ghost w = v@;
        self.whitelists.insert(token, v);
        assert(self@.whitelists =~= old(self)@.whitelists.insert(token, w));
    }

    pub(crate) fn read_period_entries(&self, token: &Address) -> (r: Option<&Vec<u64>>)
        ensures
            r is Some <==> self@.period_entries.contains_key(*token),
            r matches Some(v) ==> v@ == self@.period_entries[*token],
    {
        self.period_entries.get(token)
    }

    pub(crate) fn read_metadata(&self, k: &(Address, Address)) -> (r: Option<&Vec<u8>>)
        ensures
            r is Some <==> self@.metadata.contains_key(*k),
            r matches Some(v) ==> v@ == self@.metadata[*k],
    {
        self.metadata.get(k)
    }

    pub(crate) fn write_metadata(&mut self, k: (Address, Address), v: Vec<u8>)
        ensures
            final(self)@ == (RevoraView { metadata: old(self)@.metadata.insert(k, v@), ..old(self)@ }),
            final(self).host_calls() == old(self).host_calls(),
    {
        let ghost w = v@;
        self.metadata.insert(k, v);
        assert(self@.metadata =~= old(self)@.metadata.insert(k, w));
    }

    pub(crate) fn remove_pending_transfer(&mut self, token: &Address)
        ensures
            final(self)@ == (RevoraView {
                pending_transfers: old(self)@.pending_transfers.remove(*token),
                ..old(self)@
            }),
            final(self).host_calls() == old(self).host_calls(),
    {
        self.pending_transfers.remove(token);
    }

    // ---- claims and deposits ----
    pub(crate) fn write_last_claimed(&mut self, k: (Address, Address), idx: u32)
        ensures
            final(self)@ == (RevoraView { last_claimed: old(self)@.last_claimed.insert(k, idx), ..old(self)@ }),
            final(self).host_calls() == old(self).host_calls(),
    {
        self.last_claimed.insert(k, idx);
    }

    /// Records the deposit of `amount` for `period` of `token` at time `now`:
    /// the period's revenue and deposit time, and the period appended to the
    /// token's deposited periods.
    pub(crate) fn record_period(&mut self, token: Address, period: u64, amount: i128, now: u64)
        ensures
            final(self)@ == (RevoraView {
                period_revenue: old(self)@.period_revenue.insert((token, period), amount),
                period_deposit_time: old(self)@.period_deposit_time.insert((token, period), now),
                period_entries: old(self)@.period_entries.insert(
                    token,
                    old(self)@.entries_of(token).push(period),
                ),
                ..old(self)@
            }),
            final(self).host_calls() == old(self).host_calls(),
    {
        let mut entries = match self.period_entries.remove(&token) {
            Some(v) => v,
            None => Vec::new(),
        };
        let ghost before = entries@;
        assert(before == old(self)@.entries_of(token));
        entries.push(period);
        self.period_entries.insert(token, entries);
        self.period_revenue.insert((token, period), amount);
        self.period_deposit_time.insert((token, period), now);
        assert(self@.period_entries =~= old(self)@.period_entries.insert(token, before.push(period)));
    }

    // ---- tables of plain values ----
    pub(crate) fn read_offering_issuer(&self, k: &Address) -> (r: Option<Address>)
        ensures
            r == lookup(self@.offering_issuer, *k),
    {
        match self.offering_issuer.get(k) {
            Some(v) => Some(*v),
            None => None,
        }
    }

    pub(crate) fn write_offering_issuer(&mut self, k: Address, v: Address)
        ensures
            final(self)@ == (RevoraView { offering_issuer: old(self)@.offering_issuer.insert(k, v), ..old(self)@ }),
            final(self).host_calls() == old(self).host_calls(),
    {
        self.offering_issuer.insert(k, v);
    }

    pub(crate) fn read_concentration_limits(&self, k: &(Address, Address)) -> (r: Option<ConcentrationLimitConfig>)
        ensures
            r == lookup(self@.concentration_limits, *k),
    {
        match self.concentration_limits.get(k) {
            Some(v) => Some(*v),
            None => None,
        }
    }

    pub(crate) fn write_concentration_limits(&mut self, k: (Address, Address), v: ConcentrationLimitConfig)
        ensures
            final(self)@ == (RevoraView { concentration_limits: old(self)@.concentration_limits.insert(k, v), ..old(self)@ }),
            final(self).host_calls() == old(self).host_calls(),
    {
        self.concentration_limits.insert(k, v);
    }

    pub(crate) fn read_current_concentration(&self, k: &(Address, Address)) -> (r: Option<u32>)
        ensures
            r == lookup(self@.current_concentration, *k),
    {
        match self.current_concentration.get(k) {
            Some(v) => Some(*v),
            None => None,
        }
    }

    pub(crate) fn write_current_concentration(&mut self, k: (Address, Address), v: u32)
        ensures
            final(self)@ == (RevoraView { current_concentration: old(self)@.current_concentration.insert(k, v), ..old(self)@ }),
            final(self).host_calls() == old(self).host_calls(),
    {
        self.current_concentration.insert(k, v);
    }

    pub(crate) fn read_audit_summaries(&self, k: &(Address, Address)) -> (r: Option<AuditSummary>)
        ensures
            r == lookup(self@.audit_summaries, *k),
    {
        match self.audit_summaries.get(k) {
            Some(v) => Some(*v),
            None => None,
        }
    }

    pub(crate) fn write_audit_summaries(&mut self, k: (Address, Address), v: AuditSummary)
        ensures
            final(self)@ == (RevoraView { audit_summaries: old(self)@.audit_summaries.insert(k, v), ..old(self)@ }),
            final(self).host_calls() == old(self).host_calls(),
    {
        self.audit_summaries.insert(k, v);
    }

    pub(crate) fn read_rounding_modes(&self, k: &(Address, Address)) -> (r: Option<RoundingMode>)
        ensures
            r == lookup(self@.rounding_modes, *k),
    {
        match self.rounding_modes.get(k) {
            Some(v) => Some(*v),
            None => None,
        }
    }

    pub(crate) fn write_rounding_modes(&mut self, k: (Address, Address), v: RoundingMode)
        ensures
            final(self)@ == (RevoraView { rounding_modes: old(self)@.rounding_modes.insert(k, v), ..old(self)@ }),
            final(self).host_calls() == old(self).host_calls(),
    {
        self.rounding_modes.insert(k, v);
    }

    pub(crate) fn read_revenue_reports(&self, k: &(Address, Address, u64)) -> (r: Option<(i128, u64)>)
        ensures
            r == lookup(self@.revenue_reports, *k),
    {
        match self.revenue_reports.get(k) {
            Some(v) => Some(*v),
            None => None,
        }
    }

    pub(crate) fn write_revenue_reports(&mut self, k: (Address, Address, u64), v: (i128, u64))
        ensures
            final(self)@ == (RevoraView { revenue_reports: old(self)@.revenue_reports.insert(k, v), ..old(self)@ }),
            final(self).host_calls() == old(self).host_calls(),
    {
        self.revenue_reports.insert(k, v);
    }

    pub(crate) fn read_revenue_index(&self, k: &(Address, u64)) -> (r: Option<i128>)
        ensures
            r == lookup(self@.revenue_index, *k),
    {
        match self.revenue_index.get(k) {
            Some(v) => Some(*v),
            None => None,
        }
    }

    pub(crate) fn write_revenue_index(&mut self, k: (Address, u64), v: i128)
        ensures
            final(self)@ == (RevoraView { revenue_index: old(self)@.revenue_index.insert(k, v), ..old(self)@ }),
            final(self).host_calls() == old(self).host_calls(),
    {
        self.revenue_index.insert(k, v);
    }

    pub(crate) fn read_period_revenue(&self, k: &(Address, u64)) -> (r: Option<i128>)
        ensures
            r == lookup(self@.period_revenue, *k),
    {
        match self.period_revenue.get(k) {
            Some(v) => Some(*v),
            None => None,
        }
    }

    pub(crate) fn read_period_deposit_time(&self, k: &(Address, u64)) -> (r: Option<u64>)
        ensures
            r == lookup(self@.period_deposit_time, *k),
    {
        match self.period_deposit_time.get(k) {
            Some(v) => Some(*v),
            None => None,
        }
    }

    pub(crate) fn read_payment_tokens(&self, k: &Address) -> (r: Option<Address>)
        ensures
            r == lookup(self@.payment_tokens, *k),
    {
        match self.payment_tokens.get(k) {
            Some(v) => Some(*v),
            None => None,
        }
    }

    pub(crate) fn write_payment_tokens(&mut self, k: Address, v: Address)
        ensures
            final(self)@ == (RevoraView { payment_tokens: old(self)@.payment_tokens.insert(k, v), ..old(self)@ }),
            final(self).host_calls() == old(self).host_calls(),
    {
        self.payment_tokens.insert(k, v);
    }

    pub(crate) fn read_holder_shares(&self, k: &(Address, Address)) -> (r: Option<u32>)
        ensures
            r == lookup(self@.holder_shares, *k),
    {
        match self.holder_shares.get(k) {
            Some(v) => Some(*v),
            None => None,
        }
    }

    pub(crate) fn write_holder_shares(&mut self, k: (Address, Address), v: u32)
        ensures
            final(self)@ == (RevoraView { holder_shares: old(self)@.holder_shares.insert(k, v), ..old(self)@ }),
            final(self).host_calls() == old(self).host_calls(),
    {
        self.holder_shares.insert(k, v);
    }

    pub(crate) fn read_last_claimed(&self, k: &(Address, Address)) -> (r: Option<u32>)
        ensures
            r == lookup(self@.last_claimed, *k),
    {
        match self.last_claimed.get(k) {
            Some(v) => Some(*v),
            None => None,
        }
    }

    pub(crate) fn read_claim_delays(&self, k: &Address) -> (r: Option<u64>)
        ensures
            r == lookup(self@.claim_delays, *k),
    {
        match self.claim_delays.get(k) {
            Some(v) => Some(*v),
            None => None,
        }
    }

    pub(crate) fn write_claim_delays(&mut self, k: Address, v: u64)
        ensures
            final(self)@ == (RevoraView { claim_delays: old(self)@.claim_delays.insert(k, v), ..old(self)@ }),
            final(self).host_calls() == old(self).host_calls(),
    {
        self.claim_delays.insert(k, v);
    }

    pub(crate) fn read_snapshot_configs(&self, k: &(Address, Address)) -> (r: Option<bool>)
        ensures
            r == lookup(self@.snapshot_configs, *k),
    {
        match self.snapshot_configs.get(k) {
            Some(v) => Some(*v),
            None => None,
        }
    }

    pub(crate) fn write_snapshot_configs(&mut self, k: (Address, Address), v: bool)
        ensures
            final(self)@ == (RevoraView { snapshot_configs: old(self)@.snapshot_configs.insert(k, v), ..old(self)@ }),
            final(self).host_calls() == old(self).host_calls(),
    {
        self.snapshot_configs.insert(k, v);
    }

    pub(crate) fn read_last_snapshot_refs(&self, k: &(Address, Address)) -> (r: Option<u64>)
        ensures
            r == lookup(self@.last_snapshot_refs, *k),
    {
        match self.last_snapshot_refs.get(k) {
            Some(v) => Some(*v),
            None => None,
        }
    }

    pub(crate) fn write_last_snapshot_refs(&mut self, k: (Address, Address), v: u64)
        ensures
            final(self)@ == (RevoraView { last_snapshot_refs: old(self)@.last_snapshot_refs.insert(k, v), ..old(self)@ }),
            final(self).host_calls() == old(self).host_calls(),
    {
        self.last_snapshot_refs.insert(k, v);
    }

    pub(crate) fn read_pending_transfers(&self, k: &Address) -> (r: Option<Address>)
        ensures
            r == lookup(self@.pending_transfers, *k),
    {
        match self.pending_transfers.get(k) {
            Some(v) => Some(*v),
            None => None,
        }
    }

    pub(crate) fn write_pending_transfers(&mut self, k: Address, v: Address)
        ensures
            final(self)@ == (RevoraView { pending_transfers: old(self)@.pending_transfers.insert(k, v), ..old(self)@ }),
            final(self).host_calls() == old(self).host_calls(),
    {
        self.pending_transfers.insert(k, v);
    }

    pub(crate) fn read_min_revenue_thresholds(&self, k: &(Address, Address)) -> (r: Option<i128>)
        ensures
            r == lookup(self@.min_revenue_thresholds, *k),
    {
        match self.min_revenue_thresholds.get(k) {
            Some(v) => Some(*v),
            None => None,
        }
    }

    pub(crate) fn write_min_revenue_thresholds(&mut self, k: (Address, Address), v: i128)
        ensures
            final(self)@ == (RevoraView { min_revenue_thresholds: old(self)@.min_revenue_thresholds.insert(k, v), ..old(self)@ }),
            final(self).host_calls() == old(self).host_calls(),
    {
        self.min_revenue_thresholds.insert(k, v);
    }

    pub(crate) fn read_deposited_revenue(&self, k: &Address) -> (r: Option<i128>)
        ensures
            r == lookup(self@.deposited_revenue, *k),
    {
        match self.deposited_revenue.get(k) {
            Some(v) => Some(*v),
            None => None,
        }
    }

    pub(crate) fn write_deposited_revenue(&mut self, k: Address, v: i128)
        ensures
            final(self)@ == (RevoraView { deposited_revenue: old(self)@.deposited_revenue.insert(k, v), ..old(self)@ }),
            final(self).host_calls() == old(self).host_calls(),
    {
        self.deposited_revenue.insert(k, v);
    }

    // ---- host calls ----
    pub(crate) fn emit(&mut self, e: Event)
        ensures
            final(self)@ == old(self)@,
            final(self).host_calls() == old(self).host_calls().push(
                HostCallOf::Publish(event_view(e)),
            ),
    {
        let ghost e2 = e;
        self.outbox.push(HostCallOf::Publish(e));
        assert(self.host_calls() =~= old(self).host_calls().push(
            HostCallOf::Publish(event_view(e2)),
        ));
    }

    pub(crate) fn pay_in(&mut self, asset: Address, from: Address, amount: i128)
        ensures
            final(self)@ == old(self)@,
            final(self).host_calls() == old(self).host_calls().push(
                HostCallOf::PayIn { asset, from, amount },
            ),
    {
        self.outbox.push(HostCallOf::PayIn { asset, from, amount });
        assert(self.host_calls() =~= old(self).host_calls().push(
            HostCallOf::PayIn { asset, from, amount },
        ));
    }

    pub(crate) fn pay_out(&mut self, asset: Address, to: Address, amount: i128)
        ensures
            final(self)@ == old(self)@,
            final(self).host_calls() == old(self).host_calls().push(
                HostCallOf::PayOut { asset, to, amount },
            ),
    {
        self.outbox.push(HostCallOf::PayOut { asset, to, amount });
        assert(self.host_calls() =~= old(self).host_calls().push(
            HostCallOf::PayOut { asset, to, amount },
        ));
    }
}

} // verus!
