//! Offering registration and lookup, paging, the two-step issuer transfer,
//! offering metadata and the issuer registry.

use vstd::prelude::*;

use crate::access::require_auth;
use crate::events::{EventOf, HostCallOf};
use crate::state::{RevoraRevenueShare, RevoraView};
use crate::types::{copy_bytes, Address, Failure, Offering, RevoraError, Trap};

verus! {

/// Maximum number of offerings returned in a single page.
pub const MAX_PAGE_LIMIT: u32 = 20;

/// Maximum allowed length of offering metadata, in bytes.
pub const MAX_METADATA_LENGTH: usize = 256;

/// Maximum number of issuers visited by platform-wide queries.
pub const MAX_AGGREGATION_ISSUERS: u32 = 50;

/// Index of the first offering at or after `i` whose token is `token`, or -1.
pub open spec fn find_token_from(s: Seq<Offering>, token: Address, i: int) -> int
    decreases s.len() - i,
{
    if i < 0 || i >= s.len() {
        -1
    } else if s[i].token == token {
        i
    } else {
        find_token_from(s, token, i + 1)
    }
}

/// Index of the first offering in `s` whose token is `token`, or -1.
pub open spec fn find_token(s: Seq<Offering>, token: Address) -> int {
    find_token_from(s, token, 0)
}

pub proof fn lemma_find_token_from(s: Seq<Offering>, token: Address, i: int)
    requires
        0 <= i,
    ensures
        -1 <= find_token_from(s, token, i) < s.len(),
        find_token_from(s, token, i) >= 0 ==> i <= find_token_from(s, token, i) && s[find_token_from(s, token, i)].token == token,
        find_token_from(s, token, i) >= 0 ==> forall|j: int|
            i <= j < find_token_from(s, token, i) ==> s[j].token != token,
        find_token_from(s, token, i) == -1 ==> forall|j: int| i <= j < s.len() ==> s[j].token != token,
    decreases s.len() - i,
{
    if i < s.len() && s[i].token != token {
        lemma_find_token_from(s, token, i + 1);
    }
}

/// The offering of `issuer` for `token`: the first one registered under that issuer.
pub open spec fn offering_of(v: RevoraView, issuer: Address, token: Address) -> Option<Offering> {
    let s = v.offerings_of(issuer);
    let i = find_token(s, token);
    if i >= 0 {
        Some(s[i])
    } else {
        None
    }
}

pub open spec fn min_nat(a: int, b: int) -> int {
    if a <= b {
        a
    } else {
        b
    }
}

pub open spec fn register_offering_outcome(
    v: RevoraView,
    signers: Seq<Address>,
    issuer: Address,
    revenue_share_bps: u32,
) -> Result<(), Failure> {
    if v.frozen {
        Err(Failure::Contract(RevoraError::ContractFrozen))
    } else if v.paused {
        Err(Failure::Trap(Trap::Paused))
    } else if !signers.contains(issuer) {
        Err(Failure::Trap(Trap::Unauthorized(issuer)))
    } else if !v.testnet_mode && revenue_share_bps > 10_000 {
        Err(Failure::Contract(RevoraError::InvalidRevenueShareBps))
    } else if !v.event_only && v.offerings_of(issuer).len() >= u32::MAX {
        Err(Failure::Trap(Trap::ArithmeticOverflow))
    } else if !v.issuers.contains(issuer) && v.issuers.len() >= u32::MAX {
        Err(Failure::Trap(Trap::ArithmeticOverflow))
    } else {
        Ok(())
    }
}

/// The state after a successful registration.
pub open spec fn registered(v: RevoraView, o: Offering) -> RevoraView {
    let v1 = if v.event_only {
        v
    } else {
        RevoraView {
            offerings: v.offerings.insert(o.issuer, v.offerings_of(o.issuer).push(o)),
            offering_issuer: v.offering_issuer.insert(o.token, o.issuer),
            ..v
        }
    };
    if v.issuers.contains(o.issuer) {
        v1
    } else {
        RevoraView { issuers: v1.issuers.push(o.issuer), ..v1 }
    }
}

pub open spec fn accept_transfer_outcome(v: RevoraView, signers: Seq<Address>, token: Address) -> Result<
    (),
    Failure,
> {
    if v.frozen {
        Err(Failure::Contract(RevoraError::ContractFrozen))
    } else if v.paused {
        Err(Failure::Trap(Trap::Paused))
    } else if !v.pending_transfers.contains_key(token) {
        Err(Failure::Contract(RevoraError::NoTransferPending))
    } else if !signers.contains(v.pending_transfers[token]) {
        Err(Failure::Trap(Trap::Unauthorized(v.pending_transfers[token])))
    } else if v.issuer_of(token) is None {
        Err(Failure::Contract(RevoraError::OfferingNotFound))
    } else if find_token(v.offerings_of(v.issuer_of(token).unwrap()), token) < 0 {
        Err(Failure::Contract(RevoraError::OfferingNotFound))
    } else if v.pending_transfers[token] != v.issuer_of(token).unwrap() && v.offerings_of(
        v.pending_transfers[token],
    ).len() >= u32::MAX {
        Err(Failure::Trap(Trap::ArithmeticOverflow))
    } else {
        Ok(())
    }
}

/// The state after the pending transfer of `token` was accepted: the
/// offering leaves the old issuer's list (the others keep their order),
/// joins the end of the new issuer's list with the new issuer, and the
/// token's issuer changes.
pub open spec fn transferred(v: RevoraView, token: Address) -> RevoraView {
    let old_issuer = v.issuer_of(token).unwrap();
    let new_issuer = v.pending_transfers[token];
    let s = v.offerings_of(old_issuer);
    let i = find_token(s, token);
    let shrunk = s.remove(i);
    let moved = Offering { issuer: new_issuer, ..s[i] };
    let offerings1 = v.offerings.insert(old_issuer, shrunk);
    let target = if new_issuer == old_issuer {
        shrunk
    } else {
        v.offerings_of(new_issuer)
    };
    RevoraView {
        offerings: offerings1.insert(new_issuer, target.push(moved)),
        offering_issuer: v.offering_issuer.insert(token, new_issuer),
        pending_transfers: v.pending_transfers.remove(token),
        ..v
    }
}

pub open spec fn current_issuer_outcome(v: RevoraView, signers: Seq<Address>, token: Address) -> Result<
    (),
    Failure,
> {
    if v.frozen {
        Err(Failure::Contract(RevoraError::ContractFrozen))
    } else if v.paused {
        Err(Failure::Trap(Trap::Paused))
    } else if v.issuer_of(token) is None {
        Err(Failure::Contract(RevoraError::OfferingNotFound))
    } else if !signers.contains(v.issuer_of(token).unwrap()) {
        Err(Failure::Trap(Trap::Unauthorized(v.issuer_of(token).unwrap())))
    } else {
        Ok(())
    }
}

pub open spec fn set_metadata_outcome(
    v: RevoraView,
    signers: Seq<Address>,
    issuer: Address,
    token: Address,
    len: int,
) -> Result<(), Failure> {
    if v.frozen {
        Err(Failure::Contract(RevoraError::ContractFrozen))
    } else if v.paused {
        Err(Failure::Trap(Trap::Paused))
    } else if v.issuer_of(token) != Some(issuer) {
        Err(Failure::Contract(RevoraError::OfferingNotFound))
    } else if !signers.contains(issuer) {
        Err(Failure::Trap(Trap::Unauthorized(issuer)))
    } else if len > MAX_METADATA_LENGTH {
        Err(Failure::Contract(RevoraError::MetadataTooLarge))
    } else {
        Ok(())
    }
}

impl RevoraRevenueShare {
    /// The offerings of `issuer`, by registration index.
    pub(crate) fn offerings_list(&self, issuer: &Address) -> (r: Vec<Offering>)
        ensures
            r@ == self@.offerings_of(*issuer),
    {
        match self.read_offerings(issuer) {
            Some(v) => {
                let mut r: Vec<Offering> = Vec::new();
                let mut i: usize = 0;
                while i < v.len()
                    invariant
                        i <= v@.len(),
                        r@ == v@.subrange(0, i as int),
                    decreases v@.len() - i,
                {
                    r.push(v[i]);
                    i = i + 1;
                    assert(r@ =~= v@.subrange(0, i as int));
                }
                assert(r@ =~= v@);
                r
            },
            None => Vec::new(),
        }
    }

    /// Position of the first offering of `issuer` for `token`, if any.
    pub(crate) fn offering_position(&self, issuer: &Address, token: &Address) -> (r: Option<usize>)
        ensures
            r is None <==> find_token(self@.offerings_of(*issuer), *token) < 0,
            r matches Some(i) ==> i as int == find_token(self@.offerings_of(*issuer), *token),
    {
        let ghost s = self@.offerings_of(*issuer);
        match self.read_offerings(issuer) {
            Some(v) => {
                let mut i: usize = 0;
                while i < v.len()
                    invariant
                        i <= v@.len(),
                        v@ == s,
                        s == self@.offerings_of(*issuer),
                        find_token(s, *token) == find_token_from(s, *token, i as int),
                    decreases v@.len() - i,
                {
                    if v[i].token == *token {
                        assert(find_token_from(s, *token, i as int) == i as int);
                        return Some(i);
                    }
                    i = i + 1;
                }
                assert(find_token_from(s, *token, i as int) == -1);
                None
            },
            None => {
                assert(find_token_from(s, *token, 0) == -1);
                None
            },
        }
    }

    /// Register a new revenue-share offering for `issuer`. The share may not
    /// exceed 10000 bps outside testnet mode. In event-only mode the offering
    /// itself is not stored; the issuer always joins the issuer registry.
    pub fn register_offering(
        &mut self,
        signers: &Vec<Address>,
        issuer: Address,
        token: Address,
        revenue_share_bps: u32,
        payout_asset: Address,
    ) -> (r: Result<(), Failure>)
        requires
            old(self).wf(),
        ensures
            final(self).wf(),
            old(self)@.proposals_kept(final(self)@),
            r == register_offering_outcome(old(self)@, signers@, issuer, revenue_share_bps),
            r is Err ==> final(self)@ == old(self)@ && final(self).host_calls() == old(
                self,
            ).host_calls(),
            r is Ok ==> final(self)@ == registered(
                old(self)@,
                Offering { issuer, token, revenue_share_bps, payout_asset },
            ) && final(self).host_calls() == old(self).host_calls().push(
                HostCallOf::Publish(
                    EventOf::OfferingRegistered { issuer, token, revenue_share_bps, payout_asset },
                ),
            ),
    {
        self.require_not_frozen()?;
        if let Err(t) = self.require_not_paused() {
            return Err(Failure::Trap(t));
        }
        if let Err(t) = require_auth(signers, &issuer) {
            return Err(Failure::Trap(t));
        }
        if !self.is_testnet_mode() && revenue_share_bps > 10_000 {
            return Err(Failure::Contract(RevoraError::InvalidRevenueShareBps));
        }
        let event_only = self.is_event_only();
        let mut list = self.offerings_list(&issuer);
        if !event_only && list.len() >= u32::MAX as usize {
            return Err(Failure::Trap(Trap::ArithmeticOverflow));
        }
        let registered_before = self.issuers_contains(&issuer);
        if !registered_before && self.issuer_count() >= u32::MAX as usize {
            return Err(Failure::Trap(Trap::ArithmeticOverflow));
        }
        let offering = Offering { issuer, token, revenue_share_bps, payout_asset };
        if !event_only {
            list.push(offering);
            self.write_offerings(issuer, list);
            self.write_offering_issuer(token, issuer);
        }
        if !registered_before {
            self.push_issuer(issuer);
        }
        self.emit(EventOf::OfferingRegistered { issuer, token, revenue_share_bps, payout_asset });
        Ok(())
    }

    /// Fetch the offering of `issuer` for `token`: the first one that
    /// `issuer` registered for that token.
    pub fn get_offering(&self, issuer: Address, token: Address) -> (r: Option<Offering>)
        ensures
            r == offering_of(self@, issuer, token),
    {
        proof {
            lemma_find_token_from(self@.offerings_of(issuer), token, 0);
        }
        match self.offering_position(&issuer, &token) {
            Some(i) => {
                let list = self.read_offerings(&issuer).unwrap();
                assert(list@ == self@.offerings_of(issuer));
                assert(i as int == find_token(self@.offerings_of(issuer), token));
                Some(list[i])
            },
            None => None,
        }
    }

    /// Return the total number of offerings registered by `issuer`.
    pub fn get_offering_count(&self, issuer: Address) -> (n: u32)
        requires
            self.wf(),
        ensures
            n == self@.offerings_of(issuer).len(),
    {
        match self.read_offerings(&issuer) {
            Some(v) => v.len() as u32,
            None => 0,
        }
    }

    /// Return a page of offerings for `issuer`, in registration order,
    /// starting at index `start`; `limit` is capped at 20 (0 means 20). The
    /// second component is the index where the next page starts, if any.
    pub fn get_offerings_page(&self, issuer: Address, start: u32, limit: u32) -> (r: Result<
        (Vec<Offering>, Option<u32>),
        Trap,
    >)
        requires
            self.wf(),
        ensures
            ({
                let s = self@.offerings_of(issuer);
                let eff: int = if limit == 0 || limit > MAX_PAGE_LIMIT {
                    MAX_PAGE_LIMIT as int
                } else {
                    limit as int
                };
                let end = min_nat(start + eff, s.len() as int);
                if start >= s.len() {
                    r matches Ok((page, next)) && page@.len() == 0 && next is None
                } else if start + eff > u32::MAX {
                    r == Err::<(Vec<Offering>, Option<u32>), Trap>(Trap::ArithmeticOverflow)
                } else {
                    r matches Ok((page, next)) && page@ == s.subrange(start as int, end) && next
                        == (if end < s.len() {
                        Some(end as u32)
                    } else {
                        None
                    })
                }
            }),
    {
        let list = self.offerings_list(&issuer);
        let count = list.len() as u32;
        let effective_limit = if limit == 0 || limit > MAX_PAGE_LIMIT {
            MAX_PAGE_LIMIT
        } else {
            limit
        };
        if start >= count {
            return Ok((Vec::new(), None));
        }
        if start > u32::MAX - effective_limit {
            return Err(Trap::ArithmeticOverflow);
        }
        let end = if start + effective_limit < count {
            start + effective_limit
        } else {
            count
        };
        let mut results: Vec<Offering> = Vec::new();
        let mut i = start;
        while i < end
            invariant
                start <= i <= end,
                end <= list@.len(),
                results@ == list@.subrange(start as int, i as int),
            decreases end - i,
        {
            results.push(list[i as usize]);
            i = i + 1;
            assert(results@ =~= list@.subrange(start as int, i as int));
        }
        let next_cursor = if end < count {
            Some(end)
        } else {
            None
        };
        Ok((results, next_cursor))
    }

    /// List the offering tokens of `issuer`: those of its first page (at most 20).
    pub fn list_offerings(&self, issuer: Address) -> (tokens: Vec<Address>)
        requires
            self.wf(),
        ensures
            ({
                let s = self@.offerings_of(issuer);
                let n = min_nat(s.len() as int, MAX_PAGE_LIMIT as int);
                &&& tokens@.len() == n
                &&& forall|i: int| 0 <= i < n ==> tokens@[i] == #[trigger] s[i].token
            }),
    {
        let ghost s = self@.offerings_of(issuer);
        let ghost n = min_nat(s.len() as int, MAX_PAGE_LIMIT as int);
        let page = match self.get_offerings_page(issuer, 0, MAX_PAGE_LIMIT) {
            Ok((p, _)) => p,
            Err(_) => Vec::new(),
        };
        assert(page@ =~= s.subrange(0, n));
        let mut tokens: Vec<Address> = Vec::new();
        let mut i: usize = 0;
        while i < page.len()
            invariant
                i <= page@.len(),
                tokens@.len() == i,
                forall|j: int| 0 <= j < i ==> tokens@[j] == #[trigger] page@[j].token,
            decreases page@.len() - i,
        {
            tokens.push(page[i].token);
            i = i + 1;
        }
        assert forall|j: int| 0 <= j < n implies tokens@[j] == #[trigger] s[j].token by {
            assert(page@[j] == s[j]);
        }
        tokens
    }

    /// Return the registered issuers, in registration order, at most 50.
    pub fn get_all_issuers(&self) -> (r: Vec<Address>)
        requires
            self.wf(),
        ensures
            r@ == self@.issuers.subrange(
                0,
                min_nat(self@.issuers.len() as int, MAX_AGGREGATION_ISSUERS as int),
            ),
            r@.no_duplicates(),
    {
        let n = self.issuer_count();
        let cap: usize = if n < MAX_AGGREGATION_ISSUERS as usize {
            n
        } else {
            MAX_AGGREGATION_ISSUERS as usize
        };
        let mut r: Vec<Address> = Vec::new();
        let mut i: usize = 0;
        while i < cap
            invariant
                i <= cap,
                cap <= self@.issuers.len(),
                r@ == self@.issuers.subrange(0, i as int),
            decreases cap - i,
        {
            r.push(self.issuer_at(i));
            i = i + 1;
            assert(r@ =~= self@.issuers.subrange(0, i as int));
        }
        assert forall|a: int, b: int| 0 <= a < b < r@.len() implies r@[a] != r@[b] by {
            assert(r@[a] == self@.issuers[a] && r@[b] == self@.issuers[b]);
        }
        r
    }

    /// Propose transferring issuer control of the offering for `token` to
    /// `new_issuer`. Only the current issuer may do so, and only one transfer
    /// may be pending.
    pub fn propose_issuer_transfer(&mut self, signers: &Vec<Address>, token: Address, new_issuer: Address) -> (r:
        Result<(), Failure>)
        requires
            old(self).wf(),
        ensures
            final(self).wf(),
            old(self)@.proposals_kept(final(self)@),
            current_issuer_outcome(old(self)@, signers@, token) is Err ==> r == current_issuer_outcome(
                old(self)@,
                signers@,
                token,
            ),
            current_issuer_outcome(old(self)@, signers@, token) is Ok && old(
                self,
            )@.pending_transfers.contains_key(token) ==> r == Err::<(), Failure>(
                Failure::Contract(RevoraError::IssuerTransferPending),
            ),
            current_issuer_outcome(old(self)@, signers@, token) is Ok && !old(
                self,
            )@.pending_transfers.contains_key(token) ==> r is Ok,
            r is Err ==> final(self)@ == old(self)@ && final(self).host_calls() == old(
                self,
            ).host_calls(),
            r is Ok ==> final(self)@ == (RevoraView {
                pending_transfers: old(self)@.pending_transfers.insert(token, new_issuer),
                ..old(self)@
            }) && final(self).host_calls() == old(self).host_calls().push(
                HostCallOf::Publish(
                    EventOf::IssuerTransferProposed {
                        token,
                        current_issuer: old(self)@.issuer_of(token).unwrap(),
                        new_issuer,
                    },
                ),
            ),
    {
        self.require_not_frozen()?;
        self.require_unpaused()?;
        let current_issuer = match self.get_current_issuer(&token) {
            Some(i) => i,
            None => {
                return Err(Failure::Contract(RevoraError::OfferingNotFound));
            },
        };
        if let Err(t) = require_auth(signers, &current_issuer) {
            return Err(Failure::Trap(t));
        }
        if self.read_pending_transfers(&token).is_some() {
            return Err(Failure::Contract(RevoraError::IssuerTransferPending));
        }
        self.write_pending_transfers(token, new_issuer);
        self.emit(EventOf::IssuerTransferProposed { token, current_issuer, new_issuer });
        Ok(())
    }

    /// Accept the pending issuer transfer of `token`. Only the proposed new
    /// issuer may do so; the offering moves to the new issuer.
    pub fn accept_issuer_transfer(&mut self, signers: &Vec<Address>, token: Address) -> (r: Result<
        (),
        Failure,
    >)
        requires
            old(self).wf(),
        ensures
            final(self).wf(),
            old(self)@.proposals_kept(final(self)@),
            r == accept_transfer_outcome(old(self)@, signers@, token),
            r is Err ==> final(self)@ == old(self)@ && final(self).host_calls() == old(
                self,
            ).host_calls(),
            r is Ok ==> final(self)@ == transferred(old(self)@, token) && final(self).host_calls()
                == old(self).host_calls().push(
                HostCallOf::Publish(
                    EventOf::IssuerTransferAccepted {
                        token,
                        old_issuer: old(self)@.issuer_of(token).unwrap(),
                        new_issuer: old(self)@.pending_transfers[token],
                    },
                ),
            ),
    {
        self.require_not_frozen()?;
        self.require_unpaused()?;
        let new_issuer = match self.read_pending_transfers(&token) {
            Some(a) => a,
            None => {
                return Err(Failure::Contract(RevoraError::NoTransferPending));
            },
        };
        if let Err(t) = require_auth(signers, &new_issuer) {
            return Err(Failure::Trap(t));
        }
        let old_issuer = match self.get_current_issuer(&token) {
            Some(i) => i,
            None => {
                return Err(Failure::Contract(RevoraError::OfferingNotFound));
            },
        };
        let index = match self.offering_position(&old_issuer, &token) {
            Some(i) => i,
            None => {
                return Err(Failure::Contract(RevoraError::OfferingNotFound));
            },
        };
        let mut list = self.offerings_list(&old_issuer);
        let ghost s = list@;
        proof {
            lemma_find_token_from(s, token, 0);
        }
        let offering = list[index];
        if new_issuer != old_issuer && self.offerings_list(&new_issuer).len() >= u32::MAX as usize {
            return Err(Failure::Trap(Trap::ArithmeticOverflow));
        }
        list.remove(index);
        assert(list@ =~= s.remove(index as int));
        self.write_offerings(old_issuer, list);
        let mut target = self.offerings_list(&new_issuer);
        let moved = Offering { issuer: new_issuer, ..offering };
        target.push(moved);
        self.write_offerings(new_issuer, target);
        self.write_offering_issuer(token, new_issuer);
        self.remove_pending_transfer(&token);
        self.emit(EventOf::IssuerTransferAccepted { token, old_issuer, new_issuer });
        Ok(())
    }

    /// Cancel the pending issuer transfer of `token`. Only the current issuer may do so.
    pub fn cancel_issuer_transfer(&mut self, signers: &Vec<Address>, token: Address) -> (r: Result<
        (),
        Failure,
    >)
        requires
            old(self).wf(),
        ensures
            final(self).wf(),
            old(self)@.proposals_kept(final(self)@),
            current_issuer_outcome(old(self)@, signers@, token) is Err ==> r == current_issuer_outcome(
                old(self)@,
                signers@,
                token,
            ),
            current_issuer_outcome(old(self)@, signers@, token) is Ok && !old(
                self,
            )@.pending_transfers.contains_key(token) ==> r == Err::<(), Failure>(
                Failure::Contract(RevoraError::NoTransferPending),
            ),
            current_issuer_outcome(old(self)@, signers@, token) is Ok && old(
                self,
            )@.pending_transfers.contains_key(token) ==> r is Ok,
            r is Err ==> final(self)@ == old(self)@ && final(self).host_calls() == old(
                self,
            ).host_calls(),
            r is Ok ==> final(self)@ == (RevoraView {
                pending_transfers: old(self)@.pending_transfers.remove(token),
                ..old(self)@
            }) && final(self).host_calls() == old(self).host_calls().push(
                HostCallOf::Publish(
                    EventOf::IssuerTransferCancelled {
                        token,
                        current_issuer: old(self)@.issuer_of(token).unwrap(),
                        proposed_issuer: old(self)@.pending_transfers[token],
                    },
                ),
            ),
    {
        self.require_not_frozen()?;
        self.require_unpaused()?;
        let current_issuer = match self.get_current_issuer(&token) {
            Some(i) => i,
            None => {
                return Err(Failure::Contract(RevoraError::OfferingNotFound));
            },
        };
        if let Err(t) = require_auth(signers, &current_issuer) {
            return Err(Failure::Trap(t));
        }
        let proposed_issuer = match self.read_pending_transfers(&token) {
            Some(a) => a,
            None => {
                return Err(Failure::Contract(RevoraError::NoTransferPending));
            },
        };
        self.remove_pending_transfer(&token);
        self.emit(EventOf::IssuerTransferCancelled { token, current_issuer, proposed_issuer });
        Ok(())
    }

    /// Get the pending issuer transfer for `token`, if any.
    pub fn get_pending_issuer_transfer(&self, token: Address) -> (r: Option<Address>)
        ensures
            r == crate::state::lookup(self@.pending_transfers, token),
    {
        self.read_pending_transfers(&token)
    }

    /// Set or update the metadata reference (at most 256 bytes) of the
    /// offering of `issuer` for `token`. Only its current issuer may do so.
    pub fn set_offering_metadata(
        &mut self,
        signers: &Vec<Address>,
        issuer: Address,
        token: Address,
        metadata: Vec<u8>,
    ) -> (r: Result<(), Failure>)
        requires
            old(self).wf(),
        ensures
            final(self).wf(),
            old(self)@.proposals_kept(final(self)@),
            r == set_metadata_outcome(old(self)@, signers@, issuer, token, metadata@.len() as int),
            r is Err ==> final(self)@ == old(self)@ && final(self).host_calls() == old(
                self,
            ).host_calls(),
            r is Ok ==> final(self)@ == (RevoraView {
                metadata: old(self)@.metadata.insert((issuer, token), metadata@),
                ..old(self)@
            }) && final(self).host_calls() == old(self).host_calls().push(
                HostCallOf::Publish(
                    if old(self)@.metadata.contains_key((issuer, token)) {
                        EventOf::MetadataUpdated { issuer, token, metadata: metadata@ }
                    } else {
                        EventOf::MetadataSet { issuer, token, metadata: metadata@ }
                    },
                ),
            ),
    {
        self.require_not_frozen()?;
        if let Err(t) = self.require_not_paused() {
            return Err(Failure::Trap(t));
        }
        match self.get_current_issuer(&token) {
            Some(i) => {
                if i != issuer {
                    return Err(Failure::Contract(RevoraError::OfferingNotFound));
                }
            },
            None => {
                return Err(Failure::Contract(RevoraError::OfferingNotFound));
            },
        }
        if let Err(t) = require_auth(signers, &issuer) {
            return Err(Failure::Trap(t));
        }
        if metadata.len() > MAX_METADATA_LENGTH {
            return Err(Failure::Contract(RevoraError::MetadataTooLarge));
        }
        let is_update = self.read_metadata(&(issuer, token)).is_some();
        let published = copy_bytes(&metadata);
        self.write_metadata((issuer, token), metadata);
        if is_update {
            self.emit(EventOf::MetadataUpdated { issuer, token, metadata: published });
        } else {
            self.emit(EventOf::MetadataSet { issuer, token, metadata: published });
        }
        Ok(())
    }

    /// Retrieve the metadata reference of the offering of `issuer` for
    /// `token`, if any has been set.
    pub fn get_offering_metadata(&self, issuer: Address, token: Address) -> (r: Option<Vec<u8>>)
        ensures
            r is Some <==> self@.metadata.contains_key((issuer, token)),
            r matches Some(m) ==> m@ == self@.metadata[(issuer, token)],
    {
        match self.read_metadata(&(issuer, token)) {
            Some(m) => Some(copy_bytes(m)),
            None => None,
        }
    }
}

} // verus!
