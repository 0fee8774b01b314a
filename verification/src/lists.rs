//! Per-offering blacklists and whitelists. A blacklisted address is always
//! excluded from payouts; a non-empty whitelist restricts eligibility.

use vstd::prelude::*;

use crate::access::require_auth;
use crate::events::{EventOf, HostCallOf};
use crate::sets::{
    appended_once, insert_sorted, lemma_seq_without_no_duplicates, remove_sorted, seq_without,
    without,
};
use crate::state::{sorted_addresses, RevoraRevenueShare, RevoraView};
use crate::types::{copy_addresses, Address, Failure, RevoraError, Trap};

verus! {

/// Outcome of a blacklist addition by `caller`: the contract is neither
/// frozen nor paused, `caller` signed, the offering exists, and `caller` is
/// the token's issuer or else the admin (which must then be set).
pub open spec fn blacklist_change_outcome(
    v: RevoraView,
    signers: Seq<Address>,
    caller: Address,
    token: Address,
) -> Result<(), Failure> {
    if v.frozen {
        Err(Failure::Contract(RevoraError::ContractFrozen))
    } else if v.paused {
        Err(Failure::Trap(Trap::Paused))
    } else if !signers.contains(caller) {
        Err(Failure::Trap(Trap::Unauthorized(caller)))
    } else if v.issuer_of(token) is None {
        Err(Failure::Contract(RevoraError::OfferingNotFound))
    } else if caller == v.issuer_of(token).unwrap() {
        Ok(())
    } else if v.admin is None {
        Err(Failure::Contract(RevoraError::NotInitialized))
    } else if caller != v.admin.unwrap() {
        Err(Failure::Contract(RevoraError::NotAuthorized))
    } else {
        Ok(())
    }
}

/// Outcome of a blacklist removal by `caller`: the contract is neither
/// frozen nor paused, `caller` signed, the offering exists, an admin is set,
/// and `caller` is the token's issuer or the admin.
pub open spec fn blacklist_remove_outcome(
    v: RevoraView,
    signers: Seq<Address>,
    caller: Address,
    token: Address,
) -> Result<(), Failure> {
    if v.frozen {
        Err(Failure::Contract(RevoraError::ContractFrozen))
    } else if v.paused {
        Err(Failure::Trap(Trap::Paused))
    } else if !signers.contains(caller) {
        Err(Failure::Trap(Trap::Unauthorized(caller)))
    } else if v.issuer_of(token) is None {
        Err(Failure::Contract(RevoraError::OfferingNotFound))
    } else if v.admin is None {
        Err(Failure::Contract(RevoraError::NotInitialized))
    } else if caller != v.issuer_of(token).unwrap() && caller != v.admin.unwrap() {
        Err(Failure::Contract(RevoraError::NotAuthorized))
    } else {
        Ok(())
    }
}

impl RevoraRevenueShare {
    fn require_blacklist_remover(&self, signers: &Vec<Address>, caller: &Address, token: &Address) -> (r:
        Result<(), Failure>)
        ensures
            r == blacklist_remove_outcome(self@, signers@, *caller, *token),
    {
        self.require_not_frozen()?;
        self.require_unpaused()?;
        if let Err(t) = require_auth(signers, caller) {
            return Err(Failure::Trap(t));
        }
        let current_issuer = match self.get_current_issuer(token) {
            Some(i) => i,
            None => {
                return Err(Failure::Contract(RevoraError::OfferingNotFound));
            },
        };
        let admin = match self.get_admin() {
            Some(a) => a,
            None => {
                return Err(Failure::Contract(RevoraError::NotInitialized));
            },
        };
        if *caller != current_issuer && *caller != admin {
            return Err(Failure::Contract(RevoraError::NotAuthorized));
        }
        Ok(())
    }

    fn require_blacklist_manager(&self, signers: &Vec<Address>, caller: &Address, token: &Address) -> (r:
        Result<(), Failure>)
        ensures
            r == blacklist_change_outcome(self@, signers@, *caller, *token),
    {
        self.require_not_frozen()?;
        if let Err(t) = self.require_not_paused() {
            return Err(Failure::Trap(t));
        }
        if let Err(t) = require_auth(signers, caller) {
            return Err(Failure::Trap(t));
        }
        let current_issuer = match self.get_current_issuer(token) {
            Some(i) => i,
            None => {
                return Err(Failure::Contract(RevoraError::OfferingNotFound));
            },
        };
        if *caller == current_issuer {
            return Ok(());
        }
        let admin = match self.get_admin() {
            Some(a) => a,
            None => {
                return Err(Failure::Contract(RevoraError::NotInitialized));
            },
        };
        if *caller != admin {
            return Err(Failure::Contract(RevoraError::NotAuthorized));
        }
        Ok(())
    }

    fn blacklist_copy(&self, token: &Address) -> (r: Vec<Address>)
        ensures
            r@ == self@.blacklist_of(*token),
    {
        match self.read_blacklist(token) {
            Some(b) => copy_addresses(b),
            None => Vec::new(),
        }
    }

    fn whitelist_copy(&self, token: &Address) -> (r: Vec<Address>)
        ensures
            r@ == self@.whitelist_of(*token),
    {
        match self.read_whitelist(token) {
            Some(b) => copy_addresses(b),
            None => Vec::new(),
        }
    }

    /// Add `investor` to the blacklist of `token`'s offering (idempotent; the
    /// list keeps insertion order). Only the token's issuer or the admin.
    pub fn blacklist_add(&mut self, signers: &Vec<Address>, caller: Address, token: Address, investor: Address) -> (r:
        Result<(), Failure>)
        requires
            old(self).wf(),
        ensures
            final(self).wf(),
            old(self)@.proposals_kept(final(self)@),
            r == blacklist_change_outcome(old(self)@, signers@, caller, token),
            r is Err ==> final(self)@ == old(self)@ && final(self).host_calls() == old(
                self,
            ).host_calls(),
            r is Ok ==> final(self)@ == (RevoraView {
                blacklists: old(self)@.blacklists.insert(
                    token,
                    appended_once(old(self)@.blacklist_of(token), investor),
                ),
                ..old(self)@
            }) && final(self).host_calls() == old(self).host_calls().push(
                HostCallOf::Publish(EventOf::BlacklistAdded { token, caller, investor }),
            ),
    {
        self.require_blacklist_manager(signers, &caller, &token)?;
        let mut list = self.blacklist_copy(&token);
        if !crate::access::is_signer(&list, &investor) {
            list.push(investor);
        }
        self.write_blacklist(token, list);
        self.emit(EventOf::BlacklistAdded { token, caller, investor });
        Ok(())
    }

    /// Remove `investor` from the blacklist of `token`'s offering
    /// (idempotent). Only the token's issuer or the admin, and only once an
    /// admin is set; in event-only mode the list is left as it is.
    pub fn blacklist_remove(&mut self, signers: &Vec<Address>, caller: Address, token: Address, investor: Address) -> (r:
        Result<(), Failure>)
        requires
            old(self).wf(),
        ensures
            final(self).wf(),
            old(self)@.proposals_kept(final(self)@),
            r == blacklist_remove_outcome(old(self)@, signers@, caller, token),
            r is Err ==> final(self)@ == old(self)@ && final(self).host_calls() == old(
                self,
            ).host_calls(),
            r is Ok && old(self)@.event_only ==> final(self)@ == old(self)@,
            r is Ok && !old(self)@.event_only ==> final(self)@ == (RevoraView {
                blacklists: old(self)@.blacklists.insert(
                    token,
                    seq_without(old(self)@.blacklist_of(token), investor),
                ),
                ..old(self)@
            }),
            r is Ok ==> final(self).host_calls() == old(self).host_calls().push(
                HostCallOf::Publish(EventOf::BlacklistRemoved { token, caller, investor }),
            ),
    {
        self.require_blacklist_remover(signers, &caller, &token)?;
        if !self.is_event_only() {
            let list = self.blacklist_copy(&token);
            let kept = without(&list, &investor);
            proof {
                lemma_seq_without_no_duplicates(list@, investor);
            }
            self.write_blacklist(token, kept);
        }
        self.emit(EventOf::BlacklistRemoved { token, caller, investor });
        Ok(())
    }

    /// Whether `investor` is blacklisted for `token`'s offering.
    pub fn is_blacklisted(&self, token: Address, investor: Address) -> (r: bool)
        ensures
            r == self@.blacklist_of(token).contains(investor),
    {
        match self.read_blacklist(&token) {
            Some(b) => crate::access::is_signer(b, &investor),
            None => false,
        }
    }

    /// All blacklisted addresses of `token`'s offering, in insertion order.
    pub fn get_blacklist(&self, token: Address) -> (r: Vec<Address>)
        requires
            self.wf(),
        ensures
            r@ == self@.blacklist_of(token),
            r@.no_duplicates(),
    {
        self.blacklist_copy(&token)
    }

    /// Add `investor` to the whitelist of `token`'s offering (idempotent).
    pub fn whitelist_add(&mut self, signers: &Vec<Address>, caller: Address, token: Address, investor: Address) -> (r:
        Result<(), Trap>)
        requires
            old(self).wf(),
        ensures
            final(self).wf(),
            old(self)@.proposals_kept(final(self)@),
            old(self)@.frozen ==> r == Err::<(), Trap>(Trap::Frozen),
            !old(self)@.frozen && old(self)@.paused ==> r == Err::<(), Trap>(Trap::Paused),
            !old(self)@.frozen && !old(self)@.paused && signers@.contains(caller) ==> r is Ok,
            !old(self)@.frozen && !old(self)@.paused && !signers@.contains(caller) ==> r == Err::<
                (),
                Trap,
            >(Trap::Unauthorized(caller)),
            r is Err ==> final(self)@ == old(self)@ && final(self).host_calls() == old(
                self,
            ).host_calls(),
            r is Ok ==> {
                let w = final(self)@.whitelist_of(token);
                &&& final(self)@ == (RevoraView {
                    whitelists: old(self)@.whitelists.insert(token, w),
                    ..old(self)@
                })
                &&& sorted_addresses(w)
                &&& forall|a: Address|
                    w.contains(a) <==> (old(self)@.whitelist_of(token).contains(a) || a == investor)
                &&& final(self).host_calls() == old(self).host_calls().push(
                    HostCallOf::Publish(EventOf::WhitelistAdded { token, caller, investor }),
                )
            },
    {
        if self.is_frozen() {
            return Err(Trap::Frozen);
        }
        self.require_not_paused()?;
        require_auth(signers, &caller)?;
        let mut list = self.whitelist_copy(&token);
        insert_sorted(&mut list, investor);
        self.write_whitelist(token, list);
        self.emit(EventOf::WhitelistAdded { token, caller, investor });
        Ok(())
    }

    /// Remove `investor` from the whitelist of `token`'s offering (idempotent).
    pub fn whitelist_remove(&mut self, signers: &Vec<Address>, caller: Address, token: Address, investor: Address) -> (r:
        Result<(), Trap>)
        requires
            old(self).wf(),
        ensures
            final(self).wf(),
            old(self)@.proposals_kept(final(self)@),
            old(self)@.frozen ==> r == Err::<(), Trap>(Trap::Frozen),
            !old(self)@.frozen && old(self)@.paused ==> r == Err::<(), Trap>(Trap::Paused),
            !old(self)@.frozen && !old(self)@.paused && signers@.contains(caller) ==> r is Ok,
            !old(self)@.frozen && !old(self)@.paused && !signers@.contains(caller) ==> r == Err::<
                (),
                Trap,
            >(Trap::Unauthorized(caller)),
            r is Err ==> final(self)@ == old(self)@ && final(self).host_calls() == old(
                self,
            ).host_calls(),
            r is Ok ==> {
                let w = final(self)@.whitelist_of(token);
                &&& final(self)@ == (RevoraView {
                    whitelists: old(self)@.whitelists.insert(token, w),
                    ..old(self)@
                })
                &&& sorted_addresses(w)
                &&& forall|a: Address|
                    w.contains(a) <==> (old(self)@.whitelist_of(token).contains(a) && a != investor)
                &&& final(self).host_calls() == old(self).host_calls().push(
                    HostCallOf::Publish(EventOf::WhitelistRemoved { token, caller, investor }),
                )
            },
    {
        if self.is_frozen() {
            return Err(Trap::Frozen);
        }
        self.require_not_paused()?;
        require_auth(signers, &caller)?;
        let mut list = self.whitelist_copy(&token);
        remove_sorted(&mut list, &investor);
        self.write_whitelist(token, list);
        self.emit(EventOf::WhitelistRemoved { token, caller, investor });
        Ok(())
    }

    /// Whether `investor` is whitelisted for `token`'s offering (false while
    /// the whitelist is empty).
    pub fn is_whitelisted(&self, token: Address, investor: Address) -> (r: bool)
        ensures
            r == self@.whitelist_of(token).contains(investor),
    {
        match self.read_whitelist(&token) {
            Some(w) => crate::access::is_signer(w, &investor),
            None => false,
        }
    }

    /// All whitelisted addresses of `token`'s offering, in the ledger's
    /// order of addresses.
    pub fn get_whitelist(&self, token: Address) -> (r: Vec<Address>)
        requires
            self.wf(),
        ensures
            r@ == self@.whitelist_of(token),
            sorted_addresses(r@),
    {
        self.whitelist_copy(&token)
    }

    /// Whether whitelist enforcement is active for `token`'s offering: the
    /// whitelist holds at least one address.
    pub fn is_whitelist_enabled(&self, token: Address) -> (r: bool)
        ensures
            r == (self@.whitelist_of(token).len() > 0),
    {
        match self.read_whitelist(&token) {
            Some(w) => w.len() > 0,
            None => false,
        }
    }
}

} // verus!
