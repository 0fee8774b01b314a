//! Guards shared by the entrypoints: authorization, freeze and pause, and
//! input validation.

use vstd::prelude::*;

use crate::state::RevoraRevenueShare;
use crate::types::{Address, Failure, RevoraError, Trap};

verus! {

/// Whether `a` is among the addresses that authorized the invocation.
pub fn is_signer(signers: &Vec<Address>, a: &Address) -> (r: bool)
    ensures
        r == signers@.contains(*a),
{
    let mut i: usize = 0;
    while i < signers.len()
        invariant
            i <= signers@.len(),
            forall|j: int| 0 <= j < i ==> signers@[j] != *a,
        decreases signers@.len() - i,
    {
        if signers[i] == *a {
            return true;
        }
        i = i + 1;
    }
    false
}

/// Aborts unless `a` authorized the invocation.
pub fn require_auth(signers: &Vec<Address>, a: &Address) -> (r: Result<(), Trap>)
    ensures
        signers@.contains(*a) ==> r is Ok,
        !signers@.contains(*a) ==> r == Err::<(), Trap>(Trap::Unauthorized(*a)),
{
    if is_signer(signers, a) {
        Ok(())
    } else {
        Err(Trap::Unauthorized(*a))
    }
}

impl RevoraRevenueShare {
    /// Fails with `ContractFrozen` when the contract is frozen.
    pub(crate) fn require_not_frozen(&self) -> (r: Result<(), Failure>)
        ensures
            self@.frozen ==> r == Err::<(), Failure>(Failure::Contract(RevoraError::ContractFrozen)),
            !self@.frozen ==> r is Ok,
    {
        if self.is_frozen() {
            Err(Failure::Contract(RevoraError::ContractFrozen))
        } else {
            Ok(())
        }
    }

    /// Aborts the entrypoint when the contract is paused.
    pub(crate) fn require_unpaused(&self) -> (r: Result<(), Failure>)
        ensures
            self@.paused ==> r == Err::<(), Failure>(Failure::Trap(Trap::Paused)),
            !self@.paused ==> r is Ok,
    {
        if self.is_paused() {
            Err(Failure::Trap(Trap::Paused))
        } else {
            Ok(())
        }
    }

    /// Aborts when the contract is paused.
    pub(crate) fn require_not_paused(&self) -> (r: Result<(), Trap>)
        ensures
            self@.paused ==> r == Err::<(), Trap>(Trap::Paused),
            !self@.paused ==> r is Ok,
    {
        if self.is_paused() {
            Err(Trap::Paused)
        } else {
            Ok(())
        }
    }

    /// Input validation: require amount > 0 for transfers/deposits.
    pub fn require_positive_amount(amount: i128) -> (r: Result<(), RevoraError>)
        ensures
            amount > 0 ==> r is Ok,
            amount <= 0 ==> r == Err::<(), RevoraError>(RevoraError::InvalidAmount),
    {
        if amount <= 0 {
            return Err(RevoraError::InvalidAmount);
        }
        Ok(())
    }

    /// Input validation: require period_id > 0 where 0 would be ambiguous.
    pub fn require_valid_period_id(period_id: u64) -> (r: Result<(), RevoraError>)
        ensures
            period_id > 0 ==> r is Ok,
            period_id == 0 ==> r == Err::<(), RevoraError>(RevoraError::InvalidPeriodId),
    {
        if period_id == 0 {
            return Err(RevoraError::InvalidPeriodId);
        }
        Ok(())
    }

    /// Input validation: require amount >= 0 for reporting (zero revenue may be reported).
    pub fn require_non_negative_amount(amount: i128) -> (r: Result<(), RevoraError>)
        ensures
            amount >= 0 ==> r is Ok,
            amount < 0 ==> r == Err::<(), RevoraError>(RevoraError::InvalidAmount),
    {
        if amount < 0 {
            return Err(RevoraError::InvalidAmount);
        }
        Ok(())
    }

    /// The current issuer of the offering for `token`, if any.
    pub(crate) fn get_current_issuer(&self, token: &Address) -> (r: Option<Address>)
        ensures
            r == self@.issuer_of(*token),
    {
        self.read_offering_issuer(token)
    }
}

} // verus!
