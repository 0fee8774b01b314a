//! Multisig administration: owners propose sensitive actions, approve them,
//! and anyone may execute a proposal once enough owners approved it.

use vstd::prelude::*;

use crate::access::{is_signer, require_auth};
use crate::events::{EventOf, HostCallOf, HostCallView};
use crate::sets::{seq_without, without};
use crate::state::{ProposalView, RevoraRevenueShare, RevoraView};
use crate::types::{copy_addresses, Address, Failure, Proposal, ProposalAction, RevoraError, Trap};

verus! {

pub open spec fn init_multisig_outcome(
    v: RevoraView,
    signers: Seq<Address>,
    caller: Address,
    owners: Seq<Address>,
    threshold: u32,
) -> Result<(), Failure> {
    if v.frozen {
        Err(Failure::Contract(RevoraError::ContractFrozen))
    } else if v.paused {
        Err(Failure::Trap(Trap::Paused))
    } else if !signers.contains(caller) {
        Err(Failure::Trap(Trap::Unauthorized(caller)))
    } else if v.multisig_threshold is Some {
        Err(Failure::Contract(RevoraError::LimitReached))
    } else if owners.len() == 0 {
        Err(Failure::Contract(RevoraError::LimitReached))
    } else if threshold == 0 || threshold > owners.len() {
        Err(Failure::Contract(RevoraError::LimitReached))
    } else {
        Ok(())
    }
}

/// Outcome of the checks on an owner acting on multisig.
pub open spec fn owner_outcome(v: RevoraView, signers: Seq<Address>, owner: Address) -> Result<
    (),
    Failure,
> {
    if v.frozen {
        Err(Failure::Contract(RevoraError::ContractFrozen))
    } else if v.paused {
        Err(Failure::Trap(Trap::Paused))
    } else if !signers.contains(owner) {
        Err(Failure::Trap(Trap::Unauthorized(owner)))
    } else if !v.is_multisig_owner(owner) {
        Err(Failure::Contract(RevoraError::LimitReached))
    } else {
        Ok(())
    }
}

pub open spec fn approve_outcome(v: RevoraView, signers: Seq<Address>, approver: Address, id: u32) -> Result<
    (),
    Failure,
> {
    if owner_outcome(v, signers, approver) is Err {
        owner_outcome(v, signers, approver)
    } else if id >= v.proposals.len() {
        Err(Failure::Contract(RevoraError::OfferingNotFound))
    } else if v.proposals[id as int].executed {
        Err(Failure::Contract(RevoraError::LimitReached))
    } else if !v.proposals[id as int].approvals.contains(approver)
        && v.proposals[id as int].approvals.len() >= u32::MAX {
        Err(Failure::Trap(Trap::ArithmeticOverflow))
    } else {
        Ok(())
    }
}

pub open spec fn execute_outcome(v: RevoraView, id: u32) -> Result<(), Failure> {
    if v.frozen {
        Err(Failure::Contract(RevoraError::ContractFrozen))
    } else if v.paused {
        Err(Failure::Trap(Trap::Paused))
    } else if id >= v.proposals.len() {
        Err(Failure::Contract(RevoraError::OfferingNotFound))
    } else if v.proposals[id as int].executed {
        Err(Failure::Contract(RevoraError::LimitReached))
    } else if v.multisig_threshold is None {
        Err(Failure::Contract(RevoraError::LimitReached))
    } else if v.proposals[id as int].approvals.len() < v.multisig_threshold.unwrap() {
        Err(Failure::Contract(RevoraError::LimitReached))
    } else {
        let owners = v.multisig_owners.unwrap();
        match v.proposals[id as int].action {
            ProposalAction::SetThreshold(n) => if n == 0 || n > owners.len() {
                Err(Failure::Contract(RevoraError::InvalidShareBps))
            } else {
                Ok(())
            },
            ProposalAction::AddOwner(_) => if owners.len() >= u32::MAX {
                Err(Failure::Trap(Trap::ArithmeticOverflow))
            } else {
                Ok(())
            },
            ProposalAction::RemoveOwner(a) => if seq_without(owners, a).len()
                < v.multisig_threshold.unwrap() || seq_without(owners, a).len() == 0 {
                Err(Failure::Contract(RevoraError::LimitReached))
            } else {
                Ok(())
            },
            _ => Ok(()),
        }
    }
}

/// The state after proposal `id` was executed.
pub open spec fn executed(v: RevoraView, id: u32) -> RevoraView {
    let p = v.proposals[id as int];
    let owners = v.multisig_owners.unwrap();
    let v1 = match p.action {
        ProposalAction::SetAdmin(a) => RevoraView { admin: Some(a), ..v },
        ProposalAction::Freeze => RevoraView { frozen: true, ..v },
        ProposalAction::SetThreshold(n) => RevoraView { multisig_threshold: Some(n), ..v },
        ProposalAction::AddOwner(a) => RevoraView { multisig_owners: Some(owners.push(a)), ..v },
        ProposalAction::RemoveOwner(a) => RevoraView {
            multisig_owners: Some(seq_without(owners, a)),
            ..v
        },
    };
    RevoraView {
        proposals: v.proposals.update(id as int, ProposalView { executed: true, ..p }),
        ..v1
    }
}

/// The events of executing proposal `id`.
pub open spec fn execute_events(v: RevoraView, id: u32) -> Seq<HostCallView> {
    let p = v.proposals[id as int];
    let done: HostCallView = HostCallOf::Publish(EventOf::ProposalExecuted { id });
    match p.action {
        ProposalAction::Freeze => seq![
            HostCallOf::Publish(EventOf::Frozen { by: p.proposer }),
            done,
        ],
        _ => seq![done],
    }
}

impl RevoraRevenueShare {
    fn require_multisig_owner(&self, caller: &Address) -> (r: Result<(), Failure>)
        ensures
            self@.is_multisig_owner(*caller) ==> r is Ok,
            !self@.is_multisig_owner(*caller) ==> r == Err::<(), Failure>(
                Failure::Contract(RevoraError::LimitReached),
            ),
    {
        match self.read_multisig_owners() {
            Some(owners) => {
                if is_signer(owners, caller) {
                    Ok(())
                } else {
                    Err(Failure::Contract(RevoraError::LimitReached))
                }
            },
            None => Err(Failure::Contract(RevoraError::LimitReached)),
        }
    }

    /// Initialize multisig administration with `owners` and an approval
    /// `threshold` between 1 and the number of owners. Only once.
    pub fn init_multisig(&mut self, signers: &Vec<Address>, caller: Address, owners: Vec<Address>, threshold: u32) -> (r:
        Result<(), Failure>)
        requires
            old(self).wf(),
            owners@.len() <= u32::MAX,
        ensures
            final(self).wf(),
            old(self)@.proposals_kept(final(self)@),
            r == init_multisig_outcome(old(self)@, signers@, caller, owners@, threshold),
            r is Err ==> final(self)@ == old(self)@,
            r is Ok ==> final(self)@ == (RevoraView {
                multisig_threshold: Some(threshold),
                multisig_owners: Some(owners@),
                ..old(self)@
            }),
            final(self).host_calls() == old(self).host_calls(),
    {
        self.require_not_frozen()?;
        self.require_unpaused()?;
        if let Err(t) = require_auth(signers, &caller) {
            return Err(Failure::Trap(t));
        }
        if self.get_multisig_threshold().is_some() {
            return Err(Failure::Contract(RevoraError::LimitReached));
        }
        if owners.len() == 0 {
            return Err(Failure::Contract(RevoraError::LimitReached));
        }
        if threshold == 0 || threshold as usize > owners.len() {
            return Err(Failure::Contract(RevoraError::LimitReached));
        }
        self.write_multisig(threshold, owners);
        Ok(())
    }

    /// Propose an administrative action; the proposer's approval counts as
    /// the first. Returns the new proposal's id.
    pub fn propose_action(&mut self, signers: &Vec<Address>, proposer: Address, action: ProposalAction) -> (r:
        Result<u32, Failure>)
        requires
            old(self).wf(),
        ensures
            final(self).wf(),
            old(self)@.proposals_kept(final(self)@),
            owner_outcome(old(self)@, signers@, proposer) is Err ==> (r matches Err(f) && Err::<
                (),
                Failure,
            >(f) == owner_outcome(old(self)@, signers@, proposer)),
            owner_outcome(old(self)@, signers@, proposer) is Ok && old(self)@.proposals.len()
                >= u32::MAX ==> r == Err::<u32, Failure>(Failure::Trap(Trap::ArithmeticOverflow)),
            owner_outcome(old(self)@, signers@, proposer) is Ok && old(self)@.proposals.len()
                < u32::MAX ==> r == Ok::<u32, Failure>(old(self)@.proposals.len() as u32),
            r is Err ==> final(self)@ == old(self)@ && final(self).host_calls() == old(
                self,
            ).host_calls(),
            r matches Ok(id) ==> final(self)@ == (RevoraView {
                proposals: old(self)@.proposals.push(
                    ProposalView {
                        id,
                        action,
                        proposer,
                        approvals: seq![proposer],
                        executed: false,
                    },
                ),
                ..old(self)@
            }) && final(self).host_calls() == old(self).host_calls().push(
                HostCallOf::Publish(EventOf::ProposalCreated { proposer, id }),
            ).push(HostCallOf::Publish(EventOf::ProposalApproved { approver: proposer, id })),
    {
        self.require_not_frozen()?;
        self.require_unpaused()?;
        if let Err(t) = require_auth(signers, &proposer) {
            return Err(Failure::Trap(t));
        }
        self.require_multisig_owner(&proposer)?;
        let count = self.proposal_count();
        if count >= u32::MAX as usize {
            return Err(Failure::Trap(Trap::ArithmeticOverflow));
        }
        let id = count as u32;
        let mut approvals: Vec<Address> = Vec::new();
        approvals.push(proposer);
        assert(approvals@ =~= seq![proposer]);
        self.push_proposal(Proposal { id, action, proposer, approvals, executed: false });
        self.emit(EventOf::ProposalCreated { proposer, id });
        self.emit(EventOf::ProposalApproved { approver: proposer, id });
        Ok(id)
    }

    /// Approve proposal `proposal_id`; approving twice changes nothing.
    pub fn approve_action(&mut self, signers: &Vec<Address>, approver: Address, proposal_id: u32) -> (r:
        Result<(), Failure>)
        requires
            old(self).wf(),
        ensures
            final(self).wf(),
            old(self)@.proposals_kept(final(self)@),
            r == approve_outcome(old(self)@, signers@, approver, proposal_id),
            r is Err ==> final(self)@ == old(self)@ && final(self).host_calls() == old(
                self,
            ).host_calls(),
            r is Ok && old(self)@.proposals[proposal_id as int].approvals.contains(approver) ==> final(self)@ == old(self)@ && final(self).host_calls() == old(self).host_calls(),
            r is Ok && !old(self)@.proposals[proposal_id as int].approvals.contains(approver) ==> {
                let p = old(self)@.proposals[proposal_id as int];
                &&& final(self)@ == (RevoraView {
                    proposals: old(self)@.proposals.update(
                        proposal_id as int,
                        ProposalView { approvals: p.approvals.push(approver), ..p },
                    ),
                    ..old(self)@
                })
                &&& final(self).host_calls() == old(self).host_calls().push(
                    HostCallOf::Publish(EventOf::ProposalApproved { approver, id: proposal_id }),
                )
            },
    {
        self.require_not_frozen()?;
        self.require_unpaused()?;
        if let Err(t) = require_auth(signers, &approver) {
            return Err(Failure::Trap(t));
        }
        self.require_multisig_owner(&approver)?;
        let proposal = match self.read_proposal(proposal_id) {
            Some(p) => p.duplicate(),
            None => {
                return Err(Failure::Contract(RevoraError::OfferingNotFound));
            },
        };
        if proposal.executed {
            return Err(Failure::Contract(RevoraError::LimitReached));
        }
        if is_signer(&proposal.approvals, &approver) {
            return Ok(());
        }
        if proposal.approvals.len() >= u32::MAX as usize {
            return Err(Failure::Trap(Trap::ArithmeticOverflow));
        }
        let mut approvals = copy_addresses(&proposal.approvals);
        approvals.push(approver);
        let updated = Proposal { approvals, ..proposal };
        self.write_proposal(proposal_id as usize, updated);
        self.emit(EventOf::ProposalApproved { approver, id: proposal_id });
        Ok(())
    }

    /// Execute proposal `proposal_id` once its approvals reach the threshold.
    pub fn execute_action(&mut self, proposal_id: u32) -> (r: Result<(), Failure>)
        requires
            old(self).wf(),
        ensures
            final(self).wf(),
            old(self)@.proposals_kept(final(self)@),
            r == execute_outcome(old(self)@, proposal_id),
            r is Err ==> final(self)@ == old(self)@ && final(self).host_calls() == old(
                self,
            ).host_calls(),
            r is Ok ==> final(self)@ == executed(old(self)@, proposal_id) && final(self).host_calls()
                == old(self).host_calls() + execute_events(old(self)@, proposal_id),
    {
        self.require_not_frozen()?;
        self.require_unpaused()?;
        let ghost v0 = self@;
        let ghost calls0 = self.host_calls();
        let proposal = match self.read_proposal(proposal_id) {
            Some(p) => p.duplicate(),
            None => {
                return Err(Failure::Contract(RevoraError::OfferingNotFound));
            },
        };
        if proposal.executed {
            return Err(Failure::Contract(RevoraError::LimitReached));
        }
        let threshold = match self.get_multisig_threshold() {
            Some(t) => t,
            None => {
                return Err(Failure::Contract(RevoraError::LimitReached));
            },
        };
        if proposal.approvals.len() < threshold as usize {
            return Err(Failure::Contract(RevoraError::LimitReached));
        }
        let owners = copy_addresses(self.read_multisig_owners().unwrap());
        match proposal.action {
            ProposalAction::SetAdmin(new_admin) => {
                self.write_admin(new_admin);
            },
            ProposalAction::Freeze => {
                self.write_frozen(true);
                self.emit(EventOf::Frozen { by: proposal.proposer });
            },
            ProposalAction::SetThreshold(new_threshold) => {
                if new_threshold == 0 || new_threshold as usize > owners.len() {
                    return Err(Failure::Contract(RevoraError::InvalidShareBps));
                }
                self.write_multisig_threshold(new_threshold);
            },
            ProposalAction::AddOwner(new_owner) => {
                if owners.len() >= u32::MAX as usize {
                    return Err(Failure::Trap(Trap::ArithmeticOverflow));
                }
                let mut grown = owners;
                grown.push(new_owner);
                self.write_multisig_owners(grown);
            },
            ProposalAction::RemoveOwner(old_owner) => {
                let kept = without(&owners, &old_owner);
                proof {
                    crate::sets::lemma_seq_without_len(owners@, old_owner);
                }
                if kept.len() < threshold as usize || kept.len() == 0 {
                    return Err(Failure::Contract(RevoraError::LimitReached));
                }
                self.write_multisig_owners(kept);
            },
        }
        let done = Proposal { executed: true, ..proposal };
        self.write_proposal(proposal_id as usize, done);
        self.emit(EventOf::ProposalExecuted { id: proposal_id });
        assert(self.host_calls() =~= calls0 + execute_events(v0, proposal_id));
        Ok(())
    }

    /// Get proposal `proposal_id`, if it exists.
    pub fn get_proposal(&self, proposal_id: u32) -> (r: Option<Proposal>)
        ensures
            r is Some <==> proposal_id < self@.proposals.len(),
            r matches Some(p) ==> p.view() == self@.proposals[proposal_id as int],
    {
        match self.read_proposal(proposal_id) {
            Some(p) => Some(p.duplicate()),
            None => None,
        }
    }
}

} // verus!
