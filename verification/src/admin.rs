//! Initialization, the admin and safety roles, pause, freeze, testnet mode
//! and the platform fee.

use vstd::prelude::*;

use crate::access::require_auth;
use crate::events::{event_view, EventOf, HostCallOf};
use crate::state::{RevoraRevenueShare, RevoraView};
use crate::types::{Address, Failure, RevoraError, Trap};

verus! {

/// Contract version identifier; bumped when storage or semantics change.
pub const CONTRACT_VERSION: u32 = 1;

/// Maximum platform fee in basis points (50%).
pub const MAX_PLATFORM_FEE_BPS: u32 = 5_000;

/// Which role may pause and unpause.
pub enum PauseRole {
    Admin,
    Safety,
}

/// Outcome of a pause or unpause by `caller` acting in `role`.
pub open spec fn pause_outcome(
    v: RevoraView,
    signers: Seq<Address>,
    caller: Address,
    role: PauseRole,
) -> Result<(), Trap> {
    let holder = match role {
        PauseRole::Admin => v.admin,
        PauseRole::Safety => v.safety,
    };
    if !signers.contains(caller) {
        Err(Trap::Unauthorized(caller))
    } else if holder is None {
        Err(
            match role {
                PauseRole::Admin => Trap::AdminNotSet,
                PauseRole::Safety => Trap::SafetyNotSet,
            },
        )
    } else if holder != Some(caller) {
        Err(
            match role {
                PauseRole::Admin => Trap::NotAdmin,
                PauseRole::Safety => Trap::NotSafety,
            },
        )
    } else {
        Ok(())
    }
}

pub open spec fn freeze_outcome(v: RevoraView, signers: Seq<Address>) -> Result<(), Failure> {
    if v.paused {
        Err(Failure::Trap(Trap::Paused))
    } else if v.multisig_threshold is Some {
        Err(Failure::Contract(RevoraError::LimitReached))
    } else if v.admin is None {
        Err(Failure::Contract(RevoraError::LimitReached))
    } else if !signers.contains(v.admin.unwrap()) {
        Err(Failure::Trap(Trap::Unauthorized(v.admin.unwrap())))
    } else {
        Ok(())
    }
}

pub open spec fn set_admin_outcome(v: RevoraView, signers: Seq<Address>, admin: Address) -> Result<
    (),
    Failure,
> {
    if v.frozen {
        Err(Failure::Contract(RevoraError::ContractFrozen))
    } else if v.paused {
        Err(Failure::Trap(Trap::Paused))
    } else if v.multisig_threshold is Some {
        Err(Failure::Contract(RevoraError::LimitReached))
    } else if !signers.contains(admin) {
        Err(Failure::Trap(Trap::Unauthorized(admin)))
    } else if v.admin is Some {
        Err(Failure::Contract(RevoraError::LimitReached))
    } else {
        Ok(())
    }
}

/// Outcome of an admin-only setting (testnet mode, platform fee) before
/// the value itself is checked.
pub open spec fn admin_only_outcome(v: RevoraView, signers: Seq<Address>) -> Result<(), Failure> {
    if v.frozen {
        Err(Failure::Contract(RevoraError::ContractFrozen))
    } else if v.paused {
        Err(Failure::Trap(Trap::Paused))
    } else if v.admin is None {
        Err(Failure::Contract(RevoraError::LimitReached))
    } else if !signers.contains(v.admin.unwrap()) {
        Err(Failure::Trap(Trap::Unauthorized(v.admin.unwrap())))
    } else {
        Ok(())
    }
}

impl RevoraRevenueShare {
    /// Initialize admin, optional safety role and event-only mode. Can only
    /// be called once; a second call aborts, as does a call on a frozen
    /// contract.
    pub fn initialize(&mut self, admin: Address, safety: Option<Address>, event_only: Option<bool>) -> (r:
        Result<(), Trap>)
        requires
            old(self).wf(),
        ensures
            final(self).wf(),
            old(self)@.proposals_kept(final(self)@),
            old(self)@.admin is Some ==> r == Err::<(), Trap>(Trap::AlreadyInitialized),
            old(self)@.admin is None && old(self)@.frozen ==> r == Err::<(), Trap>(Trap::Frozen),
            r is Err ==> final(self)@ == old(self)@ && final(self).host_calls() == old(
                self,
            ).host_calls(),
            old(self)@.admin is None && !old(self)@.frozen ==> {
                let eo = match event_only {
                    Some(b) => b,
                    None => false,
                };
                &&& r is Ok
                &&& final(self)@ == (RevoraView {
                    admin: Some(admin),
                    safety: match safety {
                        Some(s) => Some(s),
                        None => old(self)@.safety,
                    },
                    paused: false,
                    event_only: eo,
                    ..old(self)@
                })
                &&& final(self).host_calls() == old(self).host_calls().push(
                    HostCallOf::Publish(EventOf::Initialized { admin, safety, event_only: eo }),
                )
            },
    {
        if self.get_admin().is_some() {
            return Err(Trap::AlreadyInitialized);
        }
        if self.is_frozen() {
            return Err(Trap::Frozen);
        }
        self.write_admin(admin);
        if let Some(s) = safety {
            self.write_safety(s);
        }
        self.write_paused(false);
        let eo = match event_only {
            Some(b) => b,
            None => false,
        };
        self.write_event_only(eo);
        self.emit(EventOf::Initialized { admin, safety, event_only: eo });
        Ok(())
    }

    fn set_pause(&mut self, signers: &Vec<Address>, caller: Address, role: PauseRole, paused: bool) -> (r:
        Result<(), Trap>)
        requires
            old(self).wf(),
        ensures
            final(self).wf(),
            old(self)@.proposals_kept(final(self)@),
            r == pause_outcome(old(self)@, signers@, caller, role),
            r is Err ==> final(self)@ == old(self)@ && final(self).host_calls() == old(
                self,
            ).host_calls(),
            r is Ok ==> final(self)@ == (RevoraView { paused: paused, ..old(self)@ })
                && final(self).host_calls() == old(self).host_calls().push(
                HostCallOf::Publish(
                    if paused {
                        EventOf::Paused { caller }
                    } else {
                        EventOf::Unpaused { caller }
                    },
                ),
            ),
    {
        require_auth(signers, &caller)?;
        let holder = match role {
            PauseRole::Admin => self.get_admin(),
            PauseRole::Safety => self.read_safety(),
        };
        match holder {
            None => {
                return Err(
                    match role {
                        PauseRole::Admin => Trap::AdminNotSet,
                        PauseRole::Safety => Trap::SafetyNotSet,
                    },
                );
            },
            Some(h) => {
                if caller != h {
                    return Err(
                        match role {
                            PauseRole::Admin => Trap::NotAdmin,
                            PauseRole::Safety => Trap::NotSafety,
                        },
                    );
                }
            },
        }
        self.write_paused(paused);
        if paused {
            self.emit(EventOf::Paused { caller });
        } else {
            self.emit(EventOf::Unpaused { caller });
        }
        Ok(())
    }

    /// Pause the contract (admin only). Idempotent. While paused, every
    /// state-changing entrypoint other than pausing and unpausing aborts.
    pub fn pause_admin(&mut self, signers: &Vec<Address>, caller: Address) -> (r: Result<(), Trap>)
        requires
            old(self).wf(),
        ensures
            final(self).wf(),
            old(self)@.proposals_kept(final(self)@),
            r == pause_outcome(old(self)@, signers@, caller, PauseRole::Admin),
            r is Err ==> final(self)@ == old(self)@ && final(self).host_calls() == old(
                self,
            ).host_calls(),
            r is Ok ==> final(self)@ == (RevoraView { paused: true, ..old(self)@ })
                && final(self).host_calls() == old(self).host_calls().push(
                HostCallOf::Publish(EventOf::Paused { caller }),
            ),
    {
        self.set_pause(signers, caller, PauseRole::Admin, true)
    }

    /// Unpause the contract (admin only). Idempotent.
    pub fn unpause_admin(&mut self, signers: &Vec<Address>, caller: Address) -> (r: Result<(), Trap>)
        requires
            old(self).wf(),
        ensures
            final(self).wf(),
            old(self)@.proposals_kept(final(self)@),
            r == pause_outcome(old(self)@, signers@, caller, PauseRole::Admin),
            r is Err ==> final(self)@ == old(self)@ && final(self).host_calls() == old(
                self,
            ).host_calls(),
            r is Ok ==> final(self)@ == (RevoraView { paused: false, ..old(self)@ })
                && final(self).host_calls() == old(self).host_calls().push(
                HostCallOf::Publish(EventOf::Unpaused { caller }),
            ),
    {
        self.set_pause(signers, caller, PauseRole::Admin, false)
    }

    /// Pause the contract (safety role only). Idempotent.
    pub fn pause_safety(&mut self, signers: &Vec<Address>, caller: Address) -> (r: Result<(), Trap>)
        requires
            old(self).wf(),
        ensures
            final(self).wf(),
            old(self)@.proposals_kept(final(self)@),
            r == pause_outcome(old(self)@, signers@, caller, PauseRole::Safety),
            r is Err ==> final(self)@ == old(self)@ && final(self).host_calls() == old(
                self,
            ).host_calls(),
            r is Ok ==> final(self)@ == (RevoraView { paused: true, ..old(self)@ })
                && final(self).host_calls() == old(self).host_calls().push(
                HostCallOf::Publish(EventOf::Paused { caller }),
            ),
    {
        self.set_pause(signers, caller, PauseRole::Safety, true)
    }

    /// Unpause the contract (safety role only). Idempotent.
    pub fn unpause_safety(&mut self, signers: &Vec<Address>, caller: Address) -> (r: Result<(), Trap>)
        requires
            old(self).wf(),
        ensures
            final(self).wf(),
            old(self)@.proposals_kept(final(self)@),
            r == pause_outcome(old(self)@, signers@, caller, PauseRole::Safety),
            r is Err ==> final(self)@ == old(self)@ && final(self).host_calls() == old(
                self,
            ).host_calls(),
            r is Ok ==> final(self)@ == (RevoraView { paused: false, ..old(self)@ })
                && final(self).host_calls() == old(self).host_calls().push(
                HostCallOf::Publish(EventOf::Unpaused { caller }),
            ),
    {
        self.set_pause(signers, caller, PauseRole::Safety, false)
    }

    /// Set the admin address. May only be called once, and not once multisig
    /// is initialized; the new admin must authorize.
    pub fn set_admin(&mut self, signers: &Vec<Address>, admin: Address) -> (r: Result<(), Failure>)
        requires
            old(self).wf(),
        ensures
            final(self).wf(),
            old(self)@.proposals_kept(final(self)@),
            r == set_admin_outcome(old(self)@, signers@, admin),
            r is Err ==> final(self)@ == old(self)@ && final(self).host_calls() == old(
                self,
            ).host_calls(),
            r is Ok ==> final(self)@ == (RevoraView { admin: Some(admin), ..old(self)@ })
                && final(self).host_calls() == old(self).host_calls(),
    {
        self.require_not_frozen()?;
        self.require_unpaused()?;
        if self.get_multisig_threshold().is_some() {
            return Err(Failure::Contract(RevoraError::LimitReached));
        }
        if let Err(t) = require_auth(signers, &admin) {
            return Err(Failure::Trap(t));
        }
        if self.get_admin().is_some() {
            return Err(Failure::Contract(RevoraError::LimitReached));
        }
        self.write_admin(admin);
        Ok(())
    }

    /// Freeze the contract: no further state-changing operations (claims and
    /// reads stay allowed). Admin only; disabled once multisig is initialized.
    pub fn freeze(&mut self, signers: &Vec<Address>) -> (r: Result<(), Failure>)
        requires
            old(self).wf(),
        ensures
            final(self).wf(),
            old(self)@.proposals_kept(final(self)@),
            r == freeze_outcome(old(self)@, signers@),
            r is Err ==> final(self)@ == old(self)@ && final(self).host_calls() == old(
                self,
            ).host_calls(),
            r is Ok ==> final(self)@ == (RevoraView { frozen: true, ..old(self)@ })
                && final(self).host_calls() == old(self).host_calls().push(
                HostCallOf::Publish(EventOf::Frozen { by: old(self)@.admin.unwrap() }),
            ),
    {
        self.require_unpaused()?;
        if self.get_multisig_threshold().is_some() {
            return Err(Failure::Contract(RevoraError::LimitReached));
        }
        let admin = match self.get_admin() {
            Some(a) => a,
            None => {
                return Err(Failure::Contract(RevoraError::LimitReached));
            },
        };
        if let Err(t) = require_auth(signers, &admin) {
            return Err(Failure::Trap(t));
        }
        self.write_frozen(true);
        self.emit(EventOf::Frozen { by: admin });
        Ok(())
    }

    /// Enable or disable testnet mode (admin only). In event-only mode the
    /// flag is not stored, but the event is still published.
    pub fn set_testnet_mode(&mut self, signers: &Vec<Address>, enabled: bool) -> (r: Result<
        (),
        Failure,
    >)
        requires
            old(self).wf(),
        ensures
            final(self).wf(),
            old(self)@.proposals_kept(final(self)@),
            r == admin_only_outcome(old(self)@, signers@),
            r is Err ==> final(self)@ == old(self)@ && final(self).host_calls() == old(
                self,
            ).host_calls(),
            r is Ok ==> final(self)@ == (RevoraView {
                testnet_mode: if old(self)@.event_only {
                    old(self)@.testnet_mode
                } else {
                    enabled
                },
                ..old(self)@
            }) && final(self).host_calls() == old(self).host_calls().push(
                HostCallOf::Publish(
                    EventOf::TestnetModeSet { admin: old(self)@.admin.unwrap(), enabled },
                ),
            ),
    {
        self.require_not_frozen()?;
        self.require_unpaused()?;
        let admin = match self.get_admin() {
            Some(a) => a,
            None => {
                return Err(Failure::Contract(RevoraError::LimitReached));
            },
        };
        if let Err(t) = require_auth(signers, &admin) {
            return Err(Failure::Trap(t));
        }
        if !self.is_event_only() {
            self.write_testnet_mode(enabled);
        }
        self.emit(EventOf::TestnetModeSet { admin, enabled });
        Ok(())
    }

    /// Set the platform fee in basis points (admin only). At most 5000
    /// (50%); 0 disables it.
    pub fn set_platform_fee(&mut self, signers: &Vec<Address>, fee_bps: u32) -> (r: Result<
        (),
        Failure,
    >)
        requires
            old(self).wf(),
        ensures
            final(self).wf(),
            old(self)@.proposals_kept(final(self)@),
            admin_only_outcome(old(self)@, signers@) is Err ==> r == admin_only_outcome(
                old(self)@,
                signers@,
            ),
            admin_only_outcome(old(self)@, signers@) is Ok && fee_bps > MAX_PLATFORM_FEE_BPS ==> r
                == Err::<(), Failure>(Failure::Contract(RevoraError::LimitReached)),
            admin_only_outcome(old(self)@, signers@) is Ok && fee_bps <= MAX_PLATFORM_FEE_BPS ==> r
                is Ok,
            r is Err ==> final(self)@ == old(self)@,
            r is Ok ==> final(self)@ == (RevoraView { platform_fee_bps: fee_bps, ..old(self)@ }),
            final(self).host_calls() == old(self).host_calls(),
    {
        self.require_not_frozen()?;
        self.require_unpaused()?;
        let admin = match self.get_admin() {
            Some(a) => a,
            None => {
                return Err(Failure::Contract(RevoraError::LimitReached));
            },
        };
        if let Err(t) = require_auth(signers, &admin) {
            return Err(Failure::Trap(t));
        }
        if fee_bps > MAX_PLATFORM_FEE_BPS {
            return Err(Failure::Contract(RevoraError::LimitReached));
        }
        self.write_platform_fee(fee_bps);
        Ok(())
    }

    /// Return the current contract version.
    pub fn get_version() -> (v: u32)
        ensures
            v == CONTRACT_VERSION,
    {
        CONTRACT_VERSION
    }
}

} // verus!
