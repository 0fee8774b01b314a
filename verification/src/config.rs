//! Per-offering settings: concentration guardrail, rounding mode, minimum
//! revenue threshold, snapshots, claim delay and holder shares.

use vstd::prelude::*;

use crate::access::require_auth;
use crate::events::{EventOf, HostCallOf};
use crate::offerings::offering_of;
use crate::state::{lookup, RevoraRevenueShare, RevoraView};
use crate::types::{
    Address, AuditSummary, ConcentrationLimitConfig, Failure, RevoraError, RoundingMode, Trap,
};

verus! {

/// Outcome of the checks made by the issuer-only settings: not frozen,
/// `issuer` is the token's current issuer (else `missing`), `issuer` signed.
pub open spec fn issuer_only_outcome(
    v: RevoraView,
    signers: Seq<Address>,
    issuer: Address,
    token: Address,
    missing: RevoraError,
) -> Result<(), Failure> {
    if v.frozen {
        Err(Failure::Contract(RevoraError::ContractFrozen))
    } else if v.paused {
        Err(Failure::Trap(Trap::Paused))
    } else if v.issuer_of(token) != Some(issuer) {
        Err(Failure::Contract(missing))
    } else if !signers.contains(issuer) {
        Err(Failure::Trap(Trap::Unauthorized(issuer)))
    } else {
        Ok(())
    }
}

pub open spec fn set_concentration_limit_outcome(
    v: RevoraView,
    signers: Seq<Address>,
    issuer: Address,
    token: Address,
) -> Result<(), Failure> {
    if v.frozen {
        Err(Failure::Contract(RevoraError::ContractFrozen))
    } else if v.paused {
        Err(Failure::Trap(Trap::Paused))
    } else if v.issuer_of(token) != Some(issuer) {
        Err(Failure::Contract(RevoraError::LimitReached))
    } else if !v.event_only && !signers.contains(issuer) {
        Err(Failure::Trap(Trap::Unauthorized(issuer)))
    } else {
        Ok(())
    }
}

pub open spec fn report_concentration_outcome(
    v: RevoraView,
    signers: Seq<Address>,
    issuer: Address,
    token: Address,
) -> Result<(), Failure> {
    if v.frozen {
        Err(Failure::Contract(RevoraError::ContractFrozen))
    } else if v.paused {
        Err(Failure::Trap(Trap::Paused))
    } else if !signers.contains(issuer) {
        Err(Failure::Trap(Trap::Unauthorized(issuer)))
    } else if v.issuer_of(token) != Some(issuer) {
        Err(Failure::Contract(RevoraError::OfferingNotFound))
    } else {
        Ok(())
    }
}

pub open spec fn set_rounding_mode_outcome(
    v: RevoraView,
    signers: Seq<Address>,
    issuer: Address,
    token: Address,
) -> Result<(), Failure> {
    if v.frozen {
        Err(Failure::Contract(RevoraError::ContractFrozen))
    } else if v.paused {
        Err(Failure::Trap(Trap::Paused))
    } else if v.event_only {
        Ok(())
    } else if v.issuer_of(token) != Some(issuer) {
        Err(Failure::Contract(RevoraError::LimitReached))
    } else if !signers.contains(issuer) {
        Err(Failure::Trap(Trap::Unauthorized(issuer)))
    } else {
        Ok(())
    }
}

pub open spec fn set_snapshot_config_outcome(
    v: RevoraView,
    signers: Seq<Address>,
    issuer: Address,
    token: Address,
) -> Result<(), Failure> {
    if v.frozen {
        Err(Failure::Contract(RevoraError::ContractFrozen))
    } else if v.paused {
        Err(Failure::Trap(Trap::Paused))
    } else if !signers.contains(issuer) {
        Err(Failure::Trap(Trap::Unauthorized(issuer)))
    } else if offering_of(v, issuer, token) is None {
        Err(Failure::Contract(RevoraError::OfferingNotFound))
    } else {
        Ok(())
    }
}

impl RevoraRevenueShare {
    /// The checks of the issuer-only settings.
    pub(crate) fn require_current_issuer(
        &self,
        signers: &Vec<Address>,
        issuer: &Address,
        token: &Address,
        missing: RevoraError,
    ) -> (r: Result<(), Failure>)
        ensures
            r == issuer_only_outcome(self@, signers@, *issuer, *token, missing),
    {
        self.require_not_frozen()?;
        self.require_unpaused()?;
        match self.get_current_issuer(token) {
            Some(i) => {
                if i != *issuer {
                    return Err(Failure::Contract(missing));
                }
            },
            None => {
                return Err(Failure::Contract(missing));
            },
        }
        if let Err(t) = require_auth(signers, issuer) {
            return Err(Failure::Trap(t));
        }
        Ok(())
    }

    /// Set the concentration limit of the offering: the largest share a
    /// single holder may have (0 disables it) and whether `report_revenue`
    /// enforces it. Only the current issuer; not stored in event-only mode.
    pub fn set_concentration_limit(
        &mut self,
        signers: &Vec<Address>,
        issuer: Address,
        token: Address,
        max_bps: u32,
        enforce: bool,
    ) -> (r: Result<(), Failure>)
        requires
            old(self).wf(),
        ensures
            final(self).wf(),
            old(self)@.proposals_kept(final(self)@),
            r == set_concentration_limit_outcome(old(self)@, signers@, issuer, token),
            r is Err || old(self)@.event_only ==> final(self)@ == old(self)@,
            r is Ok && !old(self)@.event_only ==> final(self)@ == (RevoraView {
                concentration_limits: old(self)@.concentration_limits.insert(
                    (issuer, token),
                    ConcentrationLimitConfig { max_bps, enforce },
                ),
                ..old(self)@
            }),
            final(self).host_calls() == old(self).host_calls(),
    {
        self.require_not_frozen()?;
        self.require_unpaused()?;
        match self.get_current_issuer(&token) {
            Some(i) => {
                if i != issuer {
                    return Err(Failure::Contract(RevoraError::LimitReached));
                }
            },
            None => {
                return Err(Failure::Contract(RevoraError::LimitReached));
            },
        }
        if !self.is_event_only() {
            if let Err(t) = require_auth(signers, &issuer) {
                return Err(Failure::Trap(t));
            }
            self.write_concentration_limits((issuer, token), ConcentrationLimitConfig { max_bps, enforce });
        }
        Ok(())
    }

    /// Report the current top-holder concentration of the offering. The value
    /// is stored for enforcement by `report_revenue`; a `conc_warn` event is
    /// published when it exceeds a configured, non-zero limit.
    pub fn report_concentration(
        &mut self,
        signers: &Vec<Address>,
        issuer: Address,
        token: Address,
        concentration_bps: u32,
    ) -> (r: Result<(), Failure>)
        requires
            old(self).wf(),
        ensures
            final(self).wf(),
            old(self)@.proposals_kept(final(self)@),
            r == report_concentration_outcome(old(self)@, signers@, issuer, token),
            r is Err ==> final(self)@ == old(self)@ && final(self).host_calls() == old(
                self,
            ).host_calls(),
            r is Ok ==> {
                let cfg = lookup(old(self)@.concentration_limits, (issuer, token));
                &&& final(self)@ == (RevoraView {
                    current_concentration: old(self)@.current_concentration.insert(
                        (issuer, token),
                        concentration_bps,
                    ),
                    ..old(self)@
                })
                &&& final(self).host_calls() == if cfg matches Some(c) && c.max_bps > 0
                    && concentration_bps > c.max_bps {
                    old(self).host_calls().push(
                        HostCallOf::Publish(
                            EventOf::ConcentrationWarning {
                                issuer,
                                token,
                                concentration_bps,
                                max_bps: cfg.unwrap().max_bps,
                            },
                        ),
                    )
                } else {
                    old(self).host_calls()
                }
            },
    {
        self.require_not_frozen()?;
        self.require_unpaused()?;
        if let Err(t) = require_auth(signers, &issuer) {
            return Err(Failure::Trap(t));
        }
        match self.get_current_issuer(&token) {
            Some(i) => {
                if i != issuer {
                    return Err(Failure::Contract(RevoraError::OfferingNotFound));
                }
            },
            None => {
                return Err(Failure::Contract(RevoraError::OfferingNotFound));
            },
        }
        self.write_current_concentration((issuer, token), concentration_bps);
        if let Some(config) = self.read_concentration_limits(&(issuer, token)) {
            if config.max_bps > 0 && concentration_bps > config.max_bps {
                self.emit(
                    EventOf::ConcentrationWarning {
                        issuer,
                        token,
                        concentration_bps,
                        max_bps: config.max_bps,
                    },
                );
            }
        }
        Ok(())
    }

    /// Get the concentration limit of the offering, if set.
    pub fn get_concentration_limit(&self, issuer: Address, token: Address) -> (r: Option<
        ConcentrationLimitConfig,
    >)
        ensures
            r == lookup(self@.concentration_limits, (issuer, token)),
    {
        self.read_concentration_limits(&(issuer, token))
    }

    /// Get the last reported concentration of the offering, if any.
    pub fn get_current_concentration(&self, issuer: Address, token: Address) -> (r: Option<u32>)
        ensures
            r == lookup(self@.current_concentration, (issuer, token)),
    {
        self.read_current_concentration(&(issuer, token))
    }

    /// Get the audit summary (total reported revenue, number of reports) of the offering.
    pub fn get_audit_summary(&self, issuer: Address, token: Address) -> (r: Option<AuditSummary>)
        ensures
            r == lookup(self@.audit_summaries, (issuer, token)),
    {
        self.read_audit_summaries(&(issuer, token))
    }

    /// Set the rounding mode of the offering's share calculations. Only the
    /// current issuer; in event-only mode nothing is checked or stored.
    pub fn set_rounding_mode(
        &mut self,
        signers: &Vec<Address>,
        issuer: Address,
        token: Address,
        mode: RoundingMode,
    ) -> (r: Result<(), Failure>)
        requires
            old(self).wf(),
        ensures
            final(self).wf(),
            old(self)@.proposals_kept(final(self)@),
            r == set_rounding_mode_outcome(old(self)@, signers@, issuer, token),
            r is Err || old(self)@.event_only ==> final(self)@ == old(self)@,
            r is Ok && !old(self)@.event_only ==> final(self)@ == (RevoraView {
                rounding_modes: old(self)@.rounding_modes.insert((issuer, token), mode),
                ..old(self)@
            }),
            final(self).host_calls() == old(self).host_calls(),
    {
        self.require_not_frozen()?;
        self.require_unpaused()?;
        if !self.is_event_only() {
            match self.get_current_issuer(&token) {
                Some(i) => {
                    if i != issuer {
                        return Err(Failure::Contract(RevoraError::LimitReached));
                    }
                },
                None => {
                    return Err(Failure::Contract(RevoraError::LimitReached));
                },
            }
            if let Err(t) = require_auth(signers, &issuer) {
                return Err(Failure::Trap(t));
            }
            self.write_rounding_modes((issuer, token), mode);
        }
        Ok(())
    }

    /// Get the rounding mode of the offering; `Truncation` unless set.
    pub fn get_rounding_mode(&self, issuer: Address, token: Address) -> (r: RoundingMode)
        ensures
            r == self@.rounding_mode(issuer, token),
    {
        match self.read_rounding_modes(&(issuer, token)) {
            Some(m) => m,
            None => RoundingMode::Truncation,
        }
    }

    /// Set the minimum revenue per period of the offering below which no
    /// distribution is triggered (0 disables it). Only the current issuer.
    pub fn set_min_revenue_threshold(
        &mut self,
        signers: &Vec<Address>,
        issuer: Address,
        token: Address,
        min_amount: i128,
    ) -> (r: Result<(), Failure>)
        requires
            old(self).wf(),
        ensures
            final(self).wf(),
            old(self)@.proposals_kept(final(self)@),
            issuer_only_outcome(
                old(self)@,
                signers@,
                issuer,
                token,
                RevoraError::OfferingNotFound,
            ) is Err ==> r == issuer_only_outcome(
                old(self)@,
                signers@,
                issuer,
                token,
                RevoraError::OfferingNotFound,
            ),
            issuer_only_outcome(old(self)@, signers@, issuer, token, RevoraError::OfferingNotFound)
                is Ok && min_amount < 0 ==> r == Err::<(), Failure>(
                Failure::Contract(RevoraError::InvalidAmount),
            ),
            issuer_only_outcome(old(self)@, signers@, issuer, token, RevoraError::OfferingNotFound)
                is Ok && min_amount >= 0 ==> r is Ok,
            r is Err ==> final(self)@ == old(self)@ && final(self).host_calls() == old(
                self,
            ).host_calls(),
            r is Ok ==> final(self)@ == (RevoraView {
                min_revenue_thresholds: old(self)@.min_revenue_thresholds.insert(
                    (issuer, token),
                    min_amount,
                ),
                ..old(self)@
            }) && final(self).host_calls() == old(self).host_calls().push(
                HostCallOf::Publish(
                    EventOf::MinRevenueThresholdSet {
                        issuer,
                        token,
                        previous: match lookup(old(self)@.min_revenue_thresholds, (issuer, token)) {
                            Some(p) => p,
                            None => 0,
                        },
                        min_amount,
                    },
                ),
            ),
    {
        self.require_current_issuer(signers, &issuer, &token, RevoraError::OfferingNotFound)?;
        if let Err(e) = Self::require_non_negative_amount(min_amount) {
            return Err(Failure::Contract(e));
        }
        let previous = match self.read_min_revenue_thresholds(&(issuer, token)) {
            Some(p) => p,
            None => 0,
        };
        self.write_min_revenue_thresholds((issuer, token), min_amount);
        self.emit(EventOf::MinRevenueThresholdSet { issuer, token, previous, min_amount });
        Ok(())
    }

    /// Get the minimum revenue threshold of the offering; 0 means none.
    pub fn get_min_revenue_threshold(&self, issuer: Address, token: Address) -> (r: i128)
        ensures
            r == match lookup(self@.min_revenue_thresholds, (issuer, token)) {
                Some(m) => m,
                None => 0,
            },
    {
        match self.read_min_revenue_thresholds(&(issuer, token)) {
            Some(m) => m,
            None => 0,
        }
    }

    /// Enable or disable snapshot-based distribution for the offering of
    /// `issuer` for `token`.
    pub fn set_snapshot_config(
        &mut self,
        signers: &Vec<Address>,
        issuer: Address,
        token: Address,
        enabled: bool,
    ) -> (r: Result<(), Failure>)
        requires
            old(self).wf(),
        ensures
            final(self).wf(),
            old(self)@.proposals_kept(final(self)@),
            r == set_snapshot_config_outcome(old(self)@, signers@, issuer, token),
            r is Err ==> final(self)@ == old(self)@ && final(self).host_calls() == old(
                self,
            ).host_calls(),
            r is Ok ==> final(self)@ == (RevoraView {
                snapshot_configs: old(self)@.snapshot_configs.insert((issuer, token), enabled),
                ..old(self)@
            }) && final(self).host_calls() == old(self).host_calls().push(
                HostCallOf::Publish(EventOf::SnapshotConfigSet { issuer, token, enabled }),
            ),
    {
        self.require_not_frozen()?;
        self.require_unpaused()?;
        if let Err(t) = require_auth(signers, &issuer) {
            return Err(Failure::Trap(t));
        }
        if self.get_offering(issuer, token).is_none() {
            return Err(Failure::Contract(RevoraError::OfferingNotFound));
        }
        self.write_snapshot_configs((issuer, token), enabled);
        self.emit(EventOf::SnapshotConfigSet { issuer, token, enabled });
        Ok(())
    }

    /// Whether snapshot-based distribution is enabled for the offering.
    pub fn get_snapshot_config(&self, issuer: Address, token: Address) -> (r: bool)
        ensures
            r == (lookup(self@.snapshot_configs, (issuer, token)) == Some(true)),
    {
        match self.read_snapshot_configs(&(issuer, token)) {
            Some(b) => b,
            None => false,
        }
    }

    /// The latest recorded snapshot reference of the offering (0 if none).
    pub fn get_last_snapshot_ref(&self, issuer: Address, token: Address) -> (r: u64)
        ensures
            r == match lookup(self@.last_snapshot_refs, (issuer, token)) {
                Some(s) => s,
                None => 0,
            },
    {
        match self.read_last_snapshot_refs(&(issuer, token)) {
            Some(s) => s,
            None => 0,
        }
    }

    /// Set the claim delay of the offering in seconds (0 = immediate claim).
    /// Only the current issuer.
    pub fn set_claim_delay(
        &mut self,
        signers: &Vec<Address>,
        issuer: Address,
        token: Address,
        delay_secs: u64,
    ) -> (r: Result<(), Failure>)
        requires
            old(self).wf(),
        ensures
            final(self).wf(),
            old(self)@.proposals_kept(final(self)@),
            r == issuer_only_outcome(old(self)@, signers@, issuer, token, RevoraError::OfferingNotFound),
            r is Err ==> final(self)@ == old(self)@ && final(self).host_calls() == old(
                self,
            ).host_calls(),
            r is Ok ==> final(self)@ == (RevoraView {
                claim_delays: old(self)@.claim_delays.insert(token, delay_secs),
                ..old(self)@
            }) && final(self).host_calls() == old(self).host_calls().push(
                HostCallOf::Publish(EventOf::ClaimDelaySet { issuer, token, delay_secs }),
            ),
    {
        self.require_current_issuer(signers, &issuer, &token, RevoraError::OfferingNotFound)?;
        self.write_claim_delays(token, delay_secs);
        self.emit(EventOf::ClaimDelaySet { issuer, token, delay_secs });
        Ok(())
    }

    /// Get the claim delay of the offering in seconds (0 = immediate claim).
    pub fn get_claim_delay(&self, token: Address) -> (r: u64)
        ensures
            r == self@.claim_delay(token),
    {
        match self.read_claim_delays(&token) {
            Some(d) => d,
            None => 0,
        }
    }

    /// Set the share of `holder` in the offering, in basis points (at most
    /// 10000). Only the current issuer.
    pub fn set_holder_share(
        &mut self,
        signers: &Vec<Address>,
        issuer: Address,
        token: Address,
        holder: Address,
        share_bps: u32,
    ) -> (r: Result<(), Failure>)
        requires
            old(self).wf(),
        ensures
            final(self).wf(),
            old(self)@.proposals_kept(final(self)@),
            issuer_only_outcome(
                old(self)@,
                signers@,
                issuer,
                token,
                RevoraError::OfferingNotFound,
            ) is Err ==> r == issuer_only_outcome(
                old(self)@,
                signers@,
                issuer,
                token,
                RevoraError::OfferingNotFound,
            ),
            issuer_only_outcome(old(self)@, signers@, issuer, token, RevoraError::OfferingNotFound)
                is Ok && share_bps > 10_000 ==> r == Err::<(), Failure>(
                Failure::Contract(RevoraError::InvalidShareBps),
            ),
            issuer_only_outcome(old(self)@, signers@, issuer, token, RevoraError::OfferingNotFound)
                is Ok && share_bps <= 10_000 ==> r is Ok,
            r is Err ==> final(self)@ == old(self)@ && final(self).host_calls() == old(
                self,
            ).host_calls(),
            r is Ok ==> final(self)@ == (RevoraView {
                holder_shares: old(self)@.holder_shares.insert((token, holder), share_bps),
                ..old(self)@
            }) && final(self).host_calls() == old(self).host_calls().push(
                HostCallOf::Publish(EventOf::HolderShareSet { issuer, token, holder, share_bps }),
            ),
    {
        self.require_current_issuer(signers, &issuer, &token, RevoraError::OfferingNotFound)?;
        if share_bps > 10_000 {
            return Err(Failure::Contract(RevoraError::InvalidShareBps));
        }
        self.write_holder_shares((token, holder), share_bps);
        self.emit(EventOf::HolderShareSet { issuer, token, holder, share_bps });
        Ok(())
    }

    /// Return the share of `holder` in the offering of `token` (0 if unset).
    pub fn get_holder_share(&self, token: Address, holder: Address) -> (r: u32)
        ensures
            r == self@.holder_share(token, holder),
    {
        match self.read_holder_shares(&(token, holder)) {
            Some(s) => s,
            None => 0,
        }
    }
}

} // verus!
