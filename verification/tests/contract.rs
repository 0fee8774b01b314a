use revora::{
    Address, EventOf, Failure, HostCallOf, ProposalAction, RevoraError, RevoraRevenueShare,
    RoundingMode, Trap,
};

fn addr(n: u128) -> Address {
    Address { contract: false, hi: 0, lo: n }
}

fn contract_addr(n: u128) -> Address {
    Address { contract: true, hi: 0, lo: n }
}

fn err(e: RevoraError) -> Result<(), Failure> {
    Err(Failure::Contract(e))
}

/// A contract with one offering (issuer 1, token 2, 10% share, payout asset 3).
fn with_offering() -> (RevoraRevenueShare, Vec<Address>, Address, Address, Address) {
    let mut c = RevoraRevenueShare::new();
    let issuer = addr(1);
    let token = addr(2);
    let asset = addr(3);
    let signers: Vec<Address> = (1..=20).map(addr).collect();
    c.register_offering(&signers, issuer, token, 1_000, asset).unwrap();
    (c, signers, issuer, token, asset)
}

#[test]
fn compute_share_exact_values() {
    assert_eq!(RevoraRevenueShare::compute_share(1_000, 2_500, RoundingMode::Truncation), 250);
    assert_eq!(RevoraRevenueShare::compute_share(1, 5_000, RoundingMode::Truncation), 0);
    assert_eq!(RevoraRevenueShare::compute_share(1, 5_000, RoundingMode::RoundHalfUp), 1);
    assert_eq!(RevoraRevenueShare::compute_share(1, 4_999, RoundingMode::RoundHalfUp), 0);
    assert_eq!(RevoraRevenueShare::compute_share(-1, 5_000, RoundingMode::RoundHalfUp), -1);
    assert_eq!(RevoraRevenueShare::compute_share(-3, 5_000, RoundingMode::Truncation), -1);
    assert_eq!(RevoraRevenueShare::compute_share(1_000, 10_001, RoundingMode::Truncation), 0);
    assert_eq!(RevoraRevenueShare::compute_share(i128::MAX, 10_000, RoundingMode::Truncation), 0);
    assert_eq!(RevoraRevenueShare::compute_share(777, 10_000, RoundingMode::RoundHalfUp), 777);
}

#[test]
fn truncated_shares_never_exceed_amount() {
    let amount = 100i128;
    let total: i128 = [3_333u32, 3_333, 3_334]
        .iter()
        .map(|b| RevoraRevenueShare::compute_share(amount, *b, RoundingMode::Truncation))
        .sum();
    assert_eq!(total, 99);
    assert!(total <= amount);
    let rounded: i128 = [5_000u32, 5_000]
        .iter()
        .map(|b| RevoraRevenueShare::compute_share(1, *b, RoundingMode::RoundHalfUp))
        .sum();
    assert_eq!(rounded, 2);
}

#[test]
fn input_validation_helpers() {
    assert_eq!(RevoraRevenueShare::require_positive_amount(1), Ok(()));
    assert_eq!(RevoraRevenueShare::require_positive_amount(0), Err(RevoraError::InvalidAmount));
    assert_eq!(RevoraRevenueShare::require_valid_period_id(7), Ok(()));
    assert_eq!(RevoraRevenueShare::require_valid_period_id(0), Err(RevoraError::InvalidPeriodId));
    assert_eq!(RevoraRevenueShare::require_non_negative_amount(0), Ok(()));
    assert_eq!(RevoraRevenueShare::require_non_negative_amount(-1), Err(RevoraError::InvalidAmount));
}

#[test]
fn error_codes_are_stable() {
    assert_eq!(RevoraError::InvalidRevenueShareBps.code(), 1);
    assert_eq!(RevoraError::ContractFrozen.code(), 10);
    assert_eq!(RevoraError::MetadataTooLarge.code(), 18);
    assert_eq!(RevoraError::InvalidPeriodId.code(), 22);
}

#[test]
fn initialize_only_once() {
    let mut c = RevoraRevenueShare::new();
    c.initialize(addr(1), None, Some(false)).unwrap();
    assert_eq!(c.initialize(addr(2), None, None), Err(Trap::AlreadyInitialized));
    assert_eq!(c.get_admin(), Some(addr(1)));
    let calls = c.take_host_calls();
    assert_eq!(calls.len(), 1);
    assert!(matches!(calls[0], HostCallOf::Publish(EventOf::Initialized { event_only: false, .. })));
}

#[test]
fn register_offering_rules() {
    let (mut c, signers, issuer, token, asset) = with_offering();
    assert_eq!(
        c.register_offering(&signers, issuer, addr(9), 10_001, asset),
        err(RevoraError::InvalidRevenueShareBps)
    );
    assert_eq!(c.get_offering_count(issuer), 1);
    let o = c.get_offering(issuer, token).unwrap();
    assert_eq!(o.revenue_share_bps, 1_000);
    assert_eq!(o.payout_asset, asset);
    assert_eq!(c.get_all_issuers(), vec![issuer]);
    c.register_offering(&signers, issuer, addr(9), 500, asset).unwrap();
    assert_eq!(c.get_all_issuers(), vec![issuer]);
    assert_eq!(c.list_offerings(issuer), vec![token, addr(9)]);
}

#[test]
fn offerings_are_paged_in_registration_order() {
    let mut c = RevoraRevenueShare::new();
    let issuer = addr(1);
    let signers = vec![issuer];
    for i in 0..25u128 {
        c.register_offering(&signers, issuer, addr(100 + i), 100, addr(3)).unwrap();
    }
    let (page, next) = c.get_offerings_page(issuer, 0, 0).unwrap();
    assert_eq!(page.len(), 20);
    assert_eq!(next, Some(20));
    assert_eq!(page[0].token, addr(100));
    let (page, next) = c.get_offerings_page(issuer, 20, 10).unwrap();
    assert_eq!(page.len(), 5);
    assert_eq!(next, None);
    assert_eq!(page[4].token, addr(124));
    let (page, next) = c.get_offerings_page(issuer, 30, 10).unwrap();
    assert!(page.is_empty());
    assert_eq!(next, None);
    assert_eq!(c.list_offerings(issuer).len(), 20);
}

#[test]
fn frozen_contract_rejects_changes_but_not_claims() {
    let (mut c, signers, issuer, token, asset) = with_offering();
    c.set_admin(&signers, addr(10)).unwrap();
    c.freeze(&signers).unwrap();
    assert!(c.is_frozen());
    assert_eq!(
        c.register_offering(&signers, issuer, addr(9), 100, asset),
        err(RevoraError::ContractFrozen)
    );
    assert_eq!(
        c.set_holder_share(&signers, issuer, token, addr(5), 100),
        err(RevoraError::ContractFrozen)
    );
    assert_eq!(
        c.claim(&signers, addr(5), token, 0, 0),
        Err(Failure::Contract(RevoraError::NoPendingClaims))
    );
}

#[test]
fn pause_blocks_registration() {
    let (mut c, signers, issuer, _token, asset) = with_offering();
    c.initialize(addr(10), Some(addr(11)), None).unwrap();
    c.pause_safety(&signers, addr(11)).unwrap();
    assert_eq!(
        c.register_offering(&signers, issuer, addr(9), 100, asset),
        Err(Failure::Trap(Trap::Paused))
    );
    assert_eq!(c.pause_admin(&signers, addr(11)), Err(Trap::NotAdmin));
    c.unpause_admin(&signers, addr(10)).unwrap();
    c.register_offering(&signers, issuer, addr(9), 100, asset).unwrap();
}

#[test]
fn revenue_reports_initial_override_rejected() {
    let (mut c, signers, issuer, token, asset) = with_offering();
    c.take_host_calls();
    c.report_revenue(&signers, issuer, token, asset, 500, 1, false, 10).unwrap();
    assert_eq!(c.get_revenue_by_period(token, 1), 500);
    let calls = c.take_host_calls();
    assert_eq!(calls.len(), 4);
    assert!(matches!(calls[0], HostCallOf::Publish(EventOf::RevenueReportInitial { amount: 500, .. })));
    c.report_revenue(&signers, issuer, token, asset, 700, 1, false, 11).unwrap();
    let calls = c.take_host_calls();
    assert!(matches!(
        calls[0],
        HostCallOf::Publish(EventOf::RevenueReportRejected { existing_amount: 500, .. })
    ));
    c.report_revenue(&signers, issuer, token, asset, 900, 1, true, 12).unwrap();
    let calls = c.take_host_calls();
    assert!(matches!(
        calls[0],
        HostCallOf::Publish(EventOf::RevenueReportOverride { previous_amount: 500, .. })
    ));
    assert_eq!(c.get_revenue_by_period(token, 1), 500);
    let summary = c.get_audit_summary(issuer, token).unwrap();
    assert_eq!(summary.report_count, 3);
    assert_eq!(summary.total_revenue, 2_100);
    assert_eq!(
        c.report_revenue(&signers, issuer, token, addr(4), 1, 2, false, 0),
        err(RevoraError::PayoutAssetMismatch)
    );
    assert_eq!(
        c.report_revenue(&signers, addr(7), token, asset, 1, 2, false, 0),
        err(RevoraError::OfferingNotFound)
    );
}

#[test]
fn concentration_limit_enforced() {
    let (mut c, signers, issuer, token, asset) = with_offering();
    c.set_concentration_limit(&signers, issuer, token, 3_000, true).unwrap();
    c.take_host_calls();
    c.report_concentration(&signers, issuer, token, 4_000).unwrap();
    let calls = c.take_host_calls();
    assert!(matches!(
        calls[0],
        HostCallOf::Publish(EventOf::ConcentrationWarning { concentration_bps: 4_000, max_bps: 3_000, .. })
    ));
    assert_eq!(c.get_current_concentration(issuer, token), Some(4_000));
    assert_eq!(
        c.report_revenue(&signers, issuer, token, asset, 1, 1, false, 0),
        err(RevoraError::ConcentrationLimitExceeded)
    );
    assert_eq!(
        c.set_concentration_limit(&signers, addr(7), token, 1, true),
        err(RevoraError::LimitReached)
    );
}

#[test]
fn revenue_range_sums_and_overflows() {
    let (mut c, signers, issuer, token, asset) = with_offering();
    c.report_revenue(&signers, issuer, token, asset, 10, 1, false, 0).unwrap();
    c.report_revenue(&signers, issuer, token, asset, 20, 3, false, 0).unwrap();
    assert_eq!(c.get_revenue_range(token, 1, 3), Ok(30));
    assert_eq!(c.get_revenue_range(token, 3, 1), Ok(0));
    c.report_revenue(&signers, issuer, token, asset, i128::MAX, 4, false, 0).unwrap();
    assert_eq!(c.get_revenue_range(token, 1, 4), Err(Trap::ArithmeticOverflow));
}

#[test]
fn deposit_then_claim_pays_each_period_once() {
    let (mut c, signers, issuer, token, _asset) = with_offering();
    let holder = addr(5);
    let pay = addr(6);
    c.set_holder_share(&signers, issuer, token, holder, 2_500).unwrap();
    c.deposit_revenue(issuer, token, pay, 1_000, 1, 100).unwrap();
    c.deposit_revenue(issuer, token, pay, 401, 2, 100).unwrap();
    assert_eq!(c.get_period_count(token), 2);
    assert_eq!(c.get_pending_periods(token, holder), vec![1, 2]);
    assert_eq!(c.get_claimable(token, holder, 100), Ok(350));
    c.take_host_calls();
    assert_eq!(c.claim(&signers, holder, token, 0, 100), Ok(350));
    let calls = c.take_host_calls();
    assert!(matches!(calls[0], HostCallOf::PayOut { amount: 350, .. }));
    assert!(matches!(calls[1], HostCallOf::Publish(EventOf::Claimed { total_payout: 350, .. })));
    assert!(c.get_pending_periods(token, holder).is_empty());
    assert_eq!(
        c.claim(&signers, holder, token, 0, 100),
        Err(Failure::Contract(RevoraError::NoPendingClaims))
    );
    assert_eq!(
        c.deposit_revenue(issuer, token, pay, 1, 1, 100),
        err(RevoraError::PeriodAlreadyDeposited)
    );
    assert_eq!(
        c.deposit_revenue(issuer, token, addr(8), 1, 3, 100),
        err(RevoraError::PaymentTokenMismatch)
    );
    assert_eq!(c.get_total_deposited_revenue(token), 1_401);
}

#[test]
fn claims_respect_delay_and_cap() {
    let (mut c, signers, issuer, token, _asset) = with_offering();
    let holder = addr(5);
    let pay = addr(6);
    c.set_holder_share(&signers, issuer, token, holder, 10_000).unwrap();
    c.set_claim_delay(&signers, issuer, token, 50).unwrap();
    c.deposit_revenue(issuer, token, pay, 10, 1, 100).unwrap();
    c.deposit_revenue(issuer, token, pay, 20, 2, 200).unwrap();
    assert_eq!(
        c.claim(&signers, holder, token, 0, 120),
        Err(Failure::Contract(RevoraError::ClaimDelayNotElapsed))
    );
    assert_eq!(c.get_claimable(token, holder, 160), Ok(10));
    assert_eq!(c.claim(&signers, holder, token, 0, 160), Ok(10));
    assert_eq!(c.get_pending_periods(token, holder), vec![2]);
    assert_eq!(c.claim(&signers, holder, token, 1, 300), Ok(20));
    assert_eq!(
        c.claim(&signers, addr(12), token, 0, 300),
        Err(Failure::Contract(RevoraError::NoPendingClaims))
    );
}

#[test]
fn claim_visits_at_most_the_requested_periods() {
    let (mut c, signers, issuer, token, _asset) = with_offering();
    let holder = addr(5);
    c.set_holder_share(&signers, issuer, token, holder, 10_000).unwrap();
    for p in 1..=3u64 {
        c.deposit_revenue(issuer, token, addr(6), 1, p, 0).unwrap();
    }
    assert_eq!(c.claim(&signers, holder, token, 2, 0), Ok(2));
    assert_eq!(c.get_pending_periods(token, holder), vec![3]);
}

#[test]
fn blacklisted_holder_cannot_claim() {
    let (mut c, signers, issuer, token, _asset) = with_offering();
    let holder = addr(5);
    c.set_holder_share(&signers, issuer, token, holder, 100).unwrap();
    c.deposit_revenue(issuer, token, addr(6), 100, 1, 0).unwrap();
    c.blacklist_add(&signers, issuer, token, holder).unwrap();
    c.blacklist_add(&signers, issuer, token, holder).unwrap();
    c.blacklist_add(&signers, issuer, token, addr(9)).unwrap();
    assert_eq!(c.get_blacklist(token), vec![holder, addr(9)]);
    assert_eq!(
        c.claim(&signers, holder, token, 0, 0),
        Err(Failure::Contract(RevoraError::HolderBlacklisted))
    );
    assert_eq!(
        c.calculate_distribution(&signers, issuer, issuer, token, 100, 10, 1, holder),
        Err(Trap::HolderBlacklisted)
    );
    assert_eq!(
        c.blacklist_remove(&signers, issuer, token, holder),
        err(RevoraError::NotInitialized)
    );
    assert_eq!(c.get_blacklist(token), vec![holder, addr(9)]);
    assert_eq!(
        c.blacklist_add(&signers, addr(12), token, holder),
        err(RevoraError::NotInitialized)
    );
    c.set_admin(&signers, addr(13)).unwrap();
    c.blacklist_remove(&signers, issuer, token, holder).unwrap();
    assert_eq!(c.get_blacklist(token), vec![addr(9)]);
    c.blacklist_remove(&signers, issuer, token, holder).unwrap();
    assert_eq!(c.get_blacklist(token), vec![addr(9)]);
    assert!(!c.is_blacklisted(token, holder));
    assert_eq!(
        c.blacklist_add(&signers, addr(12), token, holder),
        err(RevoraError::NotAuthorized)
    );
    c.blacklist_add(&signers, addr(13), token, holder).unwrap();
    assert!(c.is_blacklisted(token, holder));
}

#[test]
fn whitelist_is_kept_in_address_order() {
    let (mut c, signers, _issuer, token, _asset) = with_offering();
    assert!(!c.is_whitelist_enabled(token));
    c.whitelist_add(&signers, addr(1), token, contract_addr(1)).unwrap();
    c.whitelist_add(&signers, addr(1), token, addr(9)).unwrap();
    c.whitelist_add(&signers, addr(1), token, addr(4)).unwrap();
    c.whitelist_add(&signers, addr(1), token, addr(9)).unwrap();
    assert_eq!(c.get_whitelist(token), vec![addr(4), addr(9), contract_addr(1)]);
    assert!(c.is_whitelisted(token, addr(9)));
    assert!(c.is_whitelist_enabled(token));
    c.whitelist_remove(&signers, addr(1), token, addr(9)).unwrap();
    assert_eq!(c.get_whitelist(token), vec![addr(4), contract_addr(1)]);
    assert_eq!(
        c.whitelist_add(&Vec::new(), addr(1), token, addr(2)),
        Err(Trap::Unauthorized(addr(1)))
    );
}

#[test]
fn issuer_transfer_two_steps() {
    let (mut c, signers, issuer, token, asset) = with_offering();
    c.register_offering(&signers, issuer, addr(9), 100, asset).unwrap();
    let new_issuer = addr(7);
    assert_eq!(c.accept_issuer_transfer(&signers, token), err(RevoraError::NoTransferPending));
    c.propose_issuer_transfer(&signers, token, new_issuer).unwrap();
    assert_eq!(
        c.propose_issuer_transfer(&signers, token, addr(8)),
        err(RevoraError::IssuerTransferPending)
    );
    assert_eq!(c.get_pending_issuer_transfer(token), Some(new_issuer));
    assert_eq!(
        c.accept_issuer_transfer(&vec![issuer], token),
        Err(Failure::Trap(Trap::Unauthorized(new_issuer)))
    );
    c.accept_issuer_transfer(&signers, token).unwrap();
    assert_eq!(c.get_pending_issuer_transfer(token), None);
    assert_eq!(c.get_offering_count(issuer), 1);
    assert_eq!(c.get_offering(issuer, addr(9)).unwrap().token, addr(9));
    assert_eq!(c.get_offering(new_issuer, token).unwrap().issuer, new_issuer);
    assert_eq!(
        c.set_holder_share(&signers, issuer, token, addr(5), 1),
        err(RevoraError::OfferingNotFound)
    );
    c.set_holder_share(&signers, new_issuer, token, addr(5), 1).unwrap();
    c.propose_issuer_transfer(&signers, token, addr(8)).unwrap();
    c.cancel_issuer_transfer(&signers, token).unwrap();
    assert_eq!(c.cancel_issuer_transfer(&signers, token), err(RevoraError::NoTransferPending));
}

#[test]
fn multisig_flow() {
    let mut c = RevoraRevenueShare::new();
    let owners = vec![addr(1), addr(2), addr(3)];
    let signers = owners.clone();
    assert_eq!(c.init_multisig(&signers, addr(1), owners.clone(), 4), err(RevoraError::LimitReached));
    c.init_multisig(&signers, addr(1), owners.clone(), 2).unwrap();
    assert_eq!(c.get_multisig_threshold(), Some(2));
    assert_eq!(c.set_admin(&signers, addr(1)), err(RevoraError::LimitReached));
    let id = c.propose_action(&signers, addr(1), ProposalAction::SetAdmin(addr(9))).unwrap();
    assert_eq!(id, 0);
    assert_eq!(c.execute_action(id), err(RevoraError::LimitReached));
    c.approve_action(&signers, addr(2), id).unwrap();
    c.approve_action(&signers, addr(2), id).unwrap();
    assert_eq!(c.get_proposal(id).unwrap().approvals.len(), 2);
    c.execute_action(id).unwrap();
    assert_eq!(c.get_admin(), Some(addr(9)));
    assert!(c.get_proposal(id).unwrap().executed);
    assert_eq!(c.execute_action(id), err(RevoraError::LimitReached));
    assert_eq!(
        c.propose_action(&vec![addr(7)], addr(7), ProposalAction::Freeze),
        Err(Failure::Contract(RevoraError::LimitReached))
    );
    let id = c.propose_action(&signers, addr(1), ProposalAction::SetThreshold(5)).unwrap();
    c.approve_action(&signers, addr(3), id).unwrap();
    assert_eq!(c.execute_action(id), err(RevoraError::InvalidShareBps));
    let id = c.propose_action(&signers, addr(1), ProposalAction::RemoveOwner(addr(3))).unwrap();
    c.approve_action(&signers, addr(3), id).unwrap();
    c.execute_action(id).unwrap();
    assert_eq!(c.get_multisig_owners(), vec![addr(1), addr(2)]);
    let id = c.propose_action(&signers, addr(1), ProposalAction::RemoveOwner(addr(2))).unwrap();
    c.approve_action(&signers, addr(2), id).unwrap();
    assert_eq!(c.execute_action(id), err(RevoraError::LimitReached));
    assert_eq!(c.approve_action(&signers, addr(1), 99), err(RevoraError::OfferingNotFound));
}

#[test]
fn distribution_arithmetic() {
    let (mut c, signers, issuer, token, _asset) = with_offering();
    assert_eq!(c.calculate_total_distributable(issuer, token, 10_000), Ok(1_000));
    assert_eq!(c.calculate_total_distributable(issuer, token, -19), Ok(-1));
    assert_eq!(c.calculate_total_distributable(issuer, addr(9), 1), Err(Trap::OfferingNotFound));
    assert_eq!(
        c.calculate_distribution(&signers, issuer, issuer, token, 10_000, 100, 25, addr(5)),
        Ok(250)
    );
    assert_eq!(
        c.calculate_distribution(&signers, issuer, issuer, token, 10_000, 0, 25, addr(5)),
        Err(Trap::ZeroTotalSupply)
    );
    assert_eq!(
        c.calculate_distribution(&signers, issuer, issuer, token, 0, 100, 25, addr(5)),
        Ok(0)
    );
    assert_eq!(
        c.calculate_distribution(&signers, issuer, issuer, token, i128::MAX, 100, 25, addr(5)),
        Err(Trap::ArithmeticOverflow)
    );
}

#[test]
fn simulate_distribution_uses_rounding_mode() {
    let (mut c, signers, issuer, token, _asset) = with_offering();
    c.set_rounding_mode(&signers, issuer, token, RoundingMode::RoundHalfUp).unwrap();
    let shares = vec![(addr(5), 5_000u32), (addr(6), 5_000u32), (addr(7), 20_000u32)];
    let result = c.simulate_distribution(issuer, token, 1, &shares);
    assert_eq!(result.payouts, vec![(addr(5), 1), (addr(6), 1), (addr(7), 0)]);
    assert_eq!(result.total_distributed, 2);
}

#[test]
fn aggregation_sums_reports_and_deposits() {
    let (mut c, signers, issuer, token, asset) = with_offering();
    c.report_revenue(&signers, issuer, token, asset, 300, 1, false, 0).unwrap();
    c.deposit_revenue(issuer, token, addr(6), 200, 1, 0).unwrap();
    c.register_offering(&signers, addr(11), addr(12), 100, asset).unwrap();
    c.report_revenue(&signers, addr(11), addr(12), asset, 5, 1, false, 0).unwrap();
    let m = c.get_issuer_aggregation(issuer);
    assert_eq!(m.total_reported_revenue, 300);
    assert_eq!(m.total_deposited_revenue, 200);
    assert_eq!(m.total_report_count, 1);
    assert_eq!(m.offering_count, 1);
    let p = c.get_platform_aggregation();
    assert_eq!(p.total_reported_revenue, 305);
    assert_eq!(p.total_report_count, 2);
    assert_eq!(p.offering_count, 2);
}

#[test]
fn snapshot_deposits_need_increasing_references() {
    let (mut c, signers, issuer, token, _asset) = with_offering();
    assert_eq!(
        c.deposit_revenue_with_snapshot(&signers, issuer, token, addr(6), 10, 1, 5, 0),
        err(RevoraError::SnapshotNotEnabled)
    );
    c.set_snapshot_config(&signers, issuer, token, true).unwrap();
    assert!(c.get_snapshot_config(issuer, token));
    c.deposit_revenue_with_snapshot(&signers, issuer, token, addr(6), 10, 1, 5, 0).unwrap();
    assert_eq!(c.get_last_snapshot_ref(issuer, token), 5);
    assert_eq!(
        c.deposit_revenue_with_snapshot(&signers, issuer, token, addr(6), 10, 2, 5, 0),
        err(RevoraError::OutdatedSnapshot)
    );
    c.deposit_revenue_with_snapshot(&signers, issuer, token, addr(6), 10, 2, 6, 0).unwrap();
    assert_eq!(c.get_period_count(token), 2);
}

#[test]
fn settings_read_back() {
    let (mut c, signers, issuer, token, _asset) = with_offering();
    c.set_min_revenue_threshold(&signers, issuer, token, 40).unwrap();
    assert_eq!(c.get_min_revenue_threshold(issuer, token), 40);
    assert_eq!(
        c.set_min_revenue_threshold(&signers, issuer, token, -1),
        err(RevoraError::InvalidAmount)
    );
    assert_eq!(
        c.set_holder_share(&signers, issuer, token, addr(5), 10_001),
        err(RevoraError::InvalidShareBps)
    );
    c.set_offering_metadata(&signers, issuer, token, b"ipfs://x".to_vec()).unwrap();
    assert_eq!(c.get_offering_metadata(issuer, token), Some(b"ipfs://x".to_vec()));
    assert_eq!(
        c.set_offering_metadata(&signers, issuer, token, vec![b'a'; 257]),
        err(RevoraError::MetadataTooLarge)
    );
    c.set_admin(&signers, addr(10)).unwrap();
    c.set_platform_fee(&signers, 250).unwrap();
    assert_eq!(c.get_platform_fee(), 250);
    assert_eq!(c.calculate_platform_fee(10_000), Ok(250));
    assert_eq!(c.set_platform_fee(&signers, 5_001), err(RevoraError::LimitReached));
    c.set_testnet_mode(&signers, true).unwrap();
    assert!(c.is_testnet_mode());
    c.register_offering(&signers, issuer, addr(9), 20_000, addr(3)).unwrap();
    assert_eq!(RevoraRevenueShare::get_version(), 1);
}

#[test]
fn event_only_mode_keeps_no_offerings() {
    let mut c = RevoraRevenueShare::new();
    c.initialize(addr(10), None, Some(true)).unwrap();
    assert!(c.is_event_only());
    c.register_offering(&vec![addr(1)], addr(1), addr(2), 100, addr(3)).unwrap();
    assert_eq!(c.get_offering_count(addr(1)), 0);
    assert_eq!(c.get_all_issuers(), vec![addr(1)]);
    c.take_host_calls();
    c.report_revenue(&vec![addr(1)], addr(1), addr(2), addr(3), 5, 1, false, 0).unwrap();
    let calls = c.take_host_calls();
    assert_eq!(calls.len(), 3);
}

#[test]
fn transfer_keeps_remaining_offerings_in_creation_order() {
    let mut c = RevoraRevenueShare::new();
    let signers: Vec<Address> = (1..=20).map(addr).collect();
    let (old, n, a, b, d) = (addr(1), addr(2), addr(3), addr(4), addr(5));
    c.register_offering(&signers, old, a, 1_000, a).unwrap();
    c.register_offering(&signers, old, b, 1_000, b).unwrap();
    c.register_offering(&signers, old, d, 1_000, d).unwrap();
    c.propose_issuer_transfer(&signers, a, n).unwrap();
    c.accept_issuer_transfer(&signers, a).unwrap();
    assert_eq!(c.list_offerings(old), vec![b, d]);
    assert_eq!(c.list_offerings(n), vec![a]);
}

#[test]
fn paused_contract_rejects_every_change() {
    let (mut c, signers, issuer, token, _asset) = with_offering();
    let holder = addr(5);
    let pay = addr(6);
    c.initialize(addr(10), Some(addr(11)), None).unwrap();
    c.set_holder_share(&signers, issuer, token, holder, 1_000).unwrap();
    c.deposit_revenue(issuer, token, pay, 100, 1, 0).unwrap();
    c.pause_admin(&signers, addr(10)).unwrap();
    c.take_host_calls();
    let paused = Err(Failure::Trap(Trap::Paused));
    assert_eq!(c.deposit_revenue(issuer, token, pay, 100, 2, 0), paused);
    assert_eq!(c.get_period_count(token), 1);
    assert!(c.take_host_calls().is_empty());
    assert_eq!(c.claim(&signers, holder, token, 0, 0), Err(Failure::Trap(Trap::Paused)));
    assert_eq!(c.set_claim_delay(&signers, issuer, token, 5), paused);
    assert_eq!(c.set_holder_share(&signers, issuer, token, holder, 2), paused);
    assert_eq!(c.propose_issuer_transfer(&signers, token, addr(7)), paused);
    assert_eq!(c.whitelist_add(&signers, issuer, token, holder), Err(Trap::Paused));
    assert_eq!(c.freeze(&signers), paused);
    c.unpause_safety(&signers, addr(11)).unwrap();
    assert_eq!(c.claim(&signers, holder, token, 0, 0), Ok(10));
}

#[test]
fn issuer_registry_holds_each_issuer_once() {
    let (mut c, signers, issuer, _token, asset) = with_offering();
    c.register_offering(&signers, issuer, addr(9), 100, asset).unwrap();
    c.register_offering(&signers, addr(4), addr(8), 100, asset).unwrap();
    assert_eq!(c.get_all_issuers(), vec![issuer, addr(4)]);
}

#[test]
fn distribution_payouts_never_exceed_the_distributable_total() {
    let (mut c, signers, issuer, token, _asset) = with_offering();
    let distributable = c.calculate_total_distributable(issuer, token, 1_001).unwrap();
    assert_eq!(distributable, 100);
    let total: i128 = [(addr(5), 1i128), (addr(6), 1), (addr(7), 1)]
        .iter()
        .map(|(h, b)| c.calculate_distribution(&signers, issuer, issuer, token, 1_001, 3, *b, *h).unwrap())
        .sum();
    assert_eq!(total, 99);
    assert!(total <= distributable);
}

#[test]
fn executed_proposal_stays_executed() {
    let mut c = RevoraRevenueShare::new();
    let owners = vec![addr(1), addr(2)];
    c.init_multisig(&owners, addr(1), owners.clone(), 1).unwrap();
    let first = c.propose_action(&owners, addr(1), ProposalAction::SetAdmin(addr(9))).unwrap();
    c.execute_action(first).unwrap();
    let second = c.propose_action(&owners, addr(2), ProposalAction::AddOwner(addr(3))).unwrap();
    assert_eq!(second, first + 1);
    c.approve_action(&owners, addr(1), second).unwrap();
    c.execute_action(second).unwrap();
    assert!(c.get_proposal(first).unwrap().executed);
    assert_eq!(c.execute_action(first), err(RevoraError::LimitReached));
}

#[test]
fn frozen_contract_rejects_governance_and_whitelist_changes() {
    let (mut c, signers, issuer, token, _asset) = with_offering();
    c.initialize(addr(10), None, None).unwrap();
    c.freeze(&signers).unwrap();
    let frozen = err(RevoraError::ContractFrozen);
    assert_eq!(c.set_platform_fee(&signers, 100), frozen);
    assert_eq!(c.set_testnet_mode(&signers, true), frozen);
    assert_eq!(c.init_multisig(&signers, addr(10), vec![addr(10)], 1), frozen);
    assert_eq!(c.whitelist_add(&signers, issuer, token, addr(5)), Err(Trap::Frozen));
    assert_eq!(c.whitelist_remove(&signers, issuer, token, addr(5)), Err(Trap::Frozen));
    assert_eq!(c.get_platform_fee(), 0);
    assert!(!c.is_whitelist_enabled(token));
}
