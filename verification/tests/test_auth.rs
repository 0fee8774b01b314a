use revora::{Address, RevoraRevenueShare, RoundingMode};

fn addr(n: u128) -> Address {
    Address { contract: false, hi: 0, lo: n }
}

fn make_client() -> RevoraRevenueShare {
    RevoraRevenueShare::new()
}

/// Every address of the test authorizes (as when all auths are mocked).
fn all(addrs: &[Address]) -> Vec<Address> {
    addrs.to_vec()
}

fn init_admin_safety(client: &mut RevoraRevenueShare) -> (Address, Address) {
    let admin = addr(100);
    let safety = addr(101);
    client.initialize(admin, Some(safety), None).unwrap();
    (admin, safety)
}

fn setup_offering(client: &mut RevoraRevenueShare) -> (Address, Address) {
    let issuer = addr(200);
    let token = addr(201);
    client.register_offering(&all(&[issuer]), issuer, token, 1_000, token).unwrap();
    (issuer, token)
}

#[test]
fn pause_admin_unauthorized() {
    let mut client = make_client();
    let (admin, _safety) = init_admin_safety(&mut client);
    let attacker = addr(300);
    let signers = all(&[admin, attacker]);
    assert!(client.pause_admin(&signers, attacker).is_err());
    assert!(!client.is_paused());
    client.pause_admin(&signers, admin).unwrap();
    assert!(client.is_paused());
}

#[test]
fn unpause_admin_unauthorized() {
    let mut client = make_client();
    let (admin, _safety) = init_admin_safety(&mut client);
    let attacker = addr(300);
    let signers = all(&[admin, attacker]);
    client.pause_admin(&signers, admin).unwrap();
    assert!(client.unpause_admin(&signers, attacker).is_err());
    assert!(client.is_paused());
    client.unpause_admin(&signers, admin).unwrap();
    assert!(!client.is_paused());
}

#[test]
fn pause_safety_unauthorized() {
    let mut client = make_client();
    let (_admin, safety) = init_admin_safety(&mut client);
    let attacker = addr(300);
    let signers = all(&[safety, attacker]);
    assert!(client.pause_safety(&signers, attacker).is_err());
    assert!(!client.is_paused());
    client.pause_safety(&signers, safety).unwrap();
    assert!(client.is_paused());
}

#[test]
fn unpause_safety_unauthorized() {
    let mut client = make_client();
    let (_admin, safety) = init_admin_safety(&mut client);
    let attacker = addr(300);
    let signers = all(&[safety, attacker]);
    client.pause_safety(&signers, safety).unwrap();
    assert!(client.unpause_safety(&signers, attacker).is_err());
    assert!(client.is_paused());
    client.unpause_safety(&signers, safety).unwrap();
    assert!(!client.is_paused());
}

#[test]
fn set_testnet_mode_missing_auth() {
    let mut client = make_client();
    let (_admin, _safety) = init_admin_safety(&mut client);
    assert!(client.set_testnet_mode(&Vec::new(), true).is_err());
    assert!(!client.is_testnet_mode());
}

#[test]
fn set_platform_fee_missing_auth_no_mutation() {
    let mut client = make_client();
    let (_admin, _safety) = init_admin_safety(&mut client);
    assert!(client.set_platform_fee(&Vec::new(), 1_000).is_err());
    assert_eq!(client.get_platform_fee(), 0);
}

#[test]
fn freeze_missing_auth_no_mutation() {
    let mut client = make_client();
    let (_admin, _safety) = init_admin_safety(&mut client);
    assert!(client.freeze(&Vec::new()).is_err());
    assert!(!client.is_frozen());
}

#[test]
fn set_admin_missing_auth() {
    let mut client = make_client();
    let admin = addr(100);
    assert!(client.set_admin(&Vec::new(), admin).is_err());
    assert!(client.get_admin().is_none());
}

#[test]
fn set_admin_success() {
    let mut client = make_client();
    let admin = addr(100);
    client.set_admin(&all(&[admin]), admin).unwrap();
    assert_eq!(client.get_admin(), Some(admin));
}

#[test]
fn register_offering_missing_auth_no_mutation() {
    let mut client = make_client();
    let issuer = addr(200);
    let token = addr(201);
    assert!(client.register_offering(&Vec::new(), issuer, token, 1_000, token).is_err());
    assert_eq!(client.get_offering_count(issuer), 0);
}

#[test]
fn report_revenue_wrong_issuer_no_mutation() {
    let mut client = make_client();
    let (issuer, token) = setup_offering(&mut client);
    let attacker = addr(300);
    let signers = all(&[issuer, attacker]);
    assert!(client
        .report_revenue(&signers, attacker, token, token, 100, 1u64, false, 0)
        .is_err());
    assert!(client.get_audit_summary(issuer, token).is_none());
}

#[test]
fn deposit_revenue_wrong_issuer_no_mutation() {
    let mut client = make_client();
    let (_issuer, token) = setup_offering(&mut client);
    let attacker = addr(300);
    let payment_token = addr(400);
    assert!(client.deposit_revenue(attacker, token, payment_token, 100, 1u64, 0).is_err());
    assert_eq!(client.get_period_count(token), 0);
}

#[test]
fn set_holder_share_wrong_issuer_no_mutation() {
    let mut client = make_client();
    let (issuer, token) = setup_offering(&mut client);
    let attacker = addr(300);
    let holder = addr(301);
    let signers = all(&[issuer, attacker, holder]);
    assert!(client.set_holder_share(&signers, attacker, token, holder, 100u32).is_err());
    assert_eq!(client.get_holder_share(token, holder), 0);
}

#[test]
fn set_concentration_limit_wrong_issuer_no_mutation() {
    let mut client = make_client();
    let (issuer, token) = setup_offering(&mut client);
    let attacker = addr(300);
    let signers = all(&[issuer, attacker]);
    assert!(client.set_concentration_limit(&signers, attacker, token, 1_000u32, true).is_err());
    assert!(client.get_concentration_limit(issuer, token).is_none());
}

#[test]
fn set_rounding_mode_wrong_issuer_no_mutation() {
    let mut client = make_client();
    let (issuer, token) = setup_offering(&mut client);
    let attacker = addr(300);
    let signers = all(&[issuer, attacker]);
    assert!(client.set_rounding_mode(&signers, attacker, token, RoundingMode::RoundHalfUp).is_err());
    assert_eq!(client.get_rounding_mode(issuer, token), RoundingMode::Truncation);
}

#[test]
fn set_min_revenue_threshold_wrong_issuer_no_mutation() {
    let mut client = make_client();
    let (issuer, token) = setup_offering(&mut client);
    let attacker = addr(300);
    let signers = all(&[issuer, attacker]);
    assert!(client.set_min_revenue_threshold(&signers, attacker, token, 123i128).is_err());
    assert_eq!(client.get_min_revenue_threshold(issuer, token), 0);
}

#[test]
fn set_claim_delay_wrong_issuer_no_mutation() {
    let mut client = make_client();
    let (issuer, token) = setup_offering(&mut client);
    let attacker = addr(300);
    let signers = all(&[issuer, attacker]);
    assert!(client.set_claim_delay(&signers, attacker, token, 100u64).is_err());
    assert_eq!(client.get_claim_delay(token), 0);
}

#[test]
fn set_offering_metadata_wrong_issuer_no_mutation() {
    let mut client = make_client();
    let (issuer, token) = setup_offering(&mut client);
    let attacker = addr(300);
    let signers = all(&[issuer, attacker]);
    let meta: Vec<u8> = b"m".to_vec();
    assert!(client.set_offering_metadata(&signers, attacker, token, meta).is_err());
    assert!(client.get_offering_metadata(issuer, token).is_none());
}

#[test]
fn blacklist_add_wrong_caller_no_mutation() {
    let mut client = make_client();
    let (issuer, token) = setup_offering(&mut client);
    let attacker = addr(300);
    let investor = addr(301);
    let signers = all(&[issuer, attacker, investor]);
    assert!(client.blacklist_add(&signers, attacker, token, investor).is_err());
    assert!(!client.is_blacklisted(token, investor));
    let bl: Vec<Address> = client.get_blacklist(token);
    assert_eq!(bl.len(), 0);
}

#[test]
fn blacklist_remove_wrong_caller_no_mutation() {
    let mut client = make_client();
    let issuer = addr(200);
    let token = addr(201);
    let investor = addr(301);
    let attacker = addr(300);
    let signers = all(&[issuer, token, investor, attacker]);
    client.register_offering(&signers, issuer, token, 1_000, token).unwrap();
    client.blacklist_add(&signers, issuer, token, investor).unwrap();
    assert!(client.blacklist_remove(&signers, attacker, token, investor).is_err());
    assert!(client.is_blacklisted(token, investor));
}

#[test]
fn cross_offering_confusion_wrong_issuer_no_mutation() {
    let mut client = make_client();
    let issuer_a = addr(200);
    let issuer_b = addr(210);
    let token_a = addr(201);
    let token_b = addr(211);
    let holder = addr(301);
    let signers = all(&[issuer_a, issuer_b, token_a, token_b, holder]);
    client.register_offering(&signers, issuer_a, token_a, 1_000, token_a).unwrap();
    client.register_offering(&signers, issuer_b, token_b, 1_000, token_b).unwrap();
    assert!(client.set_holder_share(&signers, issuer_b, token_a, holder, 1_000u32).is_err());
    assert_eq!(client.get_holder_share(token_a, holder), 0);
}

#[test]
fn claim_missing_auth_no_mutation() {
    let mut client = make_client();
    let holder = addr(301);
    let token = addr(201);
    assert!(client.claim(&Vec::new(), holder, token, 0u32, 0).is_err());
}
