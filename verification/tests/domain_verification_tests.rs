use tipz::errors::ContractError;
use tipz::profile::{get_profile_with_deactivation, register_profile, set_domain};
use tipz::storage::{RuntimeConfig, Tipz};
use tipz::types::{Address, RateLimitConfig, VerificationStatus, VerificationType};

const NOW: u64 = 50_000;

fn setup_env() -> (Tipz, Address, Address) {
    let mut state = Tipz::new(Address { id: 1_000 });
    let admin = Address { id: 1 };
    let fee_collector = Address { id: 2 };
    let token_address = Address { id: 900 };
    state.set_admin(admin);
    state.set_fee_collector(fee_collector);
    state.set_fee_bps(200);
    state.set_native_token(token_address);
    state.set_runtime_config(RuntimeConfig {
        admin,
        fee_collector,
        fee_bps: 200,
        native_token: token_address,
        paused: false,
        min_tip_amount: 0,
        rate_limit: RateLimitConfig { max_ops: 50, window_secs: 3600 },
        domain_reverify_secs: 0,
    });
    state.set_initialized();
    let creator = Address { id: 4 };
    register_profile(&mut state, creator, b"alice".to_vec(), b"Alice".to_vec(), Vec::new(), Vec::new(), Vec::new(), NOW)
        .unwrap();
    (state, creator, admin)
}

/// Marks the creator's domain as verified at `at`, as the admin's
/// verification does.
fn mark_verified(state: &mut Tipz, creator: Address, at: u64) {
    let mut profile = state.get_profile(creator).clone();
    profile.domain_verified = true;
    profile.domain_verified_at = Some(at);
    profile.verification = VerificationStatus {
        is_verified: true,
        verification_type: VerificationType::Identity,
        verified_at: Some(at),
        revoked_at: None,
    };
    state.set_profile(profile);
}

#[test]
fn test_set_domain_for_verification() {
    let (mut state, creator, _admin) = setup_env();
    let domain = b"alice.com".to_vec();

    set_domain(&mut state, creator, domain.clone(), NOW).unwrap();

    let profile = get_profile_with_deactivation(&mut state, creator, NOW).unwrap().profile;
    assert_eq!(profile.domain, domain);
    assert!(!profile.domain_verified);
}

#[test]
fn test_domain_reverification_expires_stale_verification() {
    let (mut state, creator, _admin) = setup_env();
    let domain = b"alice.com".to_vec();

    state.set_domain_reverification_interval(86_400_u64);
    set_domain(&mut state, creator, domain, NOW).unwrap();
    mark_verified(&mut state, creator, NOW);

    let profile = get_profile_with_deactivation(&mut state, creator, NOW + 86_401).unwrap().profile;
    assert!(!profile.domain_verified);
    assert!(!profile.verification.is_verified);
    assert_eq!(profile.verification.revoked_at, Some(NOW + 86_401));
}

#[test]
fn verification_holds_until_the_interval_ends() {
    let (mut state, creator, _admin) = setup_env();
    state.set_domain_reverification_interval(86_400_u64);
    set_domain(&mut state, creator, b"alice.com".to_vec(), NOW).unwrap();
    mark_verified(&mut state, creator, NOW);
    let profile = get_profile_with_deactivation(&mut state, creator, NOW + 86_400).unwrap().profile;
    assert!(profile.domain_verified);
    assert!(profile.verification.is_verified);
}

#[test]
fn invalid_domains_are_refused() {
    let (mut state, creator, _admin) = setup_env();
    assert_eq!(set_domain(&mut state, creator, b"localhost".to_vec(), NOW), Err(ContractError::InvalidDomain));
    assert_eq!(set_domain(&mut state, creator, b"bad domain.com".to_vec(), NOW), Err(ContractError::InvalidDomain));
    assert_eq!(set_domain(&mut state, creator, Vec::new(), NOW), Err(ContractError::InvalidDomain));
    assert_eq!(set_domain(&mut state, Address { id: 99 }, b"a.com".to_vec(), NOW), Err(ContractError::NotRegistered));
    assert_eq!(
        get_profile_with_deactivation(&mut state, Address { id: 99 }, NOW).unwrap_err(),
        ContractError::NotRegistered
    );
}
