use tipz::storage::{RuntimeConfig, Tipz};
use tipz::types::{Address, Profile, RateLimitConfig, VerificationStatus};

fn make_state() -> Tipz {
    Tipz::new(Address { id: 1_000 })
}

fn bytes(s: &str) -> Vec<u8> {
    s.as_bytes().to_vec()
}

fn make_profile(owner: Address, username: &str, display_name: &str, balance: i128, registered_at: u64, updated_at: u64) -> Profile {
    Profile {
        owner,
        username: bytes(username),
        display_name: bytes(display_name),
        bio: bytes(""),
        website: bytes(""),
        image_url: bytes(""),
        social_links: Vec::new(),
        x_handle: bytes(""),
        x_followers: 0,
        x_engagement_avg: 0,
        credit_score: 40,
        total_tips_received: 0,
        total_tips_count: 0,
        balance,
        registered_at,
        updated_at,
        verification: VerificationStatus::unverified(),
        domain: bytes(""),
        domain_verified: false,
        domain_verified_at: None,
        custom_min_tip: None,
    }
}

#[test]
fn is_initialized_false_before_set() {
    let state = make_state();
    assert!(!state.is_initialized());
}

#[test]
fn is_initialized_true_after_set() {
    let mut state = make_state();
    state.set_initialized();
    assert!(state.is_initialized());
}

#[test]
fn set_and_get_admin() {
    let mut state = make_state();
    let admin = Address { id: 7 };
    state.set_admin(admin);
    assert_eq!(state.get_admin(), admin);
}

#[test]
fn get_fee_bps_defaults_to_zero() {
    let state = make_state();
    assert_eq!(state.get_fee_bps(), 0);
}

#[test]
fn set_and_get_fee_bps() {
    let mut state = make_state();
    state.set_fee_bps(200);
    assert_eq!(state.get_fee_bps(), 200);
}

#[test]
fn set_and_get_fee_collector() {
    let mut state = make_state();
    let collector = Address { id: 8 };
    state.set_fee_collector(collector);
    assert_eq!(state.get_fee_collector(), collector);
}

#[test]
fn has_profile_false_when_absent() {
    let state = make_state();
    let addr = Address { id: 9 };
    assert!(!state.has_profile(addr));
}

#[test]
fn set_profile_and_has_profile() {
    let mut state = make_state();
    let owner = Address { id: 10 };
    let profile = make_profile(owner, "alice", "Alice", 0, 0, 0);
    state.set_profile(profile);
    assert!(state.has_profile(owner));
}

#[test]
fn get_profile_round_trips() {
    let mut state = make_state();
    let owner = Address { id: 11 };
    let profile = make_profile(owner, "bob", "Bob", 500, 100, 200);
    state.set_profile(profile);
    let retrieved = state.get_profile(owner);
    assert_eq!(retrieved.username, bytes("bob"));
    assert_eq!(retrieved.balance, 500);
    assert_eq!(retrieved.registered_at, 100);
}

#[test]
fn get_username_address_none_when_absent() {
    let state = make_state();
    let username = bytes("ghost");
    assert_eq!(state.get_username_address(&username), None);
}

#[test]
fn set_and_get_username_address() {
    let mut state = make_state();
    let addr = Address { id: 12 };
    let username = bytes("alice");
    state.set_username_address(&username, addr);
    assert_eq!(state.get_username_address(&username), Some(addr));
}

#[test]
fn get_tip_count_defaults_to_zero() {
    let state = make_state();
    assert_eq!(state.get_tip_count(), 0);
}

#[test]
fn increment_tip_count_returns_pre_increment_value() {
    let mut state = make_state();
    assert_eq!(state.increment_tip_count(), 0);
    assert_eq!(state.get_tip_count(), 1);
    assert_eq!(state.increment_tip_count(), 1);
    assert_eq!(state.get_tip_count(), 2);
}

#[test]
fn get_total_creators_defaults_to_zero() {
    let state = make_state();
    assert_eq!(state.get_total_creators(), 0);
}

#[test]
fn total_creators_increments_correctly() {
    let mut state = make_state();
    state.increment_total_creators();
    assert_eq!(state.get_total_creators(), 1);
    state.increment_total_creators();
    assert_eq!(state.get_total_creators(), 2);
}

#[test]
fn get_total_tips_volume_defaults_to_zero() {
    let state = make_state();
    assert_eq!(state.get_total_tips_volume(), 0);
}

#[test]
fn add_to_tips_volume_accumulates() {
    let mut state = make_state();
    state.add_to_tips_volume(1_000_000).unwrap();
    state.add_to_tips_volume(2_000_000).unwrap();
    assert_eq!(state.get_total_tips_volume(), 3_000_000);
}

#[test]
fn get_total_fees_defaults_to_zero() {
    let state = make_state();
    assert_eq!(state.get_total_fees(), 0);
}

#[test]
fn add_to_fees_accumulates() {
    let mut state = make_state();
    state.add_to_fees(500).unwrap();
    state.add_to_fees(300).unwrap();
    assert_eq!(state.get_total_fees(), 800);
}

#[test]
fn remove_profile_removes_entry() {
    let mut state = make_state();
    let owner = Address { id: 13 };
    let profile = make_profile(owner, "testuser", "Test User", 0, 0, 0);
    state.set_profile(profile);
    assert!(state.has_profile(owner));
    state.remove_profile(owner);
    assert!(!state.has_profile(owner));
}

#[test]
fn decrement_total_creators_stops_at_zero() {
    let mut state = make_state();
    state.decrement_total_creators();
    assert_eq!(state.get_total_creators(), 0);
    state.increment_total_creators();
    state.decrement_total_creators();
    assert_eq!(state.get_total_creators(), 0);
}

#[test]
fn add_to_tips_volume_refuses_overflow() {
    let mut state = make_state();
    state.add_to_tips_volume(i128::MAX).unwrap();
    assert_eq!(state.add_to_tips_volume(1), Err(tipz::errors::ContractError::OverflowError));
    assert_eq!(state.get_total_tips_volume(), i128::MAX);
}

#[test]
fn runtime_config_is_kept_in_step_with_setters() {
    let mut state = make_state();
    state.set_runtime_config(RuntimeConfig {
        admin: Address { id: 1 },
        fee_collector: Address { id: 2 },
        fee_bps: 100,
        native_token: Address { id: 3 },
        paused: false,
        min_tip_amount: 10,
        rate_limit: RateLimitConfig { max_ops: 50, window_secs: 3600 },
        domain_reverify_secs: 0,
    });
    state.set_fee_bps(250);
    assert_eq!(state.get_fee_bps(), 250);
    state.set_paused(true);
    assert!(state.is_paused());
    state.set_min_tip_amount(77);
    assert_eq!(state.get_min_tip_amount(), 77);
    assert_eq!(state.get_domain_reverification_interval(), 2_592_000);
    state.set_domain_reverification_interval(86_400);
    assert_eq!(state.get_domain_reverification_interval(), 86_400);
}

#[test]
fn tip_indexes_reset_on_request() {
    let mut state = make_state();
    let creator = Address { id: 20 };
    state.add_creator_tip(creator, 5);
    state.add_creator_tip(creator, 6);
    assert_eq!(state.get_creator_tip_count(creator), 2);
    state.reset_creator_tip_index(creator);
    assert_eq!(state.get_creator_tip_count(creator), 0);
    state.add_tipper_tip(creator, 9);
    assert_eq!(state.get_tipper_tip_count(creator), 1);
    state.reset_tipper_tip_index(creator);
    assert_eq!(state.get_tipper_tip_count(creator), 0);
}
