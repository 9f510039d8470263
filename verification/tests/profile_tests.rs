use tipz::errors::ContractError;
use tipz::leaderboard::is_on_leaderboard;
use tipz::profile::{
    deactivate_profile, deregister_profile, get_donation_page, get_profile_with_deactivation, reactivate_profile,
    register_profile, set_donation_page, update_profile,
};
use tipz::storage::{RuntimeConfig, Tipz};
use tipz::tips::send_tip;
use tipz::types::{Address, DonationPageConfig, LeaderboardPeriod, Profile, RateLimitConfig};

const NOW: u64 = 7_000;

fn keep_score(p: &Profile, _now: u64) -> u32 {
    p.credit_score
}

fn b(s: &str) -> Vec<u8> {
    s.as_bytes().to_vec()
}

fn initialized() -> Tipz {
    let mut state = Tipz::new(Address { id: 1_000 });
    let admin = Address { id: 1 };
    let fee_collector = Address { id: 2 };
    let token = Address { id: 900 };
    state.set_admin(admin);
    state.set_fee_collector(fee_collector);
    state.set_fee_bps(200);
    state.set_native_token(token);
    state.set_runtime_config(RuntimeConfig {
        admin,
        fee_collector,
        fee_bps: 200,
        native_token: token,
        paused: false,
        min_tip_amount: 0,
        rate_limit: RateLimitConfig { max_ops: 50, window_secs: 3600 },
        domain_reverify_secs: 0,
    });
    state.set_initialized();
    state
}

fn register(state: &mut Tipz, who: Address, username: &str, x: &str) -> Result<Profile, ContractError> {
    register_profile(state, who, b(username), b("Alice Smith"), b("Web3 content creator"), b("ipfs://Qm"), b(x), NOW)
}

#[test]
fn registration_stores_profile_with_base_score() {
    let mut state = initialized();
    let alice = Address { id: 10 };
    let profile = register(&mut state, alice, "alice", "alice_x").unwrap();
    assert_eq!(profile.credit_score, 40);
    assert_eq!(profile.x_handle, b("@alice_x"));
    assert_eq!(profile.registered_at, NOW);
    assert_eq!(profile.balance, 0);
    assert_eq!(state.get_total_creators(), 1);
    assert_eq!(state.get_username_address(&b("alice")), Some(alice));
    let stored = get_profile_with_deactivation(&mut state, alice, NOW).unwrap();
    assert_eq!(stored.profile.username, b("alice"));
    assert_eq!(stored.profile.x_handle, b("@alice_x"));
    assert!(!stored.is_deactivated);
    assert_eq!(stored.deactivated_at, None);
}

#[test]
fn handle_with_at_sign_is_kept_and_empty_handle_stays_empty() {
    let mut state = initialized();
    let p = register(&mut state, Address { id: 10 }, "alice", "@alice").unwrap();
    assert_eq!(p.x_handle, b("@alice"));
    let q = register(&mut state, Address { id: 11 }, "bob", "").unwrap();
    assert_eq!(q.x_handle, b(""));
}

#[test]
fn registration_errors() {
    let mut state = Tipz::new(Address { id: 1_000 });
    assert_eq!(register(&mut state, Address { id: 10 }, "alice", "").unwrap_err(), ContractError::NotInitialized);
    let mut state = initialized();
    assert_eq!(register(&mut state, Address { id: 10 }, "Al", "").unwrap_err(), ContractError::InvalidUsername);
    assert_eq!(register(&mut state, Address { id: 10 }, "al__ice", "").unwrap_err(), ContractError::InvalidUsername);
    assert_eq!(register(&mut state, Address { id: 10 }, "alice_", "").unwrap_err(), ContractError::InvalidUsername);
    assert_eq!(register(&mut state, Address { id: 10 }, "alice", "bad-handle").unwrap_err(), ContractError::InvalidUsername);
    assert_eq!(
        register_profile(&mut state, Address { id: 10 }, b("alice"), b("   "), b(""), b(""), b(""), NOW).unwrap_err(),
        ContractError::InvalidDisplayName
    );
    assert_eq!(
        register_profile(&mut state, Address { id: 10 }, b("alice"), b("A"), vec![b'x'; 281], b(""), b(""), NOW).unwrap_err(),
        ContractError::MessageTooLong
    );
    assert_eq!(
        register_profile(&mut state, Address { id: 10 }, b("alice"), b("A"), b(""), vec![b'x'; 257], b(""), NOW).unwrap_err(),
        ContractError::InvalidImageUrl
    );
    register(&mut state, Address { id: 10 }, "alice", "").unwrap();
    assert_eq!(register(&mut state, Address { id: 10 }, "alice2", "").unwrap_err(), ContractError::AlreadyRegistered);
    assert_eq!(register(&mut state, Address { id: 11 }, "alice", "").unwrap_err(), ContractError::UsernameTaken);
    assert_eq!(state.get_total_creators(), 1);
    state.set_paused(true);
    assert_eq!(register(&mut state, Address { id: 12 }, "carol", "").unwrap_err(), ContractError::ContractPaused);
}

#[test]
fn update_profile_replaces_given_fields() {
    let mut state = initialized();
    let alice = Address { id: 10 };
    register(&mut state, alice, "alice", "").unwrap();
    update_profile(&mut state, alice, Some(b("Alice Updated")), None, None, Some(b("new_handle")), NOW + 5).unwrap();
    let p = get_profile_with_deactivation(&mut state, alice, NOW + 5).unwrap().profile;
    assert_eq!(p.display_name, b("Alice Updated"));
    assert_eq!(p.bio, b("Web3 content creator"));
    assert_eq!(p.x_handle, b("@new_handle"));
    assert_eq!(p.updated_at, NOW + 5);
    assert_eq!(update_profile(&mut state, alice, Some(b("")), None, None, None, NOW), Err(ContractError::InvalidDisplayName));
    assert_eq!(update_profile(&mut state, alice, None, Some(vec![b'x'; 281]), None, None, NOW), Err(ContractError::MessageTooLong));
    assert_eq!(update_profile(&mut state, alice, None, None, Some(vec![b'x'; 257]), None, NOW), Err(ContractError::InvalidImageUrl));
    assert_eq!(update_profile(&mut state, alice, None, None, None, Some(b("")), NOW), Err(ContractError::InvalidUsername));
    assert_eq!(update_profile(&mut state, Address { id: 99 }, None, None, None, None, NOW), Err(ContractError::NotRegistered));
}

#[test]
fn deactivation_blocks_tips_and_leaves_boards() {
    let mut state = initialized();
    let admin = Address { id: 1 };
    let alice = Address { id: 10 };
    let tipper = Address { id: 20 };
    register(&mut state, alice, "alice", "").unwrap();
    send_tip(&mut state, tipper, alice, 5_000_000, &b("hi"), false, NOW, &keep_score).unwrap();
    assert!(is_on_leaderboard(&state, LeaderboardPeriod::AllTime, alice));

    assert_eq!(deactivate_profile(&mut state, tipper, alice, NOW), Err(ContractError::NotAuthorized));
    deactivate_profile(&mut state, admin, alice, NOW).unwrap();
    assert!(!is_on_leaderboard(&state, LeaderboardPeriod::AllTime, alice));
    assert!(!is_on_leaderboard(&state, LeaderboardPeriod::Weekly, alice));
    assert_eq!(deactivate_profile(&mut state, alice, alice, NOW), Err(ContractError::AlreadyDeactivated));
    let result = send_tip(&mut state, tipper, alice, 5_000_000, &b("hi"), false, NOW, &keep_score);
    assert_eq!(result.unwrap_err(), ContractError::ProfileDeactivated);
    let view = get_profile_with_deactivation(&mut state, alice, NOW).unwrap();
    assert!(view.is_deactivated);
    assert_eq!(view.deactivated_at, Some(NOW));
    assert_eq!(view.profile.balance, 5_000_000);

    reactivate_profile(&mut state, alice, alice).unwrap();
    assert!(is_on_leaderboard(&state, LeaderboardPeriod::AllTime, alice));
    assert_eq!(reactivate_profile(&mut state, alice, alice), Err(ContractError::ProfileNotDeactivated));
    assert_eq!(reactivate_profile(&mut state, alice, Address { id: 99 }), Err(ContractError::NotRegistered));
}

#[test]
fn deregistration_needs_zero_balance_and_frees_the_username() {
    let mut state = initialized();
    let alice = Address { id: 10 };
    let tipper = Address { id: 20 };
    register(&mut state, alice, "alice", "").unwrap();
    send_tip(&mut state, tipper, alice, 1_000, &b("hi"), false, NOW, &keep_score).unwrap();
    assert_eq!(deregister_profile(&mut state, alice), Err(ContractError::BalanceNotZero));
    tipz::tips::withdraw_tips(&mut state, alice, 1_000).unwrap();
    deregister_profile(&mut state, alice).unwrap();
    assert!(!state.has_profile(alice));
    assert_eq!(state.get_username_address(&b("alice")), None);
    assert_eq!(state.get_total_creators(), 0);
    assert!(!is_on_leaderboard(&state, LeaderboardPeriod::AllTime, alice));
    assert_eq!(state.get_creator_tip_count(alice), 0);
    assert_eq!(deregister_profile(&mut state, alice), Err(ContractError::NotRegistered));
    // The owner can register again under the same name.
    register(&mut state, alice, "alice", "").unwrap();
    assert_eq!(state.get_total_creators(), 1);
}

#[test]
fn donation_page_defaults_and_limits() {
    let mut state = initialized();
    let alice = Address { id: 10 };
    assert_eq!(get_donation_page(&state, alice).unwrap_err(), ContractError::NotRegistered);
    register(&mut state, alice, "alice", "").unwrap();
    let page = get_donation_page(&state, alice).unwrap();
    assert_eq!(page.welcome_message, b("Support my work!"));
    assert_eq!(page.suggested_amounts, vec![5_000_000, 10_000_000, 25_000_000, 50_000_000]);
    assert_eq!(page.theme_color, b("#3b82f6"));
    assert_eq!(page.header_image_uri, b(""));
    assert!(page.is_default);

    let custom = DonationPageConfig {
        welcome_message: b("Thanks!"),
        suggested_amounts: vec![1, 2, 3],
        theme_color: b("#ff6b6b"),
        header_image_uri: b("ipfs://header"),
        is_default: false,
    };
    set_donation_page(&mut state, alice, custom).unwrap();
    let page = get_donation_page(&state, alice).unwrap();
    assert_eq!(page.welcome_message, b("Thanks!"));
    assert_eq!(page.suggested_amounts, vec![1, 2, 3]);
    assert!(!page.is_default);

    let mut bad = page.clone();
    bad.welcome_message = vec![b'x'; 501];
    assert_eq!(set_donation_page(&mut state, alice, bad), Err(ContractError::MessageTooLong));
    let mut bad = page.clone();
    bad.suggested_amounts = vec![1; 7];
    assert_eq!(set_donation_page(&mut state, alice, bad), Err(ContractError::InvalidAmount));
    let mut bad = page.clone();
    bad.header_image_uri = vec![b'x'; 257];
    assert_eq!(set_donation_page(&mut state, alice, bad), Err(ContractError::InvalidImageUrl));
    let mut bad = page.clone();
    bad.theme_color = b("#fff");
    assert_eq!(set_donation_page(&mut state, alice, bad), Err(ContractError::InvalidAmount));
    let mut ok = page.clone();
    ok.theme_color = Vec::new();
    set_donation_page(&mut state, alice, ok).unwrap();
}

#[test]
fn paused_ledger_refuses_every_write() {
    let mut state = initialized();
    let alice = Address { id: 10 };
    let admin = Address { id: 1 };
    register(&mut state, alice, "alice", "").unwrap();
    state.set_paused(true);
    assert_eq!(update_profile(&mut state, alice, Some(b("New")), None, None, None, NOW), Err(ContractError::ContractPaused));
    assert_eq!(deregister_profile(&mut state, alice), Err(ContractError::ContractPaused));
    assert_eq!(deactivate_profile(&mut state, admin, alice, NOW), Err(ContractError::ContractPaused));
    assert_eq!(reactivate_profile(&mut state, admin, alice), Err(ContractError::ContractPaused));
    assert_eq!(tipz::profile::set_domain(&mut state, alice, b("alice.com"), NOW), Err(ContractError::ContractPaused));
    assert_eq!(tipz::profile::set_min_tip(&mut state, alice, 5, NOW), Err(ContractError::ContractPaused));
    let page = get_donation_page(&state, alice).unwrap();
    assert_eq!(set_donation_page(&mut state, alice, page), Err(ContractError::ContractPaused));
    assert_eq!(tipz::tips::withdraw_tips(&mut state, alice, 1).unwrap_err(), ContractError::ContractPaused);
    let on_behalf = tipz::tips::send_tip_on_behalf(&mut state, Address { id: 20 }, Address { id: 21 }, alice, 5, &b(""), NOW, &keep_score);
    assert_eq!(on_behalf.unwrap_err(), ContractError::ContractPaused);
    // Nothing changed.
    let p = get_profile_with_deactivation(&mut state, alice, NOW).unwrap().profile;
    assert_eq!(p.display_name, b("Alice Smith"));
    assert_eq!(state.get_total_creators(), 1);
}
