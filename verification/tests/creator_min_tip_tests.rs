use tipz::errors::ContractError;
use tipz::profile::{get_creator_min_tip, register_profile, set_min_tip};
use tipz::storage::{RuntimeConfig, Tipz};
use tipz::tips::send_tip;
use tipz::types::{Address, Profile, RateLimitConfig};

const NOW: u64 = 10_000;

fn keep_score(p: &Profile, _now: u64) -> u32 {
    p.credit_score
}

fn setup_env() -> (Tipz, Address, Address, Address) {
    let mut state = Tipz::new(Address { id: 1_000 });
    let admin = Address { id: 1 };
    let fee_collector = Address { id: 2 };
    let token_address = Address { id: 900 };
    state.set_admin(admin);
    state.set_fee_collector(fee_collector);
    state.set_fee_bps(200);
    state.set_native_token(token_address);
    state.set_runtime_config(RuntimeConfig {
        admin,
        fee_collector,
        fee_bps: 200,
        native_token: token_address,
        paused: false,
        min_tip_amount: 0,
        rate_limit: RateLimitConfig { max_ops: 50, window_secs: 3600 },
        domain_reverify_secs: 0,
    });
    state.set_initialized();

    let tipper = Address { id: 3 };
    let creator = Address { id: 4 };
    register_profile(&mut state, creator, b"alice".to_vec(), b"Alice".to_vec(), Vec::new(), Vec::new(), Vec::new(), NOW)
        .unwrap();
    (state, tipper, creator, admin)
}

#[test]
fn test_creator_custom_min_tip() {
    let (mut state, tipper, creator, _admin) = setup_env();
    let msg = b"tip".to_vec();

    set_min_tip(&mut state, creator, 500_i128, NOW).unwrap();

    let result = send_tip(&mut state, tipper, creator, 100_i128, &msg, false, NOW, &keep_score);
    assert_eq!(result.unwrap_err(), ContractError::BelowCreatorMinimum);

    send_tip(&mut state, tipper, creator, 500_i128, &msg, false, NOW, &keep_score).unwrap();
}

#[test]
fn test_fallback_to_global_min() {
    let (state, _tipper, creator, _admin) = setup_env();
    let global_min = state.get_min_tip_amount();
    let min = get_creator_min_tip(&state, creator).unwrap();
    assert_eq!(min, global_min);
}

#[test]
fn test_reset_creator_min_tip_to_global() {
    let (mut state, _tipper, creator, _admin) = setup_env();
    let global_min = state.get_min_tip_amount();

    set_min_tip(&mut state, creator, 500_i128, NOW).unwrap();
    assert_eq!(get_creator_min_tip(&state, creator).unwrap(), 500_i128);

    set_min_tip(&mut state, creator, 0_i128, NOW).unwrap();
    assert_eq!(get_creator_min_tip(&state, creator).unwrap(), global_min);
}

#[test]
fn negative_min_tip_is_refused() {
    let (mut state, _tipper, creator, _admin) = setup_env();
    assert_eq!(set_min_tip(&mut state, creator, -1, NOW), Err(ContractError::InvalidAmount));
    assert_eq!(get_creator_min_tip(&state, Address { id: 77 }), Err(ContractError::NotRegistered));
    assert_eq!(set_min_tip(&mut state, Address { id: 77 }, 5, NOW), Err(ContractError::NotRegistered));
}

#[test]
fn global_minimum_gives_tip_below_minimum() {
    let (mut state, tipper, creator, _admin) = setup_env();
    state.set_min_tip_amount(1_000);
    let result = send_tip(&mut state, tipper, creator, 999, &b"hi".to_vec(), false, NOW, &keep_score);
    assert_eq!(result.unwrap_err(), ContractError::TipBelowMinimum);
    assert_eq!(get_creator_min_tip(&state, creator).unwrap(), 1_000);
}
