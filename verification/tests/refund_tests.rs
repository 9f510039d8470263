use tipz::errors::ContractError;
use tipz::profile::{get_profile_with_deactivation, register_profile};
use tipz::refund::{
    approve_refund, calculate_non_refundable_fee, get_refund_config, get_refund_request, process_pending_refunds,
    reject_refund, request_refund, set_refund_config,
};
use tipz::storage::{RuntimeConfig, Tipz};
use tipz::tips::send_tip;
use tipz::leaderboard::{get_leaderboard, get_leaderboard_rank};
use tipz::types::{Address, LeaderboardPeriod, Profile, RateLimitConfig, RefundConfig, RefundStatus};

const START: u64 = 1_000_000;

/// A credit score that grows with the tips received.
fn score(p: &Profile, _now: u64) -> u32 {
    let bonus = p.total_tips_received / 100_000;
    if bonus > 60 { 100 } else if bonus < 0 { 40 } else { 40 + bonus as u32 }
}

fn setup_test_env() -> Tipz {
    Tipz::new(Address { id: 1_000 })
}

fn initialize_contract(state: &mut Tipz, admin: Address, fee_collector: Address) {
    let native_token = Address { id: 900 };
    state.set_admin(admin);
    state.set_fee_collector(fee_collector);
    state.set_fee_bps(200);
    state.set_native_token(native_token);
    state.set_runtime_config(RuntimeConfig {
        admin,
        fee_collector,
        fee_bps: 200,
        native_token,
        paused: false,
        min_tip_amount: 0,
        rate_limit: RateLimitConfig { max_ops: 50, window_secs: 3600 },
        domain_reverify_secs: 0,
    });
    state.set_initialized();
}

fn register(state: &mut Tipz, user: Address, username: &str) {
    register_profile(
        state,
        user,
        username.as_bytes().to_vec(),
        username.as_bytes().to_vec(),
        b"Bio".to_vec(),
        Vec::new(),
        Vec::new(),
        START,
    )
    .unwrap();
}

fn tip(state: &mut Tipz, tipper: Address, creator: Address, amount: i128, now: u64) {
    send_tip(state, tipper, creator, amount, &b"Great work!".to_vec(), false, now, &score).unwrap();
}

struct World {
    state: Tipz,
    tipper: Address,
    creator: Address,
    other: Address,
    admin: Address,
}

fn world() -> World {
    let mut state = setup_test_env();
    let admin = Address { id: 1 };
    let fee_collector = Address { id: 2 };
    let tipper = Address { id: 3 };
    let creator = Address { id: 4 };
    let other = Address { id: 5 };
    initialize_contract(&mut state, admin, fee_collector);
    register(&mut state, creator, "creator");
    World { state, tipper, creator, other, admin }
}

#[test]
fn test_refund_within_window() {
    let mut w = world();
    let tip_amount = 1_000_000_i128;
    tip(&mut w.state, w.tipper, w.creator, tip_amount, START);
    let tip_id = 0_u32;

    request_refund(&mut w.state, w.tipper, tip_id, START).unwrap();

    let refund_request = get_refund_request(&w.state, tip_id).unwrap();
    assert_eq!(refund_request.tip_id, tip_id);
    assert_eq!(refund_request.tipper, w.tipper);
    assert_eq!(refund_request.creator, w.creator);
    assert_eq!(refund_request.amount, tip_amount);
    assert_eq!(refund_request.status, RefundStatus::Pending);

    let expected_fee = tip_amount * 200 / 10_000;
    let expected_refund = tip_amount - expected_fee;
    assert_eq!(refund_request.refund_amount, expected_refund);
    assert_eq!(refund_request.non_refundable_fee, expected_fee);

    let transfer = approve_refund(&mut w.state, w.creator, tip_id, START, &score).unwrap();
    assert_eq!(transfer.to, w.tipper);
    assert_eq!(transfer.amount, expected_refund);

    let updated_request = get_refund_request(&w.state, tip_id).unwrap();
    assert_eq!(updated_request.status, RefundStatus::Approved);
    assert!(updated_request.processed_at.is_some());

    let creator_profile = get_profile_with_deactivation(&mut w.state, w.creator, START).unwrap();
    assert_eq!(creator_profile.profile.balance, 0);
    assert_eq!(creator_profile.profile.total_tips_received, 0);
    assert_eq!(creator_profile.profile.total_tips_count, 0);
}

#[test]
fn test_refund_after_window_fails() {
    let mut w = world();
    tip(&mut w.state, w.tipper, w.creator, 1_000_000, START);
    let tip_id = 0_u32;
    // 25 hours later
    let result = request_refund(&mut w.state, w.tipper, tip_id, START + 25 * 3600);
    assert!(result.is_err());
    assert_eq!(result, Err(ContractError::RefundWindowExpired));
}

#[test]
fn test_auto_approve_after_timeout() {
    let mut w = world();
    tip(&mut w.state, w.tipper, w.creator, 1_000_000, START);
    let tip_id = 0_u32;
    request_refund(&mut w.state, w.tipper, tip_id, START).unwrap();

    // 49 hours later
    let tip_ids = vec![tip_id];
    let (processed_count, transfers) = process_pending_refunds(&mut w.state, &tip_ids, START + 49 * 3600, &score).unwrap();
    assert_eq!(processed_count, 1);
    assert_eq!(transfers.len(), 1);

    let refund_request = get_refund_request(&w.state, tip_id).unwrap();
    assert_eq!(refund_request.status, RefundStatus::AutoApproved);

    let creator_profile = get_profile_with_deactivation(&mut w.state, w.creator, START + 49 * 3600).unwrap();
    assert_eq!(creator_profile.profile.balance, 0);
}

#[test]
fn test_creator_rejects_refund() {
    let mut w = world();
    let tip_amount = 1_000_000_i128;
    tip(&mut w.state, w.tipper, w.creator, tip_amount, START);
    let tip_id = 0_u32;
    request_refund(&mut w.state, w.tipper, tip_id, START).unwrap();

    reject_refund(&mut w.state, w.creator, tip_id, START + 10).unwrap();

    let refund_request = get_refund_request(&w.state, tip_id).unwrap();
    assert_eq!(refund_request.status, RefundStatus::Rejected);

    let creator_profile = get_profile_with_deactivation(&mut w.state, w.creator, START + 10).unwrap();
    assert_eq!(creator_profile.profile.balance, tip_amount);
    assert_eq!(creator_profile.profile.total_tips_received, tip_amount);
}

#[test]
fn test_refund_already_requested() {
    let mut w = world();
    tip(&mut w.state, w.tipper, w.creator, 1_000_000, START);
    let tip_id = 0_u32;
    request_refund(&mut w.state, w.tipper, tip_id, START).unwrap();
    let result = request_refund(&mut w.state, w.tipper, tip_id, START);
    assert!(result.is_err());
    assert_eq!(result, Err(ContractError::RefundAlreadyRequested));
}

#[test]
fn test_refund_not_tipper() {
    let mut w = world();
    tip(&mut w.state, w.tipper, w.creator, 1_000_000, START);
    let tip_id = 0_u32;
    let result = request_refund(&mut w.state, w.other, tip_id, START);
    assert!(result.is_err());
    assert_eq!(result, Err(ContractError::NotTipper));
}

#[test]
fn test_refund_not_creator_approve() {
    let mut w = world();
    tip(&mut w.state, w.tipper, w.creator, 1_000_000, START);
    let tip_id = 0_u32;
    request_refund(&mut w.state, w.tipper, tip_id, START).unwrap();
    let result = approve_refund(&mut w.state, w.other, tip_id, START, &score);
    assert!(result.is_err());
    assert_eq!(result, Err(ContractError::NotCreator));
}

#[test]
fn test_refund_already_processed() {
    let mut w = world();
    tip(&mut w.state, w.tipper, w.creator, 1_000_000, START);
    let tip_id = 0_u32;
    request_refund(&mut w.state, w.tipper, tip_id, START).unwrap();
    approve_refund(&mut w.state, w.creator, tip_id, START, &score).unwrap();

    let result = approve_refund(&mut w.state, w.creator, tip_id, START, &score);
    assert!(result.is_err());
    assert_eq!(result, Err(ContractError::RefundAlreadyProcessed));

    let result = reject_refund(&mut w.state, w.creator, tip_id, START);
    assert!(result.is_err());
    assert_eq!(result, Err(ContractError::RefundAlreadyProcessed));
}

#[test]
fn test_refund_tip_not_found() {
    let mut w = world();
    let result = request_refund(&mut w.state, w.tipper, 999_u32, START);
    assert!(result.is_err());
    assert_eq!(result, Err(ContractError::NotFound));
}

#[test]
fn test_refund_config_admin_only() {
    let mut w = world();

    let config = get_refund_config(&w.state);
    assert_eq!(config.request_window_secs, 86400);
    assert_eq!(config.response_window_secs, 172800);
    assert_eq!(config.non_refundable_fee_bps, 200);

    let new_config = RefundConfig { request_window_secs: 43200, response_window_secs: 86400, non_refundable_fee_bps: 300 };
    set_refund_config(&mut w.state, w.admin, new_config).unwrap();

    let updated_config = get_refund_config(&w.state);
    assert_eq!(updated_config.request_window_secs, 43200);
    assert_eq!(updated_config.response_window_secs, 86400);
    assert_eq!(updated_config.non_refundable_fee_bps, 300);

    let result = set_refund_config(&mut w.state, w.other, new_config);
    assert!(result.is_err());
    assert_eq!(result, Err(ContractError::NotAuthorized));
}

#[test]
fn test_refund_updates_credit_score() {
    let mut w = world();
    tip(&mut w.state, w.tipper, w.creator, 1_000_000, START);
    let score_before = get_profile_with_deactivation(&mut w.state, w.creator, START).unwrap().profile.credit_score;
    let tip_id = 0_u32;
    request_refund(&mut w.state, w.tipper, tip_id, START).unwrap();
    approve_refund(&mut w.state, w.creator, tip_id, START, &score).unwrap();
    let profile_after = get_profile_with_deactivation(&mut w.state, w.creator, START).unwrap();
    assert!(profile_after.profile.credit_score <= score_before);
}

#[test]
fn test_refund_multiple_tips() {
    let mut w = world();
    let tip_amount = 1_000_000_i128;
    for _ in 0..3 {
        tip(&mut w.state, w.tipper, w.creator, tip_amount, START);
    }
    let tip_id = 0_u32;
    request_refund(&mut w.state, w.tipper, tip_id, START).unwrap();
    approve_refund(&mut w.state, w.creator, tip_id, START, &score).unwrap();

    let creator_profile = get_profile_with_deactivation(&mut w.state, w.creator, START).unwrap();
    assert_eq!(creator_profile.profile.total_tips_count, 2);
    assert_eq!(creator_profile.profile.total_tips_received, tip_amount * 2);
}

#[test]
fn test_process_pending_refunds_multiple() {
    let mut w = world();
    for _ in 0..3 {
        tip(&mut w.state, w.tipper, w.creator, 1_000_000, START);
    }
    for tip_id in 0..3u32 {
        request_refund(&mut w.state, w.tipper, tip_id, START).unwrap();
    }
    let tip_ids: Vec<u32> = (0..3u32).collect();
    let (processed_count, _) = process_pending_refunds(&mut w.state, &tip_ids, START + 49 * 3600, &score).unwrap();
    assert_eq!(processed_count, 3);
    for tip_id in 0..3u32 {
        let refund_request = get_refund_request(&w.state, tip_id).unwrap();
        assert_eq!(refund_request.status, RefundStatus::AutoApproved);
    }
}

#[test]
fn test_refund_no_request_exists() {
    let mut w = world();
    tip(&mut w.state, w.tipper, w.creator, 1_000_000, START);
    let tip_id = 0_u32;
    let result = approve_refund(&mut w.state, w.creator, tip_id, START, &score);
    assert!(result.is_err());
    assert_eq!(result, Err(ContractError::NoRefundRequest));
    let result = reject_refund(&mut w.state, w.creator, tip_id, START);
    assert!(result.is_err());
    assert_eq!(result, Err(ContractError::NoRefundRequest));
}

#[test]
fn pending_refund_is_not_auto_approved_early() {
    let mut w = world();
    tip(&mut w.state, w.tipper, w.creator, 1_000_000, START);
    request_refund(&mut w.state, w.tipper, 0, START).unwrap();
    let (count, transfers) = process_pending_refunds(&mut w.state, &vec![0, 7, 0], START + 47 * 3600, &score).unwrap();
    assert_eq!(count, 0);
    assert!(transfers.is_empty());
    assert_eq!(get_refund_request(&w.state, 0).unwrap().status, RefundStatus::Pending);
    // A listed id given twice is approved once.
    let (count, _) = process_pending_refunds(&mut w.state, &vec![0, 0], START + 48 * 3600, &score).unwrap();
    assert_eq!(count, 1);
}

#[test]
fn refund_split_adds_up_to_the_tip() {
    assert_eq!(calculate_non_refundable_fee(1_000_000, 200), Ok(20_000));
    assert_eq!(calculate_non_refundable_fee(999, 200), Ok(19));
    assert_eq!(calculate_non_refundable_fee(-999, 200), Ok(-19));
    assert_eq!(calculate_non_refundable_fee(i128::MAX, 2), Err(ContractError::OverflowError));
    let mut w = world();
    tip(&mut w.state, w.tipper, w.creator, 12_345, START);
    request_refund(&mut w.state, w.tipper, 0, START).unwrap();
    let r = get_refund_request(&w.state, 0).unwrap();
    assert_eq!(r.refund_amount + r.non_refundable_fee, r.amount);
    assert_eq!(r.non_refundable_fee, 246);
}

#[test]
fn refunds_are_refused_while_paused() {
    let mut w = world();
    tip(&mut w.state, w.tipper, w.creator, 1_000_000, START);
    w.state.set_paused(true);
    assert_eq!(request_refund(&mut w.state, w.tipper, 0, START), Err(ContractError::ContractPaused));
    assert_eq!(
        process_pending_refunds(&mut w.state, &vec![0], START, &score).unwrap_err(),
        ContractError::ContractPaused
    );
}

#[test]
fn refund_lowers_the_creator_on_the_leaderboards() {
    let mut w = world();
    let second = Address { id: 6 };
    register(&mut w.state, second, "second");
    tip(&mut w.state, w.tipper, w.creator, 1_000_000, START);
    tip(&mut w.state, w.tipper, second, 600_000, START);
    assert_eq!(get_leaderboard_rank(&w.state, LeaderboardPeriod::AllTime, w.creator), Some(1));
    request_refund(&mut w.state, w.tipper, 0, START).unwrap();
    approve_refund(&mut w.state, w.creator, 0, START, &score).unwrap();
    let all_time = get_leaderboard(&w.state, LeaderboardPeriod::AllTime, 0);
    assert_eq!(all_time[0].address, second);
    assert_eq!(all_time[1].address, w.creator);
    assert_eq!(all_time[1].amount, 0);
    let weekly = get_leaderboard(&w.state, LeaderboardPeriod::Weekly, 0);
    assert_eq!(weekly[1].address, w.creator);
    assert_eq!(weekly[1].amount, 0);
}

#[test]
fn auto_approved_refunds_update_the_leaderboards_too() {
    let mut w = world();
    tip(&mut w.state, w.tipper, w.creator, 1_000_000, START);
    tip(&mut w.state, w.tipper, w.creator, 400_000, START);
    request_refund(&mut w.state, w.tipper, 0, START).unwrap();
    process_pending_refunds(&mut w.state, &vec![0], START + 49 * 3600, &score).unwrap();
    let monthly = get_leaderboard(&w.state, LeaderboardPeriod::Monthly, 0);
    assert_eq!(monthly[0].amount, 400_000);
    let all_time = get_leaderboard(&w.state, LeaderboardPeriod::AllTime, 0);
    assert_eq!(all_time[0].amount, 400_000);
}

#[test]
fn refund_with_a_monotone_score_does_not_raise_it() {
    let mut w = world();
    for _ in 0..3 {
        tip(&mut w.state, w.tipper, w.creator, 1_000_000, START);
    }
    let before = get_profile_with_deactivation(&mut w.state, w.creator, START).unwrap().profile;
    // The stored score is the one the scoring function gives now.
    assert_eq!(before.credit_score, score(&before, START));
    request_refund(&mut w.state, w.tipper, 1, START).unwrap();
    approve_refund(&mut w.state, w.creator, 1, START, &score).unwrap();
    let after = get_profile_with_deactivation(&mut w.state, w.creator, START).unwrap().profile;
    assert!(after.credit_score <= before.credit_score);
    assert_eq!(after.credit_score, 60);
    assert_eq!(before.credit_score, 70);
}
