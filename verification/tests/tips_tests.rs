use tipz::errors::ContractError;
use tipz::fees::calculate_fee;
use tipz::leaderboard::{get_leaderboard, get_leaderboard_rank};
use tipz::profile::{get_profile_with_deactivation, register_profile};
use tipz::storage::{RuntimeConfig, Tipz};
use tipz::tips::{get_recent_tips, get_tip, get_tips_by_tipper, send_tip, send_tip_on_behalf, withdraw_tips, Transfer};
use tipz::types::{Address, LeaderboardPeriod, Profile, RateLimitConfig};

const NOW: u64 = 100_000;
const CONTRACT: Address = Address { id: 1_000 };
const ADMIN: Address = Address { id: 1 };
const COLLECTOR: Address = Address { id: 2 };
const ALICE: Address = Address { id: 10 };
const BOB: Address = Address { id: 11 };
const TIPPER: Address = Address { id: 20 };

fn score(p: &Profile, _now: u64) -> u32 {
    if p.total_tips_count > 60 { 100 } else { 40 + p.total_tips_count }
}

fn b(s: &str) -> Vec<u8> {
    s.as_bytes().to_vec()
}

fn setup(max_ops: u32) -> Tipz {
    let mut state = Tipz::new(CONTRACT);
    let token = Address { id: 900 };
    state.set_admin(ADMIN);
    state.set_fee_collector(COLLECTOR);
    state.set_fee_bps(200);
    state.set_native_token(token);
    state.set_runtime_config(RuntimeConfig {
        admin: ADMIN,
        fee_collector: COLLECTOR,
        fee_bps: 200,
        native_token: token,
        paused: false,
        min_tip_amount: 1,
        rate_limit: RateLimitConfig { max_ops, window_secs: 3600 },
        domain_reverify_secs: 0,
    });
    state.set_initialized();
    register_profile(&mut state, ALICE, b("alice"), b("Alice"), b(""), b(""), b(""), NOW).unwrap();
    register_profile(&mut state, BOB, b("bob"), b("Bob"), b(""), b(""), b(""), NOW).unwrap();
    state
}

#[test]
fn send_tip_credits_the_creator_and_records_the_tip() {
    let mut state = setup(50);
    let outcome = send_tip(&mut state, TIPPER, ALICE, 10_000_000, &b("Great content!"), false, NOW, &score).unwrap();
    assert_eq!(outcome.tip_id, 0);
    assert_eq!(outcome.transfer, Transfer { from: TIPPER, to: CONTRACT, amount: 10_000_000 });
    let p = get_profile_with_deactivation(&mut state, ALICE, NOW).unwrap().profile;
    assert_eq!(p.balance, 10_000_000);
    assert_eq!(p.total_tips_received, 10_000_000);
    assert_eq!(p.total_tips_count, 1);
    assert_eq!(p.credit_score, 41);
    assert_eq!(state.get_tip_count(), 1);
    assert_eq!(state.get_total_tips_volume(), 10_000_000);
    let t = get_tip(&state, 0).unwrap();
    assert_eq!(t.sender, TIPPER);
    assert_eq!(t.benefactor, Some(TIPPER));
    assert_eq!(t.creator, ALICE);
    assert_eq!(t.message, b("Great content!"));
    assert_eq!(t.timestamp, NOW);
    let board = get_leaderboard(&state, LeaderboardPeriod::AllTime, 10);
    assert_eq!(board.len(), 1);
    assert_eq!(board[0].address, ALICE);
    assert_eq!(board[0].amount, 10_000_000);
}

#[test]
fn anonymous_tip_hides_the_benefactor() {
    let mut state = setup(50);
    send_tip(&mut state, TIPPER, ALICE, 5, &b(""), true, NOW, &score).unwrap();
    let t = get_tip(&state, 0).unwrap();
    assert!(t.is_anonymous);
    assert_eq!(t.benefactor, None);
}

#[test]
fn send_tip_errors() {
    let mut state = setup(50);
    let refuse = |state: &mut Tipz, tipper: Address, creator: Address, amount: i128, msg: Vec<u8>| {
        send_tip(state, tipper, creator, amount, &msg, false, NOW, &score).unwrap_err()
    };
    assert_eq!(refuse(&mut state, TIPPER, Address { id: 77 }, 5, b("")), ContractError::NotRegistered);
    assert_eq!(refuse(&mut state, ALICE, ALICE, 5, b("")), ContractError::CannotTipSelf);
    assert_eq!(refuse(&mut state, TIPPER, ALICE, 0, b("")), ContractError::InvalidAmount);
    assert_eq!(refuse(&mut state, TIPPER, ALICE, -5, b("")), ContractError::InvalidAmount);
    assert_eq!(refuse(&mut state, TIPPER, ALICE, 5, vec![b'x'; 281]), ContractError::MessageTooLong);
    assert_eq!(refuse(&mut state, TIPPER, ALICE, 5, vec![b'a', 0x07]), ContractError::InvalidMessage);
    assert_eq!(state.get_tip_count(), 0);
    state.set_paused(true);
    assert_eq!(refuse(&mut state, TIPPER, ALICE, 5, b("")), ContractError::ContractPaused);
    let mut fresh = Tipz::new(CONTRACT);
    assert_eq!(refuse(&mut fresh, TIPPER, ALICE, 5, b("")), ContractError::NotInitialized);
}

#[test]
fn rate_limit_stops_a_busy_tipper_but_not_the_admin() {
    let mut state = setup(2);
    send_tip(&mut state, TIPPER, ALICE, 5, &b(""), false, NOW, &score).unwrap();
    send_tip(&mut state, TIPPER, ALICE, 5, &b(""), false, NOW + 1, &score).unwrap();
    let refused = send_tip(&mut state, TIPPER, ALICE, 5, &b(""), false, NOW + 2, &score);
    assert_eq!(refused.unwrap_err(), ContractError::RateLimitExceeded);
    // A new window starts once the old one has passed.
    send_tip(&mut state, TIPPER, ALICE, 5, &b(""), false, NOW + 3_600, &score).unwrap();
    for i in 0..5u64 {
        send_tip(&mut state, ADMIN, ALICE, 5, &b(""), false, NOW + i, &score).unwrap();
    }
}

#[test]
fn recent_tips_come_newest_first_with_paging() {
    let mut state = setup(50);
    for amount in 1..=5i128 {
        send_tip(&mut state, TIPPER, ALICE, amount, &b(""), false, NOW, &score).unwrap();
    }
    send_tip(&mut state, TIPPER, BOB, 100, &b(""), false, NOW, &score).unwrap();
    let recent = get_recent_tips(&state, ALICE, 2, 0);
    assert_eq!(recent.iter().map(|t| t.amount).collect::<Vec<_>>(), vec![5, 4]);
    let page2 = get_recent_tips(&state, ALICE, 2, 2);
    assert_eq!(page2.iter().map(|t| t.amount).collect::<Vec<_>>(), vec![3, 2]);
    let beyond = get_recent_tips(&state, ALICE, 10, 10);
    assert!(beyond.is_empty());
    let by_tipper = get_tips_by_tipper(&state, TIPPER, 3);
    assert_eq!(by_tipper.iter().map(|t| t.amount).collect::<Vec<_>>(), vec![100, 5, 4]);
}

#[test]
fn tip_on_behalf_credits_both_histories() {
    let mut state = setup(50);
    let friend = Address { id: 30 };
    let outcome = send_tip_on_behalf(&mut state, TIPPER, friend, ALICE, 700, &b("from both"), NOW, &score).unwrap();
    assert_eq!(outcome.transfer, Transfer { from: TIPPER, to: CONTRACT, amount: 700 });
    let t = get_tip(&state, outcome.tip_id).unwrap();
    assert_eq!(t.sender, TIPPER);
    assert_eq!(t.benefactor, Some(friend));
    assert_eq!(get_tips_by_tipper(&state, TIPPER, 10).len(), 1);
    assert_eq!(get_tips_by_tipper(&state, friend, 10).len(), 1);
    let refused = send_tip_on_behalf(&mut state, TIPPER, ALICE, ALICE, 700, &b(""), NOW, &score);
    assert_eq!(refused.unwrap_err(), ContractError::CannotTipSelf);
}

#[test]
fn withdrawal_splits_fee_and_net() {
    let mut state = setup(50);
    send_tip(&mut state, TIPPER, ALICE, 50_000_000, &b(""), false, NOW, &score).unwrap();
    let transfers = withdraw_tips(&mut state, ALICE, 50_000_000).unwrap();
    assert_eq!(
        transfers,
        vec![
            Transfer { from: CONTRACT, to: ALICE, amount: 49_000_000 },
            Transfer { from: CONTRACT, to: COLLECTOR, amount: 1_000_000 },
        ]
    );
    assert_eq!(state.get_total_fees(), 1_000_000);
    assert_eq!(get_profile_with_deactivation(&mut state, ALICE, NOW).unwrap().profile.balance, 0);
    assert_eq!(withdraw_tips(&mut state, ALICE, 1).unwrap_err(), ContractError::InsufficientBalance);
    assert_eq!(withdraw_tips(&mut state, ALICE, 0).unwrap_err(), ContractError::InvalidAmount);
    assert_eq!(withdraw_tips(&mut state, Address { id: 77 }, 1).unwrap_err(), ContractError::NotRegistered);
}

#[test]
fn dust_withdrawal_still_pays_one_stroop() {
    assert_eq!(calculate_fee(10, 200), Ok((1, 9)));
    assert_eq!(calculate_fee(10, 0), Ok((0, 10)));
    assert_eq!(calculate_fee(50_000_000, 200), Ok((1_000_000, 49_000_000)));
    assert_eq!(calculate_fee(i128::MAX, 200), Err(ContractError::OverflowError));
}

#[test]
fn leaderboard_follows_lifetime_tips() {
    let mut state = setup(50);
    send_tip(&mut state, TIPPER, ALICE, 100, &b(""), false, NOW, &score).unwrap();
    send_tip(&mut state, TIPPER, BOB, 300, &b(""), false, NOW, &score).unwrap();
    send_tip(&mut state, TIPPER, ALICE, 250, &b(""), false, NOW, &score).unwrap();
    assert_eq!(get_leaderboard_rank(&state, LeaderboardPeriod::AllTime, ALICE), Some(1));
    assert_eq!(get_leaderboard_rank(&state, LeaderboardPeriod::AllTime, BOB), Some(2));
    let weekly = get_leaderboard(&state, LeaderboardPeriod::Weekly, 0);
    assert_eq!(weekly[0].address, ALICE);
    assert_eq!(weekly[0].amount, 350);
}

#[test]
fn zero_tip_is_refused_even_without_a_minimum() {
    let mut state = setup(50);
    let mut config = state.get_runtime_config().unwrap();
    config.min_tip_amount = 0;
    state.set_runtime_config(config);
    let refused = send_tip(&mut state, TIPPER, ALICE, 0, &b(""), false, NOW, &score);
    assert_eq!(refused.unwrap_err(), ContractError::InvalidAmount);
    assert_eq!(state.get_tip_count(), 0);
    assert_eq!(state.get_total_tips_volume(), 0);
    assert_eq!(get_profile_with_deactivation(&mut state, ALICE, NOW).unwrap().profile.balance, 0);
}

#[test]
fn tips_on_consecutive_days_build_a_streak() {
    let mut state = setup(50);
    let day = 86_400u64;
    let t0 = 10 * day + 100;
    send_tip(&mut state, TIPPER, ALICE, 5, &b(""), false, t0, &score).unwrap();
    let s = state.get_streak(TIPPER, ALICE).unwrap();
    assert_eq!((s.current, s.longest, s.last_tip_day), (1, 1, Some(10)));
    send_tip(&mut state, TIPPER, ALICE, 5, &b(""), false, t0 + 60, &score).unwrap();
    assert_eq!(state.get_streak(TIPPER, ALICE).unwrap().current, 1);
    send_tip(&mut state, TIPPER, ALICE, 5, &b(""), false, t0 + day, &score).unwrap();
    send_tip(&mut state, TIPPER, ALICE, 5, &b(""), false, t0 + 2 * day, &score).unwrap();
    let s = state.get_streak(TIPPER, ALICE).unwrap();
    assert_eq!((s.current, s.longest, s.last_tip_day), (3, 3, Some(12)));
    send_tip(&mut state, TIPPER, ALICE, 5, &b(""), false, t0 + 5 * day, &score).unwrap();
    let s = state.get_streak(TIPPER, ALICE).unwrap();
    assert_eq!((s.current, s.longest, s.last_tip_day, s.bonus_points), (1, 3, Some(15), 0));
    assert_eq!(state.get_streak(TIPPER, BOB), None);
}

#[test]
fn tip_on_behalf_counts_in_daily_stats_and_activity() {
    let mut state = setup(50);
    let friend = Address { id: 30 };
    send_tip_on_behalf(&mut state, TIPPER, friend, ALICE, 700, &b(""), NOW, &score).unwrap();
    assert_eq!(state.get_stats_window_start(), NOW);
    assert_eq!(state.get_tips_last_24h(), 1);
    assert_eq!(state.get_volume_last_24h(), 700);
    assert_eq!(state.get_creator_last_active(ALICE), NOW);
    send_tip_on_behalf(&mut state, TIPPER, friend, BOB, 300, &b(""), NOW + 10, &score).unwrap();
    assert_eq!(state.get_stats_window_start(), NOW);
    assert_eq!(state.get_tips_last_24h(), 2);
    assert_eq!(state.get_volume_last_24h(), 1_000);
    assert_eq!(state.get_creator_last_active(BOB), NOW + 10);
    send_tip_on_behalf(&mut state, TIPPER, friend, BOB, 50, &b(""), NOW + 86_401, &score).unwrap();
    assert_eq!(state.get_stats_window_start(), NOW + 86_401);
    assert_eq!(state.get_tips_last_24h(), 1);
    assert_eq!(state.get_volume_last_24h(), 50);
}
