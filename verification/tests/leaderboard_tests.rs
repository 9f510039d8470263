use tipz::leaderboard::{
    find_insertion_index, get_leaderboard, get_leaderboard_rank, get_leaderboard_size, is_on_leaderboard,
    remove_from_leaderboard, reset_leaderboard, update_all_leaderboards, update_leaderboard, MAX_LEADERBOARD_SIZE,
};
use tipz::storage::Tipz;
use tipz::types::{Address, LeaderboardEntry, LeaderboardPeriod, Profile, VerificationStatus};

fn make_state() -> Tipz {
    Tipz::new(Address { id: 1_000 })
}

fn make_profile(owner: Address, username: &str, total_tips_received: i128) -> Profile {
    Profile {
        owner,
        username: username.as_bytes().to_vec(),
        display_name: username.as_bytes().to_vec(),
        bio: Vec::new(),
        website: Vec::new(),
        image_url: Vec::new(),
        social_links: Vec::new(),
        x_handle: Vec::new(),
        x_followers: 0,
        x_engagement_avg: 0,
        credit_score: 40,
        total_tips_received,
        total_tips_count: 0,
        balance: 0,
        registered_at: 0,
        updated_at: 0,
        verification: VerificationStatus::unverified(),
        domain: Vec::new(),
        domain_verified: false,
        domain_verified_at: None,
        custom_min_tip: None,
    }
}

fn entry(id: u64, amount: i128) -> LeaderboardEntry {
    LeaderboardEntry { address: Address { id }, username: b"user".to_vec(), amount, credit_score: 50 }
}

#[test]
fn test_find_insertion_index() {
    let mut list: Vec<LeaderboardEntry> = Vec::new();

    // Empty
    assert_eq!(find_insertion_index(&list, 100), 0);

    list.push(LeaderboardEntry { address: Address { id: 1 }, username: b"u1".to_vec(), amount: 100, credit_score: 50 });

    // Higher
    assert_eq!(find_insertion_index(&list, 200), 0);
    // Lower
    assert_eq!(find_insertion_index(&list, 50), 1);
    // Equal (stable)
    assert_eq!(find_insertion_index(&list, 100), 1);
}

#[test]
fn test_update_leaderboard_basic() {
    let mut state = make_state();
    let addr = Address { id: 42 };
    let profile = make_profile(addr, "user", 100);

    update_leaderboard(&mut state, &profile, LeaderboardPeriod::AllTime, 0);

    let entries = state.get_leaderboard(LeaderboardPeriod::AllTime);
    assert_eq!(entries.len(), 1);
    assert_eq!(entries[0].amount, 100);

    // Update
    let profile2 = make_profile(addr, "user", 200);
    update_leaderboard(&mut state, &profile2, LeaderboardPeriod::AllTime, 0);
    let entries2 = state.get_leaderboard(LeaderboardPeriod::AllTime);
    assert_eq!(entries2.len(), 1);
    assert_eq!(entries2[0].amount, 200);
}

#[test]
fn test_leaderboard_full_eviction() {
    let mut state = make_state();
    // Stored highest first, as every board is.
    let mut entries: Vec<LeaderboardEntry> = Vec::new();
    for i in (0..50u64).rev() {
        entries.push(entry(i + 1, (i as i128 + 1) * 10));
    }
    state.set_leaderboard(LeaderboardPeriod::AllTime, &entries);

    // New high score
    let addr_new = Address { id: 999 };
    let profile_new = make_profile(addr_new, "new", 1000);
    update_leaderboard(&mut state, &profile_new, LeaderboardPeriod::AllTime, 0);

    let result = state.get_leaderboard(LeaderboardPeriod::AllTime);
    assert_eq!(result.len(), 50);
    assert_eq!(result[0].address, addr_new);

    // Lowest (10) should be gone
    for e in result.iter() {
        assert!(e.amount > 10 || e.address == addr_new);
    }
}

#[test]
fn equal_amounts_keep_earlier_holder_ahead() {
    let mut state = make_state();
    let first = make_profile(Address { id: 1 }, "first", 100);
    let second = make_profile(Address { id: 2 }, "second", 100);
    update_leaderboard(&mut state, &first, LeaderboardPeriod::AllTime, 0);
    update_leaderboard(&mut state, &second, LeaderboardPeriod::AllTime, 0);
    let board = get_leaderboard(&state, LeaderboardPeriod::AllTime, 10);
    assert_eq!(board.len(), 2);
    assert_eq!(board[0].address, Address { id: 1 });
    assert_eq!(board[1].address, Address { id: 2 });
    assert_eq!(get_leaderboard_rank(&state, LeaderboardPeriod::AllTime, Address { id: 2 }), Some(2));
}

#[test]
fn low_amount_is_not_added_to_full_board() {
    let mut state = make_state();
    let mut entries: Vec<LeaderboardEntry> = Vec::new();
    for i in (0..50u64).rev() {
        entries.push(entry(i + 1, (i as i128 + 1) * 10));
    }
    state.set_leaderboard(LeaderboardPeriod::AllTime, &entries);
    let low = make_profile(Address { id: 500 }, "low", 5);
    update_leaderboard(&mut state, &low, LeaderboardPeriod::AllTime, 0);
    assert_eq!(get_leaderboard_size(&state, LeaderboardPeriod::AllTime), MAX_LEADERBOARD_SIZE);
    assert!(!is_on_leaderboard(&state, LeaderboardPeriod::AllTime, Address { id: 500 }));
}

#[test]
fn removal_and_reset_empty_the_board() {
    let mut state = make_state();
    let a = make_profile(Address { id: 1 }, "a", 300);
    let b = make_profile(Address { id: 2 }, "b", 200);
    update_all_leaderboards(&mut state, &a, 300);
    update_all_leaderboards(&mut state, &b, 200);
    assert_eq!(get_leaderboard_size(&state, LeaderboardPeriod::Weekly), 2);
    remove_from_leaderboard(&mut state, LeaderboardPeriod::Weekly, Address { id: 1 });
    assert!(!is_on_leaderboard(&state, LeaderboardPeriod::Weekly, Address { id: 1 }));
    assert!(is_on_leaderboard(&state, LeaderboardPeriod::Monthly, Address { id: 1 }));
    reset_leaderboard(&mut state, LeaderboardPeriod::Monthly, 5_000);
    assert_eq!(get_leaderboard_size(&state, LeaderboardPeriod::Monthly), 0);
    assert_eq!(state.get_last_leaderboard_reset(LeaderboardPeriod::Monthly), 5_000);
    assert_eq!(get_leaderboard_size(&state, LeaderboardPeriod::AllTime), 2);
}

#[test]
fn get_leaderboard_respects_limit() {
    let mut state = make_state();
    for id in 1..=5u64 {
        let p = make_profile(Address { id }, "p", id as i128 * 100);
        update_leaderboard(&mut state, &p, LeaderboardPeriod::AllTime, 0);
    }
    let top = get_leaderboard(&state, LeaderboardPeriod::AllTime, 3);
    assert_eq!(top.len(), 3);
    assert_eq!(top[0].amount, 500);
    assert_eq!(top[2].amount, 300);
    let all = get_leaderboard(&state, LeaderboardPeriod::AllTime, 0);
    assert_eq!(all.len(), 5);
}
