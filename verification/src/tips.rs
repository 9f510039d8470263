//! Tip records and the transfer logic of the Tipz ledger.
//!
//! A tip moves funds from the tipper to the ledger and credits the creator's
//! withdrawable balance; a withdrawal pays the balance out, less the protocol
//! fee. An operation that returns an error leaves the stored state as it
//! was, as the ledger's host discards every change of a failed call; the
//! funds to move are handed back as [`Transfer`]s for the host to perform.

use vstd::prelude::*;

use crate::admin::require_not_paused;
use crate::bytes::copy_bytes;
use crate::errors::ContractError;
use crate::fees::{calculate_fee, fits_i128, withdrawal_split};
use crate::leaderboard::{boards_after_tip, only_boards_changed, update_all_leaderboards, update_all_leaderboards_for_active};
use crate::storage::{or_default, SendTipState, Tipz};
use crate::storage::RuntimeConfig;
use crate::streaks::{record_tip_streak, streak_after_tip};
use crate::types::{Address, Profile, RateLimitStatus, Tip};
use crate::validation::{
    check_rate_limit, check_rate_limit_with_config, is_forbidden_control, rate_limit_next, rate_limit_step,
    validate_message, validate_tip_for_creator,
};

verus! {

/// Maximum number of tips returned per page.
pub const MAX_PAGE_LIMIT: u32 = 50;

/// Length of the rolling statistics window (24 hours).
pub const STATS_WINDOW_SECS: u64 = 86400;

/// A movement of native tokens the host is to perform.
#[derive(Clone, Copy, Debug, PartialEq, Eq, Structural)]
pub struct Transfer {
    pub from: Address,
    pub to: Address,
    pub amount: i128,
}

/// What a tip record says, with its message as a sequence of bytes.
pub ghost struct TipView {
    pub id: u32,
    pub sender: Address,
    pub benefactor: Option<Address>,
    pub creator: Address,
    pub amount: i128,
    pub message: Seq<u8>,
    pub timestamp: u64,
    pub is_anonymous: bool,
}

impl View for Tip {
    type V = TipView;

    open spec fn view(&self) -> TipView {
        TipView {
            id: self.id,
            sender: self.sender,
            benefactor: self.benefactor,
            creator: self.creator,
            amount: self.amount,
            message: self.message@,
            timestamp: self.timestamp,
            is_anonymous: self.is_anonymous,
        }
    }
}

/// A fresh copy of a tip record.
pub fn copy_tip(t: &Tip) -> (r: Tip)
    ensures
        r@ == t@,
{
    Tip {
        id: t.id,
        sender: t.sender,
        benefactor: t.benefactor,
        creator: t.creator,
        amount: t.amount,
        message: copy_bytes(&t.message),
        timestamp: t.timestamp,
        is_anonymous: t.is_anonymous,
    }
}

/// The record of a tip: an anonymous tip names no benefactor; otherwise the
/// benefactor is the one given, or the sender.
pub open spec fn tip_record(
    tip_id: u32,
    sender: Address,
    benefactor: Option<Address>,
    creator: Address,
    amount: i128,
    message: Seq<u8>,
    is_anonymous: bool,
    now: u64,
) -> TipView {
    TipView {
        id: tip_id,
        sender,
        benefactor: if is_anonymous {
            None
        } else {
            match benefactor {
                Some(b) => Some(b),
                None => Some(sender),
            }
        },
        creator,
        amount,
        message,
        timestamp: now,
        is_anonymous,
    }
}

/// Store a tip record under `tip_id`.
pub fn store_tip_with_id(
    state: &mut Tipz,
    tip_id: u32,
    sender: Address,
    benefactor: Option<Address>,
    creator: Address,
    amount: i128,
    message: &Vec<u8>,
    is_anonymous: bool,
    now: u64,
)
    requires
        old(state).wf(),
    ensures
        final(state).wf(),
        *final(state) == (Tipz { tips: final(state).tips, ..*old(state) }),
        final(state).tips@.dom() == old(state).tips@.dom().insert(tip_id),
        forall|id: u32| id != tip_id && #[trigger] old(state).tips@.contains_key(id) ==> final(state).tips@[id] == old(state).tips@[id],
        final(state).tips@[tip_id]@ == tip_record(tip_id, sender, benefactor, creator, amount, message@, is_anonymous, now),
{
    let tip = Tip {
        id: tip_id,
        sender,
        benefactor: if is_anonymous {
            None
        } else {
            match benefactor {
                Some(b) => Some(b),
                None => Some(sender),
            }
        },
        creator,
        amount,
        message: copy_bytes(message),
        timestamp: now,
        is_anonymous,
    };
    state.tips.insert(tip_id, tip);
    assert(state.tips@.dom() =~= old(state).tips@.dom().insert(tip_id));
}

/// Create a new tip record with the next global tip ID and return the ID.
pub fn store_tip(
    state: &mut Tipz,
    sender: Address,
    benefactor: Option<Address>,
    creator: Address,
    amount: i128,
    message: &Vec<u8>,
    is_anonymous: bool,
    now: u64,
) -> (tip_id: u32)
    requires
        old(state).wf(),
        or_default(old(state).tip_count, 0) < u32::MAX,
    ensures
        final(state).wf(),
        tip_id == or_default(old(state).tip_count, 0),
        *final(state) == (Tipz {
            tips: final(state).tips,
            tip_count: Some((tip_id + 1) as u32),
            send_tip_state: match old(state).send_tip_state {
                Some(st) => Some(SendTipState { tip_count: (tip_id + 1) as u32, ..st }),
                None => None,
            },
            ..*old(state)
        }),
        final(state).tips@.dom() == old(state).tips@.dom().insert(tip_id),
        forall|id: u32| id != tip_id && #[trigger] old(state).tips@.contains_key(id) ==> final(state).tips@[id] == old(state).tips@[id],
        final(state).tips@[tip_id]@ == tip_record(tip_id, sender, benefactor, creator, amount, message@, is_anonymous, now),
{
    let tip_id = state.increment_tip_count();
    store_tip_with_id(state, tip_id, sender, benefactor, creator, amount, message, is_anonymous, now);
    tip_id
}

/// Retrieve a single tip by its ID.
pub fn get_tip(state: &Tipz, tip_id: u32) -> (r: Option<&Tip>)
    requires
        state.wf(),
    ensures
        match r {
            Some(t) => state.tips@.contains_key(tip_id) && *t == state.tips@[tip_id],
            None => !state.tips@.contains_key(tip_id),
        },
{
    state.tips.get(&tip_id)
}

/// The tip found at position `index` of an index (`None`: the position or
/// the tip is missing).
pub open spec fn indexed_tip(index: Map<(Address, u32), u32>, tips: Map<u32, Tip>, who: Address, i: int) -> Option<TipView> {
    match index.get((who, i as u32)) {
        Some(id) => match tips.get(id) {
            Some(t) => Some(t@),
            None => None,
        },
        None => None,
    }
}

/// The first `limit` tips found scanning positions `index - 1` down to 0,
/// skipping positions whose entry or tip is missing.
pub open spec fn collect_down(index: Map<(Address, u32), u32>, tips: Map<u32, Tip>, who: Address, from: int, limit: int) -> Seq<TipView>
    decreases from,
{
    if from <= 0 || limit <= 0 {
        Seq::empty()
    } else {
        match indexed_tip(index, tips, who, from - 1) {
            Some(t) => seq![t] + collect_down(index, tips, who, from - 1, limit - 1),
            None => collect_down(index, tips, who, from - 1, limit),
        }
    }
}

/// The views of a list of tips.
pub open spec fn tips_view(v: Seq<Tip>) -> Seq<TipView> {
    v.map_values(|t: Tip| t@)
}

/// Scan an index from position `start - 1` down, collecting up to `limit` tips.
fn scan_index(state: &Tipz, creator_index: bool, who: Address, start: u32, limit: u32) -> (r: Vec<Tip>)
    requires
        state.wf(),
    ensures
        tips_view(r@) == collect_down(
            if creator_index { state.creator_tips@ } else { state.tipper_tips@ },
            state.tips@,
            who,
            start as int,
            limit as int,
        ),
{
    let ghost index = if creator_index { state.creator_tips@ } else { state.tipper_tips@ };
    let mut result: Vec<Tip> = Vec::new();
    let mut found: u32 = 0;
    let mut i: u32 = start;
    while i > 0 && found < limit
        invariant
            state.wf(),
            index == (if creator_index { state.creator_tips@ } else { state.tipper_tips@ }),
            i <= start,
            found <= limit,
            tips_view(result@) + collect_down(index, state.tips@, who, i as int, (limit - found) as int)
                == collect_down(index, state.tips@, who, start as int, limit as int),
        decreases i,
    {
        i = i - 1;
        let entry = if creator_index {
            state.creator_tips.get(&(who, i))
        } else {
            state.tipper_tips.get(&(who, i))
        };
        let ghost prev = result@;
        let ghost rest = collect_down(index, state.tips@, who, i + 1, (limit - found) as int);
        if let Some(tip_id) = entry {
            if let Some(tip) = state.tips.get(tip_id) {
                result.push(copy_tip(tip));
                found = found + 1;
                assert(tips_view(result@) =~= tips_view(prev).push(tip@));
                assert(rest == seq![tip@] + collect_down(index, state.tips@, who, i as int, (limit - found) as int));
                assert(tips_view(result@) + collect_down(index, state.tips@, who, i as int, (limit - found) as int)
                    =~= tips_view(prev) + rest);
            } else {
                assert(rest == collect_down(index, state.tips@, who, i as int, (limit - found) as int));
            }
        } else {
            assert(rest == collect_down(index, state.tips@, who, i as int, (limit - found) as int));
        }
    }
    proof {
        assert(collect_down(index, state.tips@, who, i as int, (limit - found) as int) == Seq::<TipView>::empty());
        assert(tips_view(result@) + Seq::<TipView>::empty() =~= tips_view(result@));
    }
    result
}

/// Return up to `limit` (at most 50) recent tips received by `creator`,
/// newest first, starting `offset` positions back from the newest; missing
/// records are skipped, so the result may hold fewer tips.
pub fn get_recent_tips(state: &Tipz, creator: Address, limit: u32, offset: u32) -> (r: Vec<Tip>)
    requires
        state.wf(),
    ensures
        tips_view(r@) == collect_down(
            state.creator_tips@,
            state.tips@,
            creator,
            if state.spec_creator_tip_count(creator) >= offset {
                state.spec_creator_tip_count(creator) - offset
            } else {
                0
            },
            if limit > MAX_PAGE_LIMIT { MAX_PAGE_LIMIT as int } else { limit as int },
        ),
{
    let limit = if limit > MAX_PAGE_LIMIT {
        MAX_PAGE_LIMIT
    } else {
        limit
    };
    let count = state.get_creator_tip_count(creator);
    let start = count.saturating_sub(offset);
    scan_index(state, true, creator, start, limit)
}

/// Return up to `limit` recent tips sent by `tipper`, newest first; missing
/// records are skipped.
pub fn get_tips_by_tipper(state: &Tipz, tipper: Address, limit: u32) -> (r: Vec<Tip>)
    requires
        state.wf(),
    ensures
        tips_view(r@) == collect_down(
            state.tipper_tips@,
            state.tips@,
            tipper,
            state.spec_tipper_tip_count(tipper) as int,
            limit as int,
        ),
{
    let count = state.get_tipper_tip_count(tipper);
    scan_index(state, false, tipper, count, limit)
}

/// The tip recorded by a successful [`send_tip`] and the funds to move.
#[derive(Clone, Copy, Debug, PartialEq, Eq, Structural)]
pub struct TipOutcome {
    pub tip_id: u32,
    pub transfer: Transfer,
}

/// Why a message is refused, if it is.
pub open spec fn message_refusal(message: Seq<u8>) -> Option<ContractError> {
    if message.len() > 280 {
        Some(ContractError::MessageTooLong)
    } else if exists|i: int| 0 <= i < message.len() && #[trigger] is_forbidden_control(message[i]) {
        Some(ContractError::InvalidMessage)
    } else {
        None
    }
}

/// Why a tip of `amount` to `creator` is refused by the minimum, if it is.
pub open spec fn min_tip_refusal(state: Tipz, creator: Address, amount: i128) -> Option<ContractError> {
    if amount >= state.spec_effective_min_tip(creator) {
        None
    } else if state.spec_min_tip_override(creator) is Some {
        Some(ContractError::BelowCreatorMinimum)
    } else {
        Some(ContractError::TipBelowMinimum)
    }
}

/// Why [`send_tip`] refuses, if it does, in the order of its checks.
pub open spec fn send_tip_refusal(
    state: Tipz,
    tipper: Address,
    creator: Address,
    amount: i128,
    message: Seq<u8>,
    now: u64,
) -> Option<ContractError> {
    match state.runtime_config {
        None => Some(ContractError::NotInitialized),
        Some(config) => {
            if config.paused {
                Some(ContractError::ContractPaused)
            } else if tipper != config.admin && rate_limit_step(state.rate_limits@.get(tipper), config.rate_limit, now) is Err {
                Some(ContractError::RateLimitExceeded)
            } else if !state.profiles@.contains_key(creator) {
                Some(ContractError::NotRegistered)
            } else if tipper == creator {
                Some(ContractError::CannotTipSelf)
            } else if state.deactivated_at@.contains_key(creator) {
                Some(ContractError::ProfileDeactivated)
            } else if amount <= 0 {
                Some(ContractError::InvalidAmount)
            } else if min_tip_refusal(state, creator, amount) is Some {
                min_tip_refusal(state, creator, amount)
            } else if message_refusal(message) is Some {
                message_refusal(message)
            } else if !fits_i128(state.spec_send_tip_state().total_tips_volume + amount) {
                Some(ContractError::OverflowError)
            } else {
                None
            }
        },
    }
}

/// The profile after it received a tip of `amount` (before its credit score
/// is recomputed).
pub open spec fn credited_profile(p: Profile, amount: i128) -> Profile {
    Profile {
        balance: (p.balance + amount) as i128,
        total_tips_received: (p.total_tips_received + amount) as i128,
        total_tips_count: (p.total_tips_count + 1) as u32,
        ..p
    }
}

/// The counters after a tip of `amount` at `now`: one more tip, more volume,
/// and the 24-hour window either restarted at `now` or extended.
pub open spec fn counters_after_tip(st: SendTipState, amount: i128, now: u64) -> SendTipState {
    if now - st.stats_window_start > STATS_WINDOW_SECS {
        SendTipState {
            tip_count: (st.tip_count + 1) as u32,
            total_tips_volume: (st.total_tips_volume + amount) as i128,
            stats_window_start: now,
            tips_last_24h: 1,
            volume_last_24h: amount,
            active_creators_30d: st.active_creators_30d,
        }
    } else {
        SendTipState {
            tip_count: (st.tip_count + 1) as u32,
            total_tips_volume: (st.total_tips_volume + amount) as i128,
            stats_window_start: st.stats_window_start,
            tips_last_24h: (st.tips_last_24h + 1) as u32,
            volume_last_24h: (st.volume_last_24h + amount) as i128,
            active_creators_30d: st.active_creators_30d,
        }
    }
}

/// The arithmetic of an accepted tip fits its types.
pub open spec fn tip_arithmetic_fits(state: Tipz, tipper: Address, creator: Address, amount: i128, now: u64) -> bool {
    let p = state.profiles@[creator];
    let st = state.spec_send_tip_state();
    &&& fits_i128(p.balance + amount)
    &&& fits_i128(p.total_tips_received + amount)
    &&& p.total_tips_count < u32::MAX
    &&& st.tip_count < u32::MAX
    &&& now >= st.stats_window_start
    &&& now - st.stats_window_start <= STATS_WINDOW_SECS ==> st.tips_last_24h < u32::MAX && fits_i128(
        st.volume_last_24h + amount,
    )
    &&& state.spec_tipper_tip_count(tipper) < u32::MAX
    &&& state.spec_creator_tip_count(creator) < u32::MAX
}

/// Send a tip of `amount` from `tipper` to the registered `creator` at time
/// `now`. The creator's profile is credited and its credit score recomputed
/// with `score`, the leaderboards and counters are updated, the tip is
/// recorded and indexed, and the transfer of `amount` from the tipper to the
/// ledger is handed back.
pub fn send_tip<S: Fn(&Profile, u64) -> u32>(
    state: &mut Tipz,
    tipper: Address,
    creator: Address,
    amount: i128,
    message: &Vec<u8>,
    is_anonymous: bool,
    now: u64,
    score: &S,
) -> (r: Result<TipOutcome, ContractError>)
    requires
        old(state).wf(),
        send_tip_refusal(*old(state), tipper, creator, amount, message@, now) is None
            ==> tip_arithmetic_fits(*old(state), tipper, creator, amount, now),
        forall|p: &Profile, t: u64| score.requires((p, t)),
    ensures
        final(state).wf(),
        match send_tip_refusal(*old(state), tipper, creator, amount, message@, now) {
            Some(e) => r == Err::<TipOutcome, ContractError>(e) && *final(state) == *old(state),
            None => {
                let config = old(state).runtime_config->0;
                let st = old(state).spec_send_tip_state();
                let tip_id = st.tip_count;
                let credited = credited_profile(old(state).profiles@[creator], amount);
                let updated = final(state).profiles@[creator];
                let next = counters_after_tip(st, amount, now);
                &&& r == Ok::<TipOutcome, ContractError>(TipOutcome {
                    tip_id,
                    transfer: Transfer { from: tipper, to: old(state).contract_address, amount },
                })
                &&& *final(state) == (Tipz {
                    rate_limits: final(state).rate_limits,
                    profiles: final(state).profiles,
                    leaderboard_set: final(state).leaderboard_set,
                    leaderboard_all_time: final(state).leaderboard_all_time,
                    leaderboard_monthly: final(state).leaderboard_monthly,
                    leaderboard_weekly: final(state).leaderboard_weekly,
                    last_reset_all_time: final(state).last_reset_all_time,
                    last_reset_monthly: final(state).last_reset_monthly,
                    last_reset_weekly: final(state).last_reset_weekly,
                    creator_period_volumes: final(state).creator_period_volumes,
                    creator_period_volume: final(state).creator_period_volume,
                    tips: final(state).tips,
                    tipper_tips: final(state).tipper_tips,
                    tipper_tip_count: final(state).tipper_tip_count,
                    creator_tips: final(state).creator_tips,
                    creator_tip_count: final(state).creator_tip_count,
                    creator_last_active: final(state).creator_last_active,
                    streaks: final(state).streaks,
                    send_tip_state: Some(next),
                    tip_count: Some(next.tip_count),
                    total_tips_volume: Some(next.total_tips_volume),
                    stats_window_start: Some(next.stats_window_start),
                    tips_last_24h: Some(next.tips_last_24h),
                    volume_last_24h: Some(next.volume_last_24h),
                    active_creators_30d: Some(next.active_creators_30d),
                    ..*old(state)
                })
                &&& tipper == config.admin ==> final(state).rate_limits@ == old(state).rate_limits@
                &&& tipper != config.admin ==> final(state).rate_limits@ == old(state).rate_limits@.insert(
                    tipper,
                    rate_limit_step(old(state).rate_limits@.get(tipper), config.rate_limit, now)->Ok_0,
                )
                &&& final(state).profiles@ == old(state).profiles@.insert(creator, updated)
                &&& updated == (Profile { credit_score: updated.credit_score, ..credited })
                &&& score.ensures((&credited, now), updated.credit_score)
                &&& boards_after_tip(*final(state), *old(state), updated, amount)
                &&& final(state).tips@.dom() == old(state).tips@.dom().insert(tip_id)
                &&& forall|id: u32| id != tip_id && #[trigger] old(state).tips@.contains_key(id)
                    ==> final(state).tips@[id] == old(state).tips@[id]
                &&& final(state).tips@[tip_id]@ == tip_record(tip_id, tipper, None, creator, amount, message@, is_anonymous, now)
                &&& final(state).tipper_tips@ == old(state).tipper_tips@.insert((tipper, old(state).spec_tipper_tip_count(tipper)), tip_id)
                &&& final(state).tipper_tip_count@ == old(state).tipper_tip_count@.insert(tipper, (old(state).spec_tipper_tip_count(tipper) + 1) as u32)
                &&& final(state).creator_tips@ == old(state).creator_tips@.insert((creator, old(state).spec_creator_tip_count(creator)), tip_id)
                &&& final(state).creator_tip_count@ == old(state).creator_tip_count@.insert(creator, (old(state).spec_creator_tip_count(creator) + 1) as u32)
                &&& final(state).creator_last_active@ == old(state).creator_last_active@.insert(creator, now)
                &&& final(state).streaks@ == old(state).streaks@.insert(
                    (tipper, creator),
                    streak_after_tip(old(state).streaks@.get((tipper, creator)), tipper, creator, now),
                )
            },
        },
{
    let config = match state.get_runtime_config() {
        Some(c) => c,
        None => {
            return Err(ContractError::NotInitialized);
        },
    };
    if config.paused {
        return Err(ContractError::ContractPaused);
    }
    // The tipper's rate-limit window is counted once every check has passed.
    let rate_status: Option<RateLimitStatus> = if tipper.id == config.admin.id {
        None
    } else {
        match rate_limit_next(state.get_rate_limit_status(tipper), config.rate_limit, now) {
            Ok(st) => Some(st),
            Err(e) => {
                return Err(e);
            },
        }
    };
    if !state.has_profile(creator) {
        return Err(ContractError::NotRegistered);
    }
    if tipper.id == creator.id {
        return Err(ContractError::CannotTipSelf);
    }
    if state.is_profile_deactivated(creator) {
        return Err(ContractError::ProfileDeactivated);
    }
    // A tip must be a positive amount.
    if amount <= 0 {
        return Err(ContractError::InvalidAmount);
    }
    validate_tip_for_creator(state, creator, amount)?;
    validate_message(message)?;
    let mut tip_state = state.get_or_build_send_tip_state();
    let new_volume = match tip_state.total_tips_volume.checked_add(amount) {
        Some(v) => v,
        None => {
            return Err(ContractError::OverflowError);
        },
    };
    let ghost s0 = *state;
    if let Some(st) = rate_status {
        state.set_rate_limit_status(tipper, st);
    }
    // The supporter's streak is recorded before the score is recomputed.
    record_tip_streak(state, tipper, creator, now);
    let ghost s1 = *state;
    let mut profile = state.profiles.remove(&creator).unwrap();
    profile.balance = profile.balance + amount;
    profile.total_tips_received = profile.total_tips_received + amount;
    profile.total_tips_count = profile.total_tips_count + 1;
    let ghost credited = profile;
    profile.credit_score = score(&profile, now);
    let ghost s2 = *state;
    update_all_leaderboards_for_active(state, &profile, amount);
    let ghost s3 = *state;
    assert(boards_after_tip(s3, s0, profile, amount));
    let ghost pf = profile;
    assert(s1.profiles@ == old(state).profiles@);
    assert(s3.profiles@ == s1.profiles@.remove(creator));
    state.set_profile(profile);
    assert(state.profiles@ =~= old(state).profiles@.insert(creator, pf));
    let tip_id = tip_state.tip_count;
    tip_state.tip_count = tip_state.tip_count + 1;
    tip_state.total_tips_volume = new_volume;
    if now - tip_state.stats_window_start > STATS_WINDOW_SECS {
        tip_state.stats_window_start = now;
        tip_state.tips_last_24h = 1;
        tip_state.volume_last_24h = amount;
    } else {
        tip_state.tips_last_24h = tip_state.tips_last_24h + 1;
        tip_state.volume_last_24h = tip_state.volume_last_24h + amount;
    }
    store_tip_with_id(state, tip_id, tipper, None, creator, amount, message, is_anonymous, now);
    state.add_tipper_tip(tipper, tip_id);
    state.add_creator_tip(creator, tip_id);
    state.apply_send_tip_state(tip_state);
    state.set_creator_last_active(creator, now);
    Ok(TipOutcome {
        tip_id,
        transfer: Transfer { from: tipper, to: state.contract_address, amount },
    })
}

/// The 24-hour window `(start, tips, volume)` after a tip of `amount` at
/// `now`: restarted at `now` once more than a day has passed since `start`,
/// else extended.
pub open spec fn window_after_tip(start: u64, tips: u32, volume: i128, amount: i128, now: u64) -> (u64, u32, i128) {
    if now - start > STATS_WINDOW_SECS {
        (now, 1, amount)
    } else {
        (start, (tips + 1) as u32, (volume + amount) as i128)
    }
}

/// The stored 24-hour window after a tip of `amount` at `now`.
pub open spec fn stats_after_tip(state: Tipz, amount: i128, now: u64) -> (u64, u32, i128) {
    window_after_tip(
        or_default(state.stats_window_start, 0),
        or_default(state.tips_last_24h, 0),
        or_default(state.volume_last_24h, 0),
        amount,
        now,
    )
}

/// The arithmetic of the 24-hour window fits its types for a tip of
/// `amount` at `now`.
pub open spec fn stats_fit(state: Tipz, amount: i128, now: u64) -> bool {
    let start = or_default(state.stats_window_start, 0);
    &&& now >= start
    &&& now - start <= STATS_WINDOW_SECS ==> or_default(state.tips_last_24h, 0) < u32::MAX && fits_i128(
        or_default(state.volume_last_24h, 0) + amount,
    )
}

/// Count a tip of `amount` at `now` in the 24-hour statistics.
pub fn update_24h_stats(state: &mut Tipz, amount: i128, now: u64)
    requires
        stats_fit(*old(state), amount, now),
    ensures
        ({
            let (ws, wt, wv) = stats_after_tip(*old(state), amount, now);
            *final(state) == (Tipz {
                stats_window_start: Some(ws),
                tips_last_24h: Some(wt),
                volume_last_24h: Some(wv),
                send_tip_state: match old(state).send_tip_state {
                    Some(st) => Some(SendTipState { stats_window_start: ws, tips_last_24h: wt, volume_last_24h: wv, ..st }),
                    None => None,
                },
                ..*old(state)
            })
        }),
{
    let start = state.get_stats_window_start();
    if now - start > STATS_WINDOW_SECS {
        state.set_stats_window_start(now);
        state.set_tips_last_24h(1);
        state.set_volume_last_24h(amount);
    } else {
        let tips = state.get_tips_last_24h();
        let volume = state.get_volume_last_24h();
        state.set_stats_window_start(start);
        state.set_tips_last_24h(tips + 1);
        state.set_volume_last_24h(volume + amount);
    }
}

/// Mark a creator active at `now`.
pub fn mark_creator_active(state: &mut Tipz, creator: Address, now: u64)
    requires
        old(state).wf(),
    ensures
        final(state).wf(),
        *final(state) == (Tipz { creator_last_active: final(state).creator_last_active, ..*old(state) }),
        final(state).creator_last_active@ == old(state).creator_last_active@.insert(creator, now),
{
    state.set_creator_last_active(creator, now);
}

/// Why [`send_tip_on_behalf`] refuses, if it does, in the order of its checks.
pub open spec fn send_tip_on_behalf_refusal(
    state: Tipz,
    sender: Address,
    on_behalf_of: Address,
    creator: Address,
    amount: i128,
    message: Seq<u8>,
    now: u64,
) -> Option<ContractError> {
    if state.spec_paused() {
        Some(ContractError::ContractPaused)
    } else if !(state.initialized && state.spec_admin() == Some(sender))
        && rate_limit_step(state.rate_limits@.get(sender), state.spec_rate_limit_config(), now) is Err {
        Some(ContractError::RateLimitExceeded)
    } else if !state.profiles@.contains_key(creator) {
        Some(ContractError::NotRegistered)
    } else if state.deactivated_at@.contains_key(creator) {
        Some(ContractError::ProfileDeactivated)
    } else if sender == creator || on_behalf_of == creator {
        Some(ContractError::CannotTipSelf)
    } else if min_tip_refusal(state, creator, amount) is Some {
        min_tip_refusal(state, creator, amount)
    } else if message_refusal(message) is Some {
        message_refusal(message)
    } else if !fits_i128(or_default(state.total_tips_volume, 0) + amount) {
        Some(ContractError::OverflowError)
    } else {
        None
    }
}

/// The per-tipper count of `on_behalf_of` once the sender's tip is indexed.
pub open spec fn benefactor_index_count(state: Tipz, sender: Address, on_behalf_of: Address) -> u32 {
    if on_behalf_of == sender {
        (state.spec_tipper_tip_count(sender) + 1) as u32
    } else {
        state.spec_tipper_tip_count(on_behalf_of)
    }
}

/// Send a tip of `amount` funded by `sender` and credited to
/// `on_behalf_of`. The tip shows in both their histories; the transfer of
/// `amount` from the sender to the ledger is handed back.
pub fn send_tip_on_behalf<S: Fn(&Profile, u64) -> u32>(
    state: &mut Tipz,
    sender: Address,
    on_behalf_of: Address,
    creator: Address,
    amount: i128,
    message: &Vec<u8>,
    now: u64,
    score: &S,
) -> (r: Result<TipOutcome, ContractError>)
    requires
        old(state).wf(),
        old(state).initialized ==> old(state).spec_admin() is Some,
        send_tip_on_behalf_refusal(*old(state), sender, on_behalf_of, creator, amount, message@, now) is None ==> {
            let p = old(state).profiles@[creator];
            &&& fits_i128(p.balance + amount)
            &&& fits_i128(p.total_tips_received + amount)
            &&& p.total_tips_count < u32::MAX
            &&& or_default(old(state).tip_count, 0) < u32::MAX
            &&& old(state).spec_tipper_tip_count(sender) < u32::MAX
            &&& benefactor_index_count(*old(state), sender, on_behalf_of) < u32::MAX
            &&& old(state).spec_creator_tip_count(creator) < u32::MAX
            &&& stats_fit(*old(state), amount, now)
        },
        forall|p: &Profile, t: u64| score.requires((p, t)),
    ensures
        final(state).wf(),
        match send_tip_on_behalf_refusal(*old(state), sender, on_behalf_of, creator, amount, message@, now) {
            Some(e) => r == Err::<TipOutcome, ContractError>(e) && *final(state) == *old(state),
            None => {
                let tip_id = or_default(old(state).tip_count, 0);
                let credited = credited_profile(old(state).profiles@[creator], amount);
                let updated = final(state).profiles@[creator];
                let c1 = old(state).spec_tipper_tip_count(sender);
                let c2 = benefactor_index_count(*old(state), sender, on_behalf_of);
                let volume = (or_default(old(state).total_tips_volume, 0) + amount) as i128;
                let (ws, wt, wv) = stats_after_tip(*old(state), amount, now);
                &&& r == Ok::<TipOutcome, ContractError>(TipOutcome {
                    tip_id,
                    transfer: Transfer { from: sender, to: old(state).contract_address, amount },
                })
                &&& *final(state) == (Tipz {
                    rate_limits: final(state).rate_limits,
                    profiles: final(state).profiles,
                    leaderboard_set: final(state).leaderboard_set,
                    leaderboard_all_time: final(state).leaderboard_all_time,
                    leaderboard_monthly: final(state).leaderboard_monthly,
                    leaderboard_weekly: final(state).leaderboard_weekly,
                    last_reset_all_time: final(state).last_reset_all_time,
                    last_reset_monthly: final(state).last_reset_monthly,
                    last_reset_weekly: final(state).last_reset_weekly,
                    creator_period_volumes: final(state).creator_period_volumes,
                    creator_period_volume: final(state).creator_period_volume,
                    tips: final(state).tips,
                    tipper_tips: final(state).tipper_tips,
                    tipper_tip_count: final(state).tipper_tip_count,
                    creator_tips: final(state).creator_tips,
                    creator_tip_count: final(state).creator_tip_count,
                    tip_count: Some((tip_id + 1) as u32),
                    total_tips_volume: Some(volume),
                    stats_window_start: Some(ws),
                    tips_last_24h: Some(wt),
                    volume_last_24h: Some(wv),
                    creator_last_active: final(state).creator_last_active,
                    send_tip_state: match old(state).send_tip_state {
                        Some(st) => Some(SendTipState {
                            tip_count: (tip_id + 1) as u32,
                            total_tips_volume: volume,
                            stats_window_start: ws,
                            tips_last_24h: wt,
                            volume_last_24h: wv,
                            ..st
                        }),
                        None => None,
                    },
                    ..*old(state)
                })
                &&& old(state).initialized && old(state).spec_admin() == Some(sender)
                    ==> final(state).rate_limits@ == old(state).rate_limits@
                &&& !(old(state).initialized && old(state).spec_admin() == Some(sender))
                    ==> final(state).rate_limits@ == old(state).rate_limits@.insert(
                    sender,
                    rate_limit_step(old(state).rate_limits@.get(sender), old(state).spec_rate_limit_config(), now)->Ok_0,
                )
                &&& final(state).profiles@ == old(state).profiles@.insert(creator, updated)
                &&& updated == (Profile { credit_score: updated.credit_score, ..credited })
                &&& score.ensures((&credited, now), updated.credit_score)
                &&& boards_after_tip(*final(state), *old(state), updated, amount)
                &&& final(state).tips@.dom() == old(state).tips@.dom().insert(tip_id)
                &&& forall|id: u32| id != tip_id && #[trigger] old(state).tips@.contains_key(id)
                    ==> final(state).tips@[id] == old(state).tips@[id]
                &&& final(state).tips@[tip_id]@ == tip_record(tip_id, sender, Some(on_behalf_of), creator, amount, message@, false, now)
                &&& final(state).tipper_tips@ == old(state).tipper_tips@.insert((sender, c1), tip_id).insert((on_behalf_of, c2), tip_id)
                &&& final(state).tipper_tip_count@ == old(state).tipper_tip_count@.insert(sender, (c1 + 1) as u32).insert(
                    on_behalf_of,
                    (c2 + 1) as u32,
                )
                &&& final(state).creator_tips@ == old(state).creator_tips@.insert((creator, old(state).spec_creator_tip_count(creator)), tip_id)
                &&& final(state).creator_tip_count@ == old(state).creator_tip_count@.insert(creator, (old(state).spec_creator_tip_count(creator) + 1) as u32)
                &&& final(state).creator_last_active@ == old(state).creator_last_active@.insert(creator, now)
            },
        },
{
    require_not_paused(state)?;
    // The sender's rate-limit window is counted once every check has passed.
    let exempt = state.is_initialized() && sender.id == state.get_admin().id;
    let rate_status: Option<RateLimitStatus> = if exempt {
        None
    } else {
        let config = state.get_rate_limit_config();
        match rate_limit_next(state.get_rate_limit_status(sender), config, now) {
            Ok(st) => Some(st),
            Err(e) => {
                return Err(e);
            },
        }
    };
    if !state.has_profile(creator) {
        return Err(ContractError::NotRegistered);
    }
    if state.is_profile_deactivated(creator) {
        return Err(ContractError::ProfileDeactivated);
    }
    if sender.id == creator.id || on_behalf_of.id == creator.id {
        return Err(ContractError::CannotTipSelf);
    }
    validate_tip_for_creator(state, creator, amount)?;
    validate_message(message)?;
    if state.get_total_tips_volume().checked_add(amount).is_none() {
        return Err(ContractError::OverflowError);
    }
    let ghost s0 = *state;
    if let Some(st) = rate_status {
        state.set_rate_limit_status(sender, st);
    }
    let ghost s1 = *state;
    let mut profile = state.profiles.remove(&creator).unwrap();
    profile.balance = profile.balance + amount;
    profile.total_tips_received = profile.total_tips_received + amount;
    profile.total_tips_count = profile.total_tips_count + 1;
    let ghost credited = profile;
    profile.credit_score = score(&profile, now);
    update_all_leaderboards(state, &profile, amount);
    let ghost s3 = *state;
    assert(boards_after_tip(s3, s0, profile, amount));
    let ghost pf = profile;
    assert(s1.profiles@ == old(state).profiles@);
    state.set_profile(profile);
    assert(state.profiles@ =~= old(state).profiles@.insert(creator, pf));
    let tip_id = store_tip(state, sender, Some(on_behalf_of), creator, amount, message, false, now);
    state.add_tipper_tip(sender, tip_id);
    // Also show in the benefactor's history
    state.add_tipper_tip(on_behalf_of, tip_id);
    state.add_creator_tip(creator, tip_id);
    let added = state.add_to_tips_volume(amount);
    assert(added is Ok);
    update_24h_stats(state, amount, now);
    mark_creator_active(state, creator, now);
    Ok(TipOutcome {
        tip_id,
        transfer: Transfer { from: sender, to: state.contract_address, amount },
    })
}

/// Why [`withdraw_tips`] refuses, if it does, in the order of its checks.
pub open spec fn withdraw_refusal(state: Tipz, caller: Address, amount: i128) -> Option<ContractError> {
    if state.spec_paused() {
        Some(ContractError::ContractPaused)
    } else if !state.profiles@.contains_key(caller) {
        Some(ContractError::NotRegistered)
    } else if amount <= 0 {
        Some(ContractError::InvalidAmount)
    } else if state.profiles@[caller].balance < amount {
        Some(ContractError::InsufficientBalance)
    } else {
        match withdrawal_split(amount, state.spec_fee_bps()) {
            None => Some(ContractError::OverflowError),
            Some((fee, net)) => if fee > 0 && !fits_i128(or_default(state.total_fees_collected, 0) + fee) {
                Some(ContractError::OverflowError)
            } else {
                None
            },
        }
    }
}

/// The transfers of a withdrawal: the net amount to the creator, then the
/// fee (when positive) to the fee collector.
pub open spec fn withdrawal_transfers(contract: Address, caller: Address, collector: Address, fee: i128, net: i128) -> Seq<Transfer> {
    if fee > 0 {
        seq![Transfer { from: contract, to: caller, amount: net }, Transfer { from: contract, to: collector, amount: fee }]
    } else {
        seq![Transfer { from: contract, to: caller, amount: net }]
    }
}

/// Withdraw `amount` from the caller's balance. The amount is split into
/// the protocol fee (to the fee collector) and the net amount (to the
/// creator); the balance goes down by `amount` and the fee is added to the
/// fees collected.
pub fn withdraw_tips(state: &mut Tipz, caller: Address, amount: i128) -> (r: Result<Vec<Transfer>, ContractError>)
    requires
        old(state).wf(),
        withdraw_refusal(*old(state), caller, amount) is None ==> old(state).spec_fee_collector() is Some,
    ensures
        final(state).wf(),
        match withdraw_refusal(*old(state), caller, amount) {
            Some(e) => r is Err && r->Err_0 == e && *final(state) == *old(state),
            None => {
                let (fee, net) = withdrawal_split(amount, old(state).spec_fee_bps())->Some_0;
                let p = old(state).profiles@[caller];
                &&& r is Ok
                &&& r->Ok_0@ == withdrawal_transfers(old(state).contract_address, caller, old(state).spec_fee_collector()->Some_0, fee, net)
                &&& *final(state) == (Tipz {
                    profiles: final(state).profiles,
                    total_fees_collected: final(state).total_fees_collected,
                    ..*old(state)
                })
                &&& final(state).profiles@ == old(state).profiles@.insert(
                    caller,
                    Profile { balance: (p.balance - amount) as i128, ..p },
                )
                &&& fee > 0 ==> final(state).total_fees_collected == Some((or_default(old(state).total_fees_collected, 0) + fee) as i128)
                &&& fee <= 0 ==> final(state).total_fees_collected == old(state).total_fees_collected
            },
        },
{
    require_not_paused(state)?;
    if !state.has_profile(caller) {
        return Err(ContractError::NotRegistered);
    }
    if amount <= 0 {
        return Err(ContractError::InvalidAmount);
    }
    if state.get_profile(caller).balance < amount {
        return Err(ContractError::InsufficientBalance);
    }
    let fee_bps = state.get_fee_bps();
    let (fee, net) = calculate_fee(amount, fee_bps)?;
    if fee > 0 && state.get_total_fees().checked_add(fee).is_none() {
        return Err(ContractError::OverflowError);
    }
    let contract_address = state.contract_address;
    let fee_collector = state.get_fee_collector();
    let mut transfers: Vec<Transfer> = Vec::new();
    // Net amount to the creator
    transfers.push(Transfer { from: contract_address, to: caller, amount: net });
    // Fee to the collector (if fee > 0)
    if fee > 0 {
        transfers.push(Transfer { from: contract_address, to: fee_collector, amount: fee });
    }
    let mut profile = state.profiles.remove(&caller).unwrap();
    profile.balance = profile.balance - amount;
    let ghost pf = profile;
    state.set_profile(profile);
    assert(state.profiles@ =~= old(state).profiles@.insert(caller, pf));
    if fee > 0 {
        let added = state.add_to_fees(fee);
        assert(added is Ok);
    }
    assert(transfers@ =~= withdrawal_transfers(contract_address, caller, fee_collector, fee, net));
    Ok(transfers)
}

} // verus!
