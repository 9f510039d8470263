//! Refunds of tips with time-based windows.
//!
//! A tipper may ask for a refund within the request window (default 24
//! hours) after the tip. The creator approves or rejects it; a request left
//! unanswered past the response window (default 48 hours) may be approved by
//! anyone. The platform fee is non-refundable: the tipper gets the tip less
//! the fee, and the creator's balance and totals lose the whole tip. An
//! operation that returns an error leaves the stored state as it was.

use vstd::prelude::*;

use crate::admin::{require_admin, require_not_paused};
use crate::errors::ContractError;
use crate::fees::{bps_of, bps_share, fits_i128};
use crate::storage::{sat_sub, saturating_sub_i128, Tipz};
use crate::tips::{credited_profile, tip_record, Transfer};
use crate::leaderboard::{boards_after_tip, only_boards_changed, update_all_leaderboards_for_refund};
use crate::types::{Address, LeaderboardPeriod, Profile, RefundConfig, RefundRequest, RefundStatus};
use vstd::seq_lib::lemma_seq_contains_after_push;

verus! {

/// Calculate the non-refundable fee of a refund: `amount * fee_bps / 10_000`
/// rounded toward zero; `OverflowError` when the product does not fit.
pub fn calculate_non_refundable_fee(amount: i128, fee_bps: u32) -> (r: Result<i128, ContractError>)
    ensures
        match bps_share(amount, fee_bps) {
            Some(f) => r == Ok::<i128, ContractError>(f),
            None => r == Err::<i128, ContractError>(ContractError::OverflowError),
        },
{
    bps_of(amount, fee_bps)
}

/// `a - b` for times, 0 when `b` is later.
pub open spec fn elapsed_since(now: u64, then: u64) -> u64 {
    if now >= then {
        (now - then) as u64
    } else {
        0
    }
}

/// The request [`request_refund`] records, or why it refuses.
pub open spec fn request_refund_outcome(state: Tipz, tipper: Address, tip_id: u32, now: u64) -> Result<RefundRequest, ContractError> {
    if state.spec_paused() {
        Err(ContractError::ContractPaused)
    } else if !state.tips@.contains_key(tip_id) {
        Err(ContractError::NotFound)
    } else {
        let tip = state.tips@[tip_id];
        let config = state.spec_refund_config();
        if tip.sender != tipper {
            Err(ContractError::NotTipper)
        } else if state.refund_requests@.contains_key(tip_id) {
            Err(ContractError::RefundAlreadyRequested)
        } else if elapsed_since(now, tip.timestamp) > config.request_window_secs {
            Err(ContractError::RefundWindowExpired)
        } else {
            match bps_share(tip.amount, config.non_refundable_fee_bps) {
                None => Err(ContractError::OverflowError),
                Some(fee) => Ok(
                    RefundRequest {
                        tip_id,
                        tipper,
                        creator: tip.creator,
                        amount: tip.amount,
                        requested_at: now,
                        status: RefundStatus::Pending,
                        processed_at: None,
                        refund_amount: sat_sub(tip.amount, fee),
                        non_refundable_fee: fee,
                    },
                ),
            }
        }
    }
}

/// Request a refund for a tip within the allowed time window.
///
/// Errors, in this order: `ContractPaused`; `NotFound` (no such tip, or it
/// expired); `NotTipper` (the caller did not send it);
/// `RefundAlreadyRequested`; `RefundWindowExpired`; `OverflowError`.
pub fn request_refund(state: &mut Tipz, tipper: Address, tip_id: u32, now: u64) -> (r: Result<(), ContractError>)
    requires
        old(state).wf(),
    ensures
        final(state).wf(),
        match request_refund_outcome(*old(state), tipper, tip_id, now) {
            Ok(request) => r is Ok && *final(state) == (Tipz { refund_requests: final(state).refund_requests, ..*old(state) })
                && final(state).refund_requests@ == old(state).refund_requests@.insert(tip_id, request),
            Err(e) => r == Err::<(), ContractError>(e) && *final(state) == *old(state),
        },
{
    require_not_paused(state)?;
    let (sender, tip_creator, tip_amount, tip_timestamp) = match state.tips.get(&tip_id) {
        Some(tip) => (tip.sender, tip.creator, tip.amount, tip.timestamp),
        None => {
            return Err(ContractError::NotFound);
        },
    };
    // Verify caller is the tipper
    if sender.id != tipper.id {
        return Err(ContractError::NotTipper);
    }
    // Check if refund already requested
    if state.get_refund_request(tip_id).is_some() {
        return Err(ContractError::RefundAlreadyRequested);
    }
    // Check if within refund window
    let config = state.get_refund_config();
    let elapsed = now.saturating_sub(tip_timestamp);
    if elapsed > config.request_window_secs {
        return Err(ContractError::RefundWindowExpired);
    }
    // Refund amount: the tip amount minus the non-refundable fee
    let non_refundable_fee = calculate_non_refundable_fee(tip_amount, config.non_refundable_fee_bps)?;
    let refund_amount = saturating_sub_i128(tip_amount, non_refundable_fee);
    let request = RefundRequest {
        tip_id,
        tipper,
        creator: tip_creator,
        amount: tip_amount,
        requested_at: now,
        status: RefundStatus::Pending,
        processed_at: None,
        refund_amount,
        non_refundable_fee,
    };
    state.set_refund_request(request);
    Ok(())
}

/// Why the creator's answer to the refund request of `tip_id` is refused,
/// if it is.
pub open spec fn answer_refusal(state: Tipz, creator: Address, tip_id: u32) -> Option<ContractError> {
    if state.spec_paused() {
        Some(ContractError::ContractPaused)
    } else if !state.refund_requests@.contains_key(tip_id) {
        Some(ContractError::NoRefundRequest)
    } else if state.refund_requests@[tip_id].creator != creator {
        Some(ContractError::NotCreator)
    } else if state.refund_requests@[tip_id].status != RefundStatus::Pending {
        Some(ContractError::RefundAlreadyProcessed)
    } else {
        None
    }
}

/// The creator's profile after a refund of a tip of `amount` (before its
/// credit score is recomputed): balance and lifetime total lose `amount`,
/// the tip count loses one, all without going past their bounds.
pub open spec fn refunded_profile(p: Profile, amount: i128) -> Profile {
    Profile {
        balance: sat_sub(p.balance, amount),
        total_tips_received: sat_sub(p.total_tips_received, amount),
        total_tips_count: if p.total_tips_count > 0 { (p.total_tips_count - 1) as u32 } else { 0 },
        ..p
    }
}

/// The request once processed at `now` with `status`.
pub open spec fn processed_request(request: RefundRequest, status: RefundStatus, now: u64) -> RefundRequest {
    RefundRequest { status, processed_at: Some(now), ..request }
}

/// The transfer that pays a refund.
pub open spec fn refund_transfer(contract: Address, request: RefundRequest) -> Transfer {
    Transfer { from: contract, to: request.tipper, amount: request.refund_amount }
}

/// `after` is `before` once `request` is processed at `now` with `status`:
/// the creator's profile loses the tip (balance, lifetime total, tip count)
/// and gets a credit score that `score` may give for it; the request is
/// recorded as processed; and, unless the creator is deactivated, the
/// leaderboards are refreshed for the reduced totals. Nothing else changes.
pub open spec fn refund_step<S: Fn(&Profile, u64) -> u32>(
    before: Tipz,
    after: Tipz,
    request: RefundRequest,
    status: RefundStatus,
    now: u64,
    score: &S,
) -> bool {
    let refunded = refunded_profile(before.profiles@[request.creator], request.amount);
    let updated = after.profiles@[request.creator];
    let mid = Tipz { profiles: after.profiles, refund_requests: after.refund_requests, ..before };
    &&& after.profiles@ == before.profiles@.insert(request.creator, updated)
    &&& updated == (Profile { credit_score: updated.credit_score, ..refunded })
    &&& score.ensures((&refunded, now), updated.credit_score)
    &&& after.refund_requests@ == before.refund_requests@.insert(
        request.tip_id,
        processed_request(request, status, now),
    )
    &&& before.deactivated_at@.contains_key(request.creator) ==> after == mid
    &&& !before.deactivated_at@.contains_key(request.creator) ==> {
        &&& only_boards_changed(after, mid)
        &&& boards_after_tip(after, mid, updated, sat_sub(0, request.amount))
    }
}

/// `score` never gives a profile a higher score once its balance, lifetime
/// total and tip count went down at the same time (all else equal).
pub open spec fn score_never_rises_on_refund<S: Fn(&Profile, u64) -> u32>(score: &S) -> bool {
    forall|p: Profile, q: Profile, t: u64, c1: u32, c2: u32|
        #![trigger score.ensures((&p, t), c1), score.ensures((&q, t), c2)]
        q == (Profile {
            balance: q.balance,
            total_tips_received: q.total_tips_received,
            total_tips_count: q.total_tips_count,
            ..p
        }) && q.balance <= p.balance && q.total_tips_received <= p.total_tips_received
            && q.total_tips_count <= p.total_tips_count && score.ensures((&p, t), c1) && score.ensures((&q, t), c2)
            ==> c2 <= c1
}

/// Law: with a score that never rises when a profile's totals fall, a refund
/// of a tip (a non-negative amount) does not raise a creator's credit score
/// that was current at the time of the refund.
pub proof fn lemma_refund_does_not_raise_score<S: Fn(&Profile, u64) -> u32>(
    before: Tipz,
    after: Tipz,
    request: RefundRequest,
    status: RefundStatus,
    now: u64,
    score: &S,
)
    requires
        refund_step(before, after, request, status, now, score),
        score_never_rises_on_refund(score),
        request.amount >= 0,
        score.ensures((&before.profiles@[request.creator], now), before.profiles@[request.creator].credit_score),
    ensures
        after.profiles@[request.creator].credit_score <= before.profiles@[request.creator].credit_score,
{
    let p = before.profiles@[request.creator];
    let q = refunded_profile(p, request.amount);
    let c2 = after.profiles@[request.creator].credit_score;
    assert(score.ensures((&q, now), c2));
    assert(score.ensures((&p, now), p.credit_score));
    assert(q == (Profile {
        balance: q.balance,
        total_tips_received: q.total_tips_received,
        total_tips_count: q.total_tips_count,
        ..p
    }));
}

/// Process a refund: take the tip off the creator's profile, recompute the
/// creator's credit score with `score`, refresh the leaderboards, record the
/// new status, and hand back the payment of the refund amount to the tipper.
fn process_refund_internal<S: Fn(&Profile, u64) -> u32>(
    state: &mut Tipz,
    request: RefundRequest,
    new_status: RefundStatus,
    now: u64,
    score: &S,
) -> (r: Transfer)
    requires
        old(state).wf(),
        old(state).profiles@.contains_key(request.creator),
        forall|p: &Profile, t: u64| score.requires((p, t)),
    ensures
        final(state).wf(),
        r == refund_transfer(old(state).contract_address, request),
        refund_step(*old(state), *final(state), request, new_status, now, score),
{
    let mut creator_profile = state.profiles.remove(&request.creator).unwrap();
    // Reduce the creator's balance by the whole tip amount
    creator_profile.balance = saturating_sub_i128(creator_profile.balance, request.amount);
    // Reduce total tips received and count
    creator_profile.total_tips_received = saturating_sub_i128(creator_profile.total_tips_received, request.amount);
    creator_profile.total_tips_count = creator_profile.total_tips_count.saturating_sub(1);
    // Recalculate credit score
    creator_profile.credit_score = score(&creator_profile, now);
    let ghost pf = creator_profile;
    let ghost s1 = *state;
    // Update leaderboards (subtract the refunded amount)
    update_all_leaderboards_for_refund(state, &creator_profile, request.amount);
    let ghost s2 = *state;
    state.set_profile(creator_profile);
    assert(state.profiles@ =~= old(state).profiles@.insert(request.creator, pf));
    // Transfer refund amount to tipper; the non-refundable fee stays.
    let transfer = Transfer { from: state.contract_address, to: request.tipper, amount: request.refund_amount };
    let mut processed = request;
    processed.status = new_status;
    processed.processed_at = Some(now);
    state.set_refund_request(processed);
    proof {
        let mid = Tipz { profiles: state.profiles, refund_requests: state.refund_requests, ..*old(state) };
        assert(s1.deactivated_at == old(state).deactivated_at);
        if !old(state).deactivated_at@.contains_key(request.creator) {
            assert(boards_after_tip(s2, s1, pf, sat_sub(0, request.amount)));
            assert(mid.spec_leaderboard(LeaderboardPeriod::AllTime) == s1.spec_leaderboard(LeaderboardPeriod::AllTime));
            assert(mid.spec_leaderboard(LeaderboardPeriod::Monthly) == s1.spec_leaderboard(LeaderboardPeriod::Monthly));
            assert(mid.spec_leaderboard(LeaderboardPeriod::Weekly) == s1.spec_leaderboard(LeaderboardPeriod::Weekly));
            assert(state.spec_leaderboard(LeaderboardPeriod::AllTime) == s2.spec_leaderboard(LeaderboardPeriod::AllTime));
            assert(state.spec_leaderboard(LeaderboardPeriod::Monthly) == s2.spec_leaderboard(LeaderboardPeriod::Monthly));
            assert(state.spec_leaderboard(LeaderboardPeriod::Weekly) == s2.spec_leaderboard(LeaderboardPeriod::Weekly));
        }
    }
    transfer
}

/// The creator approves a refund request: the refund is processed and its
/// payment to the tipper handed back.
///
/// Errors, in this order: `ContractPaused`; `NoRefundRequest`; `NotCreator`
/// (the caller did not receive the tip); `RefundAlreadyProcessed`.
pub fn approve_refund<S: Fn(&Profile, u64) -> u32>(
    state: &mut Tipz,
    creator: Address,
    tip_id: u32,
    now: u64,
    score: &S,
) -> (r: Result<Transfer, ContractError>)
    requires
        old(state).wf(),
        answer_refusal(*old(state), creator, tip_id) is None ==> old(state).profiles@.contains_key(creator),
        forall|p: &Profile, t: u64| score.requires((p, t)),
    ensures
        final(state).wf(),
        match answer_refusal(*old(state), creator, tip_id) {
            Some(e) => r == Err::<Transfer, ContractError>(e) && *final(state) == *old(state),
            None => {
                let request = old(state).refund_requests@[tip_id];
                let before = old(state).profiles@[creator];
                &&& r == Ok::<Transfer, ContractError>(refund_transfer(old(state).contract_address, request))
                &&& refund_step(*old(state), *final(state), request, RefundStatus::Approved, now, score)
                &&& score_never_rises_on_refund(score) && request.amount >= 0 && score.ensures(
                    (&before, now),
                    before.credit_score,
                ) ==> final(state).profiles@[creator].credit_score <= before.credit_score
            },
        },
{
    require_not_paused(state)?;
    let request = match state.get_refund_request(tip_id) {
        Some(r) => r,
        None => {
            return Err(ContractError::NoRefundRequest);
        },
    };
    // Verify caller is the creator
    if request.creator.id != creator.id {
        return Err(ContractError::NotCreator);
    }
    // Check if already processed
    if request.status != RefundStatus::Pending {
        return Err(ContractError::RefundAlreadyProcessed);
    }
    let transfer = process_refund_internal(state, request, RefundStatus::Approved, now, score);
    proof {
        if score_never_rises_on_refund(score) && request.amount >= 0 && score.ensures(
            (&old(state).profiles@[creator], now),
            old(state).profiles@[creator].credit_score,
        ) {
            lemma_refund_does_not_raise_score(*old(state), *state, request, RefundStatus::Approved, now, score);
        }
    }
    Ok(transfer)
}

/// The creator rejects a refund request; the tip stays with the creator.
///
/// Errors, in this order: `ContractPaused`; `NoRefundRequest`; `NotCreator`;
/// `RefundAlreadyProcessed`.
pub fn reject_refund(state: &mut Tipz, creator: Address, tip_id: u32, now: u64) -> (r: Result<(), ContractError>)
    requires
        old(state).wf(),
    ensures
        final(state).wf(),
        match answer_refusal(*old(state), creator, tip_id) {
            Some(e) => r == Err::<(), ContractError>(e) && *final(state) == *old(state),
            None => r is Ok && *final(state) == (Tipz { refund_requests: final(state).refund_requests, ..*old(state) })
                && final(state).refund_requests@ == old(state).refund_requests@.insert(
                tip_id,
                processed_request(old(state).refund_requests@[tip_id], RefundStatus::Rejected, now),
            ),
        },
{
    require_not_paused(state)?;
    let mut request = match state.get_refund_request(tip_id) {
        Some(r) => r,
        None => {
            return Err(ContractError::NoRefundRequest);
        },
    };
    if request.creator.id != creator.id {
        return Err(ContractError::NotCreator);
    }
    if request.status != RefundStatus::Pending {
        return Err(ContractError::RefundAlreadyProcessed);
    }
    request.status = RefundStatus::Rejected;
    request.processed_at = Some(now);
    state.set_refund_request(request);
    Ok(())
}

/// A request that [`process_pending_refunds`] approves at `now`: pending,
/// and unanswered for at least the response window.
pub open spec fn auto_approvable(state: Tipz, tip_id: u32, now: u64) -> bool {
    &&& state.refund_requests@.contains_key(tip_id)
    &&& state.refund_requests@[tip_id].status == RefundStatus::Pending
    &&& elapsed_since(now, state.refund_requests@[tip_id].requested_at) >= state.spec_refund_config().response_window_secs
}

/// The requests that [`process_pending_refunds`] approves for the listed
/// `ids`, in the order it approves them: each listed id whose request is
/// auto-approvable, at its first occurrence.
pub open spec fn approvals(state: Tipz, ids: Seq<u32>, now: u64) -> Seq<u32>
    decreases ids.len(),
{
    if ids.len() == 0 {
        Seq::empty()
    } else {
        let earlier = approvals(state, ids.drop_last(), now);
        let k = ids.last();
        if auto_approvable(state, k, now) && !earlier.contains(k) {
            earlier.push(k)
        } else {
            earlier
        }
    }
}

/// The amounts of the requests among `done` whose creator is `a`, in order.
pub open spec fn refunds_of(state: Tipz, done: Seq<u32>, a: Address) -> Seq<i128>
    decreases done.len(),
{
    if done.len() == 0 {
        Seq::empty()
    } else {
        let earlier = refunds_of(state, done.drop_last(), a);
        let request = state.refund_requests@[done.last()];
        if request.creator == a {
            earlier.push(request.amount)
        } else {
            earlier
        }
    }
}

/// A profile after refunds of `amounts`, one after the other (its credit
/// score aside).
pub open spec fn after_refunds(p: Profile, amounts: Seq<i128>) -> Profile
    decreases amounts.len(),
{
    if amounts.len() == 0 {
        p
    } else {
        refunded_profile(after_refunds(p, amounts.drop_last()), amounts.last())
    }
}

/// `new` is `old` after refunds of `amounts`, whatever its credit score.
pub open spec fn refunds_applied(new: Profile, old: Profile, amounts: Seq<i128>) -> bool {
    new == Profile { credit_score: new.credit_score, ..after_refunds(old, amounts) }
}

/// Auto-approve every listed refund request that is pending and has gone
/// unanswered for the response window, in the order listed (an id listed
/// twice is approved once); return how many were approved and the payments
/// to make, in the same order. Anyone may call this.
///
/// Each approved refund is processed as by the creator's approval: the
/// creator's balance, lifetime total and tip count lose the tip, the credit
/// score is recomputed with `score`, and the request is marked
/// `AutoApproved` at `now`.
///
/// Error: `ContractPaused`.
pub fn process_pending_refunds<S: Fn(&Profile, u64) -> u32>(
    state: &mut Tipz,
    tip_ids: &Vec<u32>,
    now: u64,
    score: &S,
) -> (r: Result<(u32, Vec<Transfer>), ContractError>)
    requires
        old(state).wf(),
        tip_ids@.len() <= u32::MAX,
        forall|k: u32| tip_ids@.contains(k) && #[trigger] auto_approvable(*old(state), k, now)
            ==> old(state).profiles@.contains_key(old(state).refund_requests@[k].creator),
        forall|p: &Profile, t: u64| score.requires((p, t)),
    ensures
        final(state).wf(),
        old(state).spec_paused() ==> r == Err::<(u32, Vec<Transfer>), ContractError>(ContractError::ContractPaused)
            && *final(state) == *old(state),
        !old(state).spec_paused() ==> r is Ok && {
            let (count, transfers) = r->Ok_0;
            let done = approvals(*old(state), tip_ids@, now);
            &&& *final(state) == (Tipz {
                profiles: final(state).profiles,
                refund_requests: final(state).refund_requests,
                leaderboard_set: final(state).leaderboard_set,
                leaderboard_all_time: final(state).leaderboard_all_time,
                leaderboard_monthly: final(state).leaderboard_monthly,
                leaderboard_weekly: final(state).leaderboard_weekly,
                last_reset_all_time: final(state).last_reset_all_time,
                last_reset_monthly: final(state).last_reset_monthly,
                last_reset_weekly: final(state).last_reset_weekly,
                creator_period_volumes: final(state).creator_period_volumes,
                creator_period_volume: final(state).creator_period_volume,
                ..*old(state)
            })
            &&& exists|states: Seq<Tipz>| {
                &&& states.len() == done.len() + 1
                &&& states[0] == *old(state)
                &&& states.last() == *final(state)
                &&& forall|j: int| 0 <= j < done.len() ==> #[trigger] refund_step(
                    states[j],
                    states[j + 1],
                    old(state).refund_requests@[done[j]],
                    RefundStatus::AutoApproved,
                    now,
                    score,
                )
            }
            &&& count == done.len()
            &&& transfers@ == done.map_values(
                |k: u32| refund_transfer(old(state).contract_address, old(state).refund_requests@[k]),
            )
            &&& final(state).refund_requests@.dom() == old(state).refund_requests@.dom()
            &&& forall|k: u32| #[trigger] final(state).refund_requests@.contains_key(k) ==> final(state).refund_requests@[k] == (
                if done.contains(k) {
                    processed_request(old(state).refund_requests@[k], RefundStatus::AutoApproved, now)
                } else {
                    old(state).refund_requests@[k]
                })
            &&& final(state).profiles@.dom() == old(state).profiles@.dom()
            &&& forall|a: Address| #[trigger] old(state).profiles@.contains_key(a) ==> {
                let amounts = refunds_of(*old(state), done, a);
                &&& refunds_applied(final(state).profiles@[a], old(state).profiles@[a], amounts)
                &&& amounts.len() == 0 ==> final(state).profiles@[a] == old(state).profiles@[a]
                &&& amounts.len() > 0 ==> exists|q: Profile| #[trigger] refunds_applied(q, old(state).profiles@[a], amounts)
                    && score.ensures((&q, now), final(state).profiles@[a].credit_score)
            }
        },
{
    require_not_paused(state)?;
    let config = state.get_refund_config();
    let mut processed_count: u32 = 0;
    let mut transfers: Vec<Transfer> = Vec::new();
    let ghost old_state = *old(state);
    let ghost pay = |k: u32| refund_transfer(old_state.contract_address, old_state.refund_requests@[k]);
    let ghost mut states: Seq<Tipz> = seq![old_state];
    let mut i: usize = 0;
    while i < tip_ids.len()
        invariant
            state.wf(),
            !old_state.spec_paused(),
            old_state == *old(state),
            config == old_state.spec_refund_config(),
            pay == (|k: u32| refund_transfer(old_state.contract_address, old_state.refund_requests@[k])),
            i <= tip_ids@.len(),
            tip_ids@.len() <= u32::MAX,
            forall|k: u32| tip_ids@.contains(k) && #[trigger] auto_approvable(old_state, k, now)
                ==> old_state.profiles@.contains_key(old_state.refund_requests@[k].creator),
            forall|p: &Profile, t: u64| score.requires((p, t)),
            *state == (Tipz {
                profiles: state.profiles,
                refund_requests: state.refund_requests,
                leaderboard_set: state.leaderboard_set,
                leaderboard_all_time: state.leaderboard_all_time,
                leaderboard_monthly: state.leaderboard_monthly,
                leaderboard_weekly: state.leaderboard_weekly,
                last_reset_all_time: state.last_reset_all_time,
                last_reset_monthly: state.last_reset_monthly,
                last_reset_weekly: state.last_reset_weekly,
                creator_period_volumes: state.creator_period_volumes,
                creator_period_volume: state.creator_period_volume,
                ..old_state
            }),
            states.len() == approvals(old_state, tip_ids@.take(i as int), now).len() + 1,
            states[0] == old_state,
            states.last() == *state,
            forall|j: int| 0 <= j < approvals(old_state, tip_ids@.take(i as int), now).len() ==> #[trigger] refund_step(
                states[j],
                states[j + 1],
                old_state.refund_requests@[approvals(old_state, tip_ids@.take(i as int), now)[j]],
                RefundStatus::AutoApproved,
                now,
                score,
            ),
            state.refund_requests@.dom() == old_state.refund_requests@.dom(),
            state.profiles@.dom() == old_state.profiles@.dom(),
            approvals(old_state, tip_ids@.take(i as int), now).len() <= i,
            processed_count == approvals(old_state, tip_ids@.take(i as int), now).len(),
            transfers@ == approvals(old_state, tip_ids@.take(i as int), now).map_values(pay),
            forall|k: u32| #[trigger] approvals(old_state, tip_ids@.take(i as int), now).contains(k)
                ==> auto_approvable(old_state, k, now),
            forall|k: u32| #[trigger] state.refund_requests@.contains_key(k) ==> state.refund_requests@[k] == (
                if approvals(old_state, tip_ids@.take(i as int), now).contains(k) {
                    processed_request(old_state.refund_requests@[k], RefundStatus::AutoApproved, now)
                } else {
                    old_state.refund_requests@[k]
                }),
            forall|a: Address| #[trigger] old_state.profiles@.contains_key(a) ==> {
                let amounts = refunds_of(old_state, approvals(old_state, tip_ids@.take(i as int), now), a);
                &&& refunds_applied(state.profiles@[a], old_state.profiles@[a], amounts)
                &&& amounts.len() == 0 ==> state.profiles@[a] == old_state.profiles@[a]
                &&& amounts.len() > 0 ==> exists|q: Profile| #[trigger] refunds_applied(q, old_state.profiles@[a], amounts)
                    && score.ensures((&q, now), state.profiles@[a].credit_score)
            },
        decreases tip_ids@.len() - i,
    {
        let tip_id = tip_ids[i];
        let ghost pre = *state;
        let ghost done = approvals(old_state, tip_ids@.take(i as int), now);
        proof {
            assert(tip_ids@.take(i + 1).drop_last() =~= tip_ids@.take(i as int));
            assert(tip_ids@.take(i + 1).last() == tip_id);
        }
        let mut approved = false;
        if let Some(request) = state.get_refund_request(tip_id) {
            // Only pending requests whose response window has run out
            if request.status == RefundStatus::Pending {
                let elapsed = now.saturating_sub(request.requested_at);
                if elapsed >= config.response_window_secs {
                    proof {
                        assert(!done.contains(tip_id));
                        assert(request == old_state.refund_requests@[tip_id]);
                        assert(auto_approvable(old_state, tip_id, now));
                        assert(tip_ids@.contains(tip_id)) by {
                            assert(tip_ids@[i as int] == tip_id);
                        }
                    }
                    let transfer = process_refund_internal(state, request, RefundStatus::AutoApproved, now, score);
                    transfers.push(transfer);
                    processed_count = processed_count + 1;
                    approved = true;
                    proof {
                        let next = approvals(old_state, tip_ids@.take(i + 1), now);
                        assert(next == done.push(tip_id));
                        assert(transfers@ =~= next.map_values(pay));
                        let c = request.creator;
                        assert forall|k: u32| #[trigger] next.contains(k) implies auto_approvable(old_state, k, now) by {
                            lemma_seq_contains_after_push(done, tip_id, k);
                        }
                        assert forall|k: u32| #[trigger] state.refund_requests@.contains_key(k) implies state.refund_requests@[k] == (
                            if next.contains(k) {
                                processed_request(old_state.refund_requests@[k], RefundStatus::AutoApproved, now)
                            } else {
                                old_state.refund_requests@[k]
                            }) by {
                            lemma_seq_contains_after_push(done, tip_id, k);
                        }
                        assert(next.drop_last() =~= done);
                        assert forall|a: Address| #[trigger] old_state.profiles@.contains_key(a) implies {
                            let amounts = refunds_of(old_state, next, a);
                            &&& refunds_applied(state.profiles@[a], old_state.profiles@[a], amounts)
                            &&& amounts.len() == 0 ==> state.profiles@[a] == old_state.profiles@[a]
                            &&& amounts.len() > 0 ==> exists|q: Profile| #[trigger] refunds_applied(q, old_state.profiles@[a], amounts)
                                && score.ensures((&q, now), state.profiles@[a].credit_score)
                        } by {
                            let before = refunds_of(old_state, done, a);
                            if a == c {
                                let amounts = before.push(request.amount);
                                assert(refunds_of(old_state, next, a) == amounts);
                                assert(amounts.drop_last() =~= before);
                                let q = refunded_profile(pre.profiles@[c], request.amount);
                                assert(refunds_applied(q, old_state.profiles@[a], amounts));
                                assert(refunds_applied(state.profiles@[a], old_state.profiles@[a], amounts));
                            } else {
                                assert(refunds_of(old_state, next, a) == before);
                                assert(state.profiles@[a] == pre.profiles@[a]);
                            }
                        }
                        assert(state.profiles@.dom() =~= old_state.profiles@.dom());
                        let prev_states = states;
                        states = states.push(*state);
                        assert forall|j: int| 0 <= j < next.len() implies #[trigger] refund_step(
                            states[j],
                            states[j + 1],
                            old_state.refund_requests@[next[j]],
                            RefundStatus::AutoApproved,
                            now,
                            score,
                        ) by {
                            if j < done.len() {
                                assert(states[j] == prev_states[j]);
                                assert(states[j + 1] == prev_states[j + 1]);
                                assert(next[j] == done[j]);
                            } else {
                                assert(states[j] == pre);
                                assert(states[j + 1] == *state);
                                assert(next[j] == tip_id);
                            }
                        }
                        assert(state.refund_requests@.dom() =~= old_state.refund_requests@.dom());
                    }
                }
            }
        }
        if !approved {
            proof {
                if auto_approvable(old_state, tip_id, now) && !done.contains(tip_id) {
                    // The request is untouched, so it would have been approved above.
                    assert(state.refund_requests@.contains_key(tip_id));
                    assert(state.refund_requests@[tip_id] == old_state.refund_requests@[tip_id]);
                    assert(false);
                }
                assert(approvals(old_state, tip_ids@.take(i + 1), now) == done);
            }
        }
        i = i + 1;
    }
    assert(tip_ids@.take(tip_ids@.len() as int) =~= tip_ids@);
    Ok((processed_count, transfers))
}

/// Get refund request by tip ID.
pub fn get_refund_request(state: &Tipz, tip_id: u32) -> (r: Option<RefundRequest>)
    requires
        state.wf(),
    ensures
        r == state.refund_requests@.get(tip_id),
{
    state.get_refund_request(tip_id)
}

/// Get refund configuration.
pub fn get_refund_config(state: &Tipz) -> (r: RefundConfig)
    ensures
        r == state.spec_refund_config(),
{
    state.get_refund_config()
}

/// Set refund configuration (admin only).
pub fn set_refund_config(state: &mut Tipz, admin: Address, config: RefundConfig) -> (r: Result<(), ContractError>)
    ensures
        old(state).spec_admin() == Some(admin) ==> r is Ok && *final(state) == (Tipz { refund_config: Some(config), ..*old(state) }),
        old(state).spec_admin() is None ==> r == Err::<(), ContractError>(ContractError::NotInitialized) && *final(state) == *old(state),
        old(state).spec_admin() matches Some(a) && a != admin ==> r == Err::<(), ContractError>(ContractError::NotAuthorized)
            && *final(state) == *old(state),
{
    require_admin(state, admin)?;
    state.set_refund_config(config);
    Ok(())
}


// ── laws ──

/// Law: the non-refundable fee and the refund always add up to the amount
/// refunded; the subtraction never saturates.
pub proof fn lemma_refund_split_exact(amount: i128, fee_bps: u32)
    ensures
        bps_share(amount, fee_bps) matches Some(fee) ==> sat_sub(amount, fee) + fee == amount,
{
    if fits_i128(amount * fee_bps) {
        let product = amount * fee_bps;
        if amount >= 0 {
            assert(product >= 0) by (nonlinear_arith)
                requires
                    amount >= 0,
                    product == amount * fee_bps,
            ;
            assert(0 <= product / 10_000 <= product) by (nonlinear_arith)
                requires
                    product >= 0,
            ;
        } else {
            assert(product <= 0) by (nonlinear_arith)
                requires
                    amount < 0,
                    product == amount * fee_bps,
            ;
            assert(0 <= (-product) / 10_000 <= -product) by (nonlinear_arith)
                requires
                    product <= 0,
            ;
            assert((-product) / 10_000 <= i128::MAX + 1 - 10_000) by (nonlinear_arith)
                requires
                    0 <= -product <= i128::MAX + 1,
            ;
        }
    }
}

/// Law: every refund request recorded by [`request_refund`] splits the tip
/// exactly: `refund_amount + non_refundable_fee == amount`, with the fee
/// taken at the configured rate.
pub proof fn lemma_refund_request_exact(state: Tipz, tipper: Address, tip_id: u32, now: u64)
    ensures
        request_refund_outcome(state, tipper, tip_id, now) matches Ok(request) ==> {
            &&& request.refund_amount + request.non_refundable_fee == request.amount
            &&& bps_share(request.amount, state.spec_refund_config().non_refundable_fee_bps) == Some(
                request.non_refundable_fee,
            )
        },
{
    if state.tips@.contains_key(tip_id) {
        lemma_refund_split_exact(state.tips@[tip_id].amount, state.spec_refund_config().non_refundable_fee_bps);
    }
}

/// Law: a tip can be the subject of one refund request only; once a
/// request is stored, every further request for the tip is refused.
pub proof fn lemma_refund_requested_once(state: Tipz, tipper: Address, tip_id: u32, now: u64)
    requires
        state.refund_requests@.contains_key(tip_id),
    ensures
        request_refund_outcome(state, tipper, tip_id, now) is Err,
{
}

/// Law: a request that was approved, rejected or auto-approved cannot be
/// answered again: the creator's approval or rejection is refused with
/// `RefundAlreadyProcessed` (unless an earlier check refuses first), and
/// automatic approval passes it over.
pub proof fn lemma_refund_answered_once(state: Tipz, creator: Address, tip_id: u32, now: u64)
    requires
        state.refund_requests@.contains_key(tip_id),
        state.refund_requests@[tip_id].status != RefundStatus::Pending,
    ensures
        answer_refusal(state, creator, tip_id) == Some(
            if state.spec_paused() {
                ContractError::ContractPaused
            } else if state.refund_requests@[tip_id].creator != creator {
                ContractError::NotCreator
            } else {
                ContractError::RefundAlreadyProcessed
            },
        ),
        !auto_approvable(state, tip_id, now),
{
}


/// Law: refunding a tip undoes what the tip did to the creator's balance,
/// lifetime total and tip count (the credit score is recomputed apart).
pub proof fn lemma_refund_undoes_tip(p: Profile, amount: i128)
    requires
        fits_i128(p.balance + amount),
        fits_i128(p.total_tips_received + amount),
        p.total_tips_count < u32::MAX,
    ensures
        refunded_profile(credited_profile(p, amount), amount) == p,
{
}


/// Law: the tipper who sent a tip may ask for its refund, however the tip
/// was recorded (anonymous, on someone's behalf or not): while the ledger
/// runs, within the request window and before any other request for the
/// tip, the request is recorded as pending for the sender, for the whole
/// tip, split exactly into refund and non-refundable fee.
pub proof fn lemma_sender_may_request_refund(
    state: Tipz,
    tipper: Address,
    benefactor: Option<Address>,
    tip_id: u32,
    creator: Address,
    amount: i128,
    message: Seq<u8>,
    is_anonymous: bool,
    sent_at: u64,
    now: u64,
)
    requires
        state.tips@.contains_key(tip_id),
        state.tips@[tip_id]@ == tip_record(tip_id, tipper, benefactor, creator, amount, message, is_anonymous, sent_at),
        !state.spec_paused(),
        !state.refund_requests@.contains_key(tip_id),
        now < sent_at || now - sent_at <= state.spec_refund_config().request_window_secs,
        fits_i128(amount * state.spec_refund_config().non_refundable_fee_bps),
    ensures
        request_refund_outcome(state, tipper, tip_id, now) is Ok,
        ({
            let request = request_refund_outcome(state, tipper, tip_id, now)->Ok_0;
            &&& request.tip_id == tip_id
            &&& request.tipper == tipper
            &&& request.creator == creator
            &&& request.amount == amount
            &&& request.requested_at == now
            &&& request.status == RefundStatus::Pending
            &&& request.processed_at is None
            &&& request.refund_amount + request.non_refundable_fee == amount
        }),
{
    lemma_refund_split_exact(amount, state.spec_refund_config().non_refundable_fee_bps);
}

/// Law: a refund request is refused as `NotTipper` exactly when the ledger
/// runs, the tip exists and the caller is not the one who sent it.
pub proof fn lemma_not_tipper_exactly(state: Tipz, caller: Address, tip_id: u32, now: u64)
    ensures
        (request_refund_outcome(state, caller, tip_id, now) == Err::<RefundRequest, ContractError>(
            ContractError::NotTipper,
        )) <==> (!state.spec_paused() && state.tips@.contains_key(tip_id) && state.tips@[tip_id].sender != caller),
{
}

} // verus!
