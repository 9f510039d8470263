//! Supporter streaks: how many consecutive days a supporter has tipped a
//! creator.
//!
//! A day is a whole number of 86 400-second days since the epoch. A tip on
//! the day after the last recorded tip extends the streak; a tip on the same
//! day changes nothing; any later tip starts a new streak of one day. The
//! longest streak is kept. Bonus points are left as they are.

use vstd::prelude::*;

use crate::storage::Tipz;
use crate::types::{Address, Streak};

verus! {

/// Seconds in a streak day.
pub const DAY_SECS: u64 = 86_400;

/// The streak day of a time.
pub open spec fn day_of(now: u64) -> u64 {
    now / DAY_SECS
}

/// The streak of `supporter` towards `creator` after a tip at `now`, given
/// the recorded one.
pub open spec fn streak_after_tip(prev: Option<Streak>, supporter: Address, creator: Address, now: u64) -> Streak {
    let day = day_of(now);
    match prev {
        None => Streak { supporter, creator, current: 1, longest: 1, last_tip_day: Some(day), bonus_points: 0 },
        Some(s) => if s.last_tip_day == Some(day) {
            s
        } else {
            let current: u32 = if day > 0 && s.last_tip_day == Some((day - 1) as u64) {
                if s.current == u32::MAX { u32::MAX } else { (s.current + 1) as u32 }
            } else {
                1
            };
            Streak {
                current,
                longest: if current > s.longest { current } else { s.longest },
                last_tip_day: Some(day),
                ..s
            }
        },
    }
}

/// Record a tip of `supporter` to `creator` at `now` in their streak.
pub fn record_tip_streak(state: &mut Tipz, supporter: Address, creator: Address, now: u64)
    requires
        old(state).wf(),
    ensures
        final(state).wf(),
        *final(state) == (Tipz { streaks: final(state).streaks, ..*old(state) }),
        final(state).streaks@ == old(state).streaks@.insert(
            (supporter, creator),
            streak_after_tip(old(state).streaks@.get((supporter, creator)), supporter, creator, now),
        ),
{
    let day = now / DAY_SECS;
    let next = match state.get_streak(supporter, creator) {
        None => Streak { supporter, creator, current: 1, longest: 1, last_tip_day: Some(day), bonus_points: 0 },
        Some(s) => {
            if s.last_tip_day == Some(day) {
                s
            } else {
                let consecutive = match s.last_tip_day {
                    Some(d) => day > 0 && d == day - 1,
                    None => false,
                };
                let current: u32 = if consecutive {
                    s.current.saturating_add(1)
                } else {
                    1
                };
                let mut n = s;
                n.current = current;
                n.longest = if current > s.longest { current } else { s.longest };
                n.last_tip_day = Some(day);
                n
            }
        },
    };
    state.streaks.insert((supporter, creator), next);
}

} // verus!
