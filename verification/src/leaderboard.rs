//! Leaderboard tracking of the Tipz ledger.
//!
//! A leaderboard is a list of up to [`MAX_LEADERBOARD_SIZE`] creators sorted
//! descending by `amount`, with at most one entry per creator. An update
//! removes the creator's old entry, then inserts the new one after every
//! entry with an equal or greater amount (so earlier holders of an amount
//! keep the higher rank), and drops the lowest entry when the list grows past
//! the cap.

use vstd::prelude::*;

use crate::bytes::copy_bytes;
use crate::storage::{rolled_volumes, sat_sub, saturating_sub_i128, set_board, set_wf, LeaderboardSet, Tipz};
use crate::types::{Address, LeaderboardEntry, LeaderboardPeriod, Profile};

verus! {

/// Maximum number of entries retained on the leaderboard.
pub const MAX_LEADERBOARD_SIZE: u32 = 50;

/// What a leaderboard entry says, with its username as a sequence of bytes.
pub ghost struct EntryView {
    pub address: Address,
    pub username: Seq<u8>,
    pub amount: i128,
    pub credit_score: u32,
}

impl View for LeaderboardEntry {
    type V = EntryView;

    open spec fn view(&self) -> EntryView {
        EntryView {
            address: self.address,
            username: self.username@,
            amount: self.amount,
            credit_score: self.credit_score,
        }
    }
}

/// The entries of a stored leaderboard as views.
pub open spec fn board_of(v: Seq<LeaderboardEntry>) -> Seq<EntryView> {
    v.map_values(|e: LeaderboardEntry| e@)
}

/// Entries are sorted descending by amount.
pub open spec fn sorted_desc(b: Seq<EntryView>) -> bool {
    forall|i: int, j: int| 0 <= i < j < b.len() ==> b[i].amount >= b[j].amount
}

/// No creator holds two entries.
pub open spec fn addresses_distinct(b: Seq<EntryView>) -> bool {
    forall|i: int, j: int| 0 <= i < b.len() && 0 <= j < b.len() && i != j ==> b[i].address != b[j].address
}

/// A well-formed leaderboard: sorted descending, one entry per creator.
pub open spec fn board_wf(b: Seq<EntryView>) -> bool {
    sorted_desc(b) && addresses_distinct(b)
}

/// `p` splits `b` into entries with amount at least `amount` before it and
/// entries with a smaller amount from it on.
pub open spec fn is_insertion_point(b: Seq<EntryView>, amount: i128, p: int) -> bool {
    &&& 0 <= p <= b.len()
    &&& forall|i: int| 0 <= i < p ==> b[i].amount >= amount
    &&& forall|i: int| p <= i < b.len() ==> b[i].amount < amount
}

/// The position where an entry with `amount` goes in a sorted leaderboard.
pub open spec fn insertion_point(b: Seq<EntryView>, amount: i128) -> int {
    choose|p: int| is_insertion_point(b, amount, p)
}

/// Holds of entries of creators other than `a`.
pub open spec fn not_of(a: Address) -> spec_fn(EntryView) -> bool {
    |e: EntryView| e.address != a
}

/// The leaderboard without the entries of `a`.
pub open spec fn without_address(b: Seq<EntryView>, a: Address) -> Seq<EntryView> {
    b.filter(not_of(a))
}

/// The leaderboard after `e` replaces its creator's entry.
pub open spec fn board_after_update(b: Seq<EntryView>, e: EntryView) -> Seq<EntryView> {
    let t = without_address(b, e.address);
    let p = insertion_point(t, e.amount);
    if p < MAX_LEADERBOARD_SIZE as int {
        let u = t.insert(p, e);
        if u.len() > MAX_LEADERBOARD_SIZE as int {
            u.drop_last()
        } else {
            u
        }
    } else {
        t
    }
}

/// The first `limit` entries, or all of them when `limit` is 0 or covers the list.
pub open spec fn top_of(b: Seq<EntryView>, limit: u32) -> Seq<EntryView> {
    if limit == 0 || limit >= b.len() {
        b
    } else {
        b.take(limit as int)
    }
}

/// An insertion point is unique.
pub proof fn lemma_insertion_point_unique(b: Seq<EntryView>, amount: i128, p: int)
    requires
        is_insertion_point(b, amount, p),
    ensures
        insertion_point(b, amount) == p,
{
    let q = insertion_point(b, amount);
    assert(is_insertion_point(b, amount, q));
    if q < p {
        assert(b[q].amount >= amount);
    } else if p < q {
        assert(b[p].amount >= amount);
    }
}

/// A sorted leaderboard has an insertion point for every amount.
pub proof fn lemma_insertion_point_exists(b: Seq<EntryView>, amount: i128)
    requires
        sorted_desc(b),
    ensures
        is_insertion_point(b, amount, insertion_point(b, amount)),
    decreases b.len(),
{
    if b.len() == 0 {
        assert(is_insertion_point(b, amount, 0));
    } else {
        let t = b.drop_last();
        assert(sorted_desc(t));
        lemma_insertion_point_exists(t, amount);
        let q = insertion_point(t, amount);
        if b.last().amount >= amount {
            assert forall|i: int| 0 <= i < b.len() implies b[i].amount >= amount by {
                if i < b.len() - 1 {
                    assert(b[i].amount >= b[b.len() - 1].amount);
                }
            }
            assert(is_insertion_point(b, amount, b.len() as int));
        } else {
            assert forall|i: int| 0 <= i < q implies b[i].amount >= amount by {
                assert(t[i] == b[i]);
            }
            assert forall|i: int| q <= i < b.len() implies b[i].amount < amount by {
                if i < b.len() - 1 {
                    assert(t[i] == b[i]);
                }
            }
            assert(is_insertion_point(b, amount, q));
        }
    }
}

/// Filtering with a predicate every element meets changes nothing.
pub proof fn lemma_filter_all_pass<A>(s: Seq<A>, pred: spec_fn(A) -> bool)
    requires
        forall|i: int| 0 <= i < s.len() ==> pred(s[i]),
    ensures
        s.filter(pred) == s,
    decreases s.len(),
{
    reveal_with_fuel(Seq::filter, 1);
    if s.len() > 0 {
        let t = s.drop_last();
        assert forall|i: int| 0 <= i < t.len() implies pred(t[i]) by {
            assert(t[i] == s[i]);
        }
        lemma_filter_all_pass(t, pred);
        assert(pred(s[s.len() - 1]));
        assert(s.filter(pred) =~= s);
    }
}

/// Removing the only element that fails a predicate is filtering by it.
pub proof fn lemma_remove_is_filter<A>(s: Seq<A>, k: int, pred: spec_fn(A) -> bool)
    requires
        0 <= k < s.len(),
        !pred(s[k]),
        forall|i: int| 0 <= i < s.len() && i != k ==> pred(s[i]),
    ensures
        s.remove(k) == s.filter(pred),
    decreases s.len(),
{
    reveal_with_fuel(Seq::filter, 1);
    let t = s.drop_last();
    if k == s.len() - 1 {
        assert forall|i: int| 0 <= i < t.len() implies pred(t[i]) by {
            assert(t[i] == s[i]);
        }
        lemma_filter_all_pass(t, pred);
        assert(s.remove(k) =~= t);
    } else {
        assert(t[k] == s[k]);
        assert forall|i: int| 0 <= i < t.len() && i != k implies pred(t[i]) by {
            assert(t[i] == s[i]);
        }
        lemma_remove_is_filter(t, k, pred);
        assert(pred(s[s.len() - 1]));
        assert(s.remove(k) =~= t.remove(k).push(s[s.len() - 1]));
    }
}

/// Removing an element keeps a leaderboard well-formed.
pub proof fn lemma_remove_keeps_wf(b: Seq<EntryView>, k: int)
    requires
        board_wf(b),
        0 <= k < b.len(),
    ensures
        board_wf(b.remove(k)),
{
    let t = b.remove(k);
    assert forall|i: int, j: int| 0 <= i < j < t.len() implies t[i].amount >= t[j].amount by {
        let oi = if i < k { i } else { i + 1 };
        let oj = if j < k { j } else { j + 1 };
        assert(t[i] == b[oi] && t[j] == b[oj]);
    }
    assert forall|i: int, j: int| 0 <= i < t.len() && 0 <= j < t.len() && i != j implies t[i].address != t[j].address by {
        let oi = if i < k { i } else { i + 1 };
        let oj = if j < k { j } else { j + 1 };
        assert(t[i] == b[oi] && t[j] == b[oj]);
    }
}

/// Without `a`'s entry, a well-formed leaderboard stays well-formed, loses
/// exactly that entry, and keeps every other entry.
pub proof fn lemma_without_address(b: Seq<EntryView>, a: Address)
    requires
        board_wf(b),
    ensures
        board_wf(without_address(b, a)),
        forall|i: int| 0 <= i < without_address(b, a).len() ==> #[trigger] without_address(b, a)[i].address != a,
        forall|i: int| 0 <= i < without_address(b, a).len() ==> b.contains(#[trigger] without_address(b, a)[i]),
        forall|i: int| 0 <= i < b.len() && b[i].address != a ==> without_address(b, a).contains(#[trigger] b[i]),
        without_address(b, a).len() <= b.len(),
{
    let pred = not_of(a);
    if exists|k: int| 0 <= k < b.len() && b[k].address == a {
        let k = choose|k: int| 0 <= k < b.len() && b[k].address == a;
        assert forall|i: int| 0 <= i < b.len() && i != k implies pred(b[i]) by {
            assert(b[i].address != b[k].address);
        }
        lemma_remove_is_filter(b, k, pred);
        lemma_remove_keeps_wf(b, k);
        let t = b.remove(k);
        assert forall|i: int| 0 <= i < t.len() implies #[trigger] t[i].address != a by {
            let oi = if i < k { i } else { i + 1 };
            assert(t[i] == b[oi]);
        }
        assert forall|i: int| 0 <= i < t.len() implies b.contains(#[trigger] t[i]) by {
            let oi = if i < k { i } else { i + 1 };
            assert(t[i] == b[oi]);
        }
        assert forall|i: int| 0 <= i < b.len() && b[i].address != a implies t.contains(#[trigger] b[i]) by {
            let ni = if i < k { i } else { i - 1 };
            assert(t[ni] == b[i]);
        }
    } else {
        assert forall|i: int| 0 <= i < b.len() implies pred(b[i]) by {}
        lemma_filter_all_pass(b, pred);
        assert forall|i: int| 0 <= i < b.len() implies b.contains(#[trigger] b[i]) by {}
    }
}

/// Law: an update keeps a leaderboard sorted descending with one entry per
/// creator, within the cap when it started within the cap; the creator's
/// only entry afterwards is the new one; every other entry was there before.
pub proof fn lemma_update_keeps_board_wf(b: Seq<EntryView>, e: EntryView)
    requires
        board_wf(b),
    ensures
        board_wf(board_after_update(b, e)),
        b.len() <= MAX_LEADERBOARD_SIZE ==> board_after_update(b, e).len() <= MAX_LEADERBOARD_SIZE,
        forall|i: int| 0 <= i < board_after_update(b, e).len() && (#[trigger] board_after_update(b, e)[i]).address == e.address
            ==> board_after_update(b, e)[i] == e,
        forall|i: int| 0 <= i < board_after_update(b, e).len() && (#[trigger] board_after_update(b, e)[i]).address != e.address
            ==> b.contains(board_after_update(b, e)[i]),
{
    let t = without_address(b, e.address);
    lemma_without_address(b, e.address);
    lemma_insertion_point_exists(t, e.amount);
    let p = insertion_point(t, e.amount);
    let r = board_after_update(b, e);
    if p < MAX_LEADERBOARD_SIZE as int {
        let u = t.insert(p, e);
        assert forall|i: int| 0 <= i < u.len() implies (#[trigger] u[i] == e && i == p) || (u[i].address != e.address && b.contains(u[i])) by {
            if i < p {
                assert(u[i] == t[i]);
            } else if i > p {
                assert(u[i] == t[i - 1]);
            }
        }
        assert forall|i: int, j: int| 0 <= i < j < u.len() implies u[i].amount >= u[j].amount by {
            if j < p {
                assert(u[i] == t[i] && u[j] == t[j]);
            } else if j == p {
                assert(u[i] == t[i]);
            } else if i < p {
                assert(u[i] == t[i] && u[j] == t[j - 1]);
            } else if i == p {
                assert(u[j] == t[j - 1]);
            } else {
                assert(u[i] == t[i - 1] && u[j] == t[j - 1]);
            }
        }
        assert forall|i: int, j: int| 0 <= i < u.len() && 0 <= j < u.len() && i != j implies u[i].address != u[j].address by {
            let oi = if i < p { i } else { i - 1 };
            let oj = if j < p { j } else { j - 1 };
            if i != p && j != p {
                assert(u[i] == t[oi] && u[j] == t[oj]);
            } else if i == p {
                assert(u[j] == t[oj]);
            } else {
                assert(u[i] == t[oi]);
            }
        }
        if u.len() > MAX_LEADERBOARD_SIZE as int {
            let d = u.drop_last();
            assert forall|i: int| 0 <= i < d.len() implies #[trigger] d[i] == u[i] by {}
        }
    } else {
        assert forall|i: int| 0 <= i < t.len() implies (#[trigger] t[i]).address != e.address && b.contains(t[i]) by {}
    }
}

/// Law: an update of a well-formed board within the cap keeps the other
/// creators' entries in their order, losing at most the last of them (when
/// the board was full); the creator is on the board afterwards exactly when
/// fewer than [`MAX_LEADERBOARD_SIZE`] other entries rank at or above the new
/// amount, and then with the new entry only.
pub proof fn lemma_update_entry_law(b: Seq<EntryView>, e: EntryView)
    requires
        board_wf(b),
        b.len() <= MAX_LEADERBOARD_SIZE,
    ensures
        ({
            let r = board_after_update(b, e);
            let t = without_address(b, e.address);
            let max = MAX_LEADERBOARD_SIZE as int;
            &&& without_address(r, e.address) == t
                || (t.len() == max && without_address(r, e.address) == t.drop_last())
            &&& (exists|i: int| 0 <= i < r.len() && #[trigger] r[i].address == e.address)
                <==> (t.len() < max || t[max - 1].amount < e.amount)
            &&& forall|i: int| 0 <= i < r.len() && (#[trigger] r[i]).address == e.address ==> r[i] == e
        }),
{
    let t = without_address(b, e.address);
    let max = MAX_LEADERBOARD_SIZE as int;
    let pred = not_of(e.address);
    lemma_without_address(b, e.address);
    lemma_update_keeps_board_wf(b, e);
    lemma_insertion_point_exists(t, e.amount);
    let p = insertion_point(t, e.amount);
    let r = board_after_update(b, e);
    assert(t.len() <= max);
    if p < max {
        let u = t.insert(p, e);
        assert forall|i: int| 0 <= i < u.len() && i != p implies pred(u[i]) by {
            if i < p {
                assert(u[i] == t[i]);
            } else {
                assert(u[i] == t[i - 1]);
            }
        }
        if u.len() > max {
            let d = u.drop_last();
            assert(r == d);
            assert(t.len() == max);
            assert(d[p] == e);
            assert forall|i: int| 0 <= i < d.len() && i != p implies pred(d[i]) by {
                assert(d[i] == u[i]);
            }
            lemma_remove_is_filter(d, p, pred);
            assert(d.remove(p) =~= t.drop_last()) by {
                assert forall|i: int| 0 <= i < d.remove(p).len() implies d.remove(p)[i] == t.drop_last()[i] by {
                    if i < p {
                        assert(d.remove(p)[i] == u[i]);
                    } else {
                        assert(d.remove(p)[i] == u[i + 1]);
                    }
                }
            }
            assert(t[max - 1].amount < e.amount);
            assert(r[p].address == e.address);
        } else {
            assert(r == u);
            lemma_remove_is_filter(u, p, pred);
            assert(u.remove(p) =~= t);
            assert(u[p].address == e.address);
            if t.len() >= max {
                assert(t[max - 1].amount < e.amount);
            }
        }
    } else {
        assert(r == t);
        assert forall|i: int| 0 <= i < t.len() implies pred(t[i]) by {}
        lemma_filter_all_pass(t, pred);
        assert(t.len() >= max);
        assert(t[max - 1].amount >= e.amount);
        assert(!(exists|i: int| 0 <= i < r.len() && #[trigger] r[i].address == e.address));
    }
}

/// Law: the first tip a creator gets in a new monthly or weekly period (for
/// example after [`reset_leaderboard`] started it at `t`) counts alone:
/// whatever the creator received in an earlier period, their period volume
/// becomes the tip's amount and their entry on that period's board has that
/// amount.
pub proof fn lemma_new_period_counts_only_new_tips(
    current: Tipz,
    after: Tipz,
    profile: Profile,
    period: LeaderboardPeriod,
    t: u64,
    amount: i128,
)
    requires
        period != LeaderboardPeriod::AllTime,
        current.spec_last_reset(period) == t,
        current.creator_period_volumes@.contains_key(profile.owner) ==> (if period == LeaderboardPeriod::Weekly {
            current.creator_period_volumes@[profile.owner].weekly_start_at
        } else {
            current.creator_period_volumes@[profile.owner].monthly_start_at
        }) != t,
        boards_after_tip(after, current, profile, amount),
    ensures
        after.creator_period_volumes@.contains_key(profile.owner),
        period == LeaderboardPeriod::Weekly ==> after.creator_period_volumes@[profile.owner].weekly == amount,
        period == LeaderboardPeriod::Monthly ==> after.creator_period_volumes@[profile.owner].monthly == amount,
        after.spec_leaderboard(period) == board_after_update(current.spec_leaderboard(period), entry_of(profile, amount)),
{
    crate::storage::lemma_period_volume_restarts(
        current.creator_period_volumes@.get(profile.owner),
        current.spec_last_reset(LeaderboardPeriod::Monthly),
        current.spec_last_reset(LeaderboardPeriod::Weekly),
        amount,
    );
}

/// Law: the leaderboard without `a` has no entry of `a`, keeps every other
/// entry and stays well-formed.
pub proof fn lemma_removal_leaves_no_entry(b: Seq<EntryView>, a: Address)
    requires
        board_wf(b),
    ensures
        board_wf(without_address(b, a)),
        forall|i: int| 0 <= i < without_address(b, a).len() ==> #[trigger] without_address(b, a)[i].address != a,
        forall|i: int| 0 <= i < b.len() && b[i].address != a ==> without_address(b, a).contains(#[trigger] b[i]),
{
    lemma_without_address(b, a);
}

/// A fresh copy of a leaderboard entry.
pub fn copy_entry(e: &LeaderboardEntry) -> (r: LeaderboardEntry)
    ensures
        r@ == e@,
{
    LeaderboardEntry {
        address: e.address,
        username: copy_bytes(&e.username),
        amount: e.amount,
        credit_score: e.credit_score,
    }
}

/// Position of the entry of `address`, if it is on the leaderboard.
pub fn position_of(entries: &Vec<LeaderboardEntry>, address: Address) -> (r: Option<usize>)
    ensures
        match r {
            Some(k) => k < entries@.len() && entries@[k as int].address == address
                && forall|j: int| 0 <= j < k ==> entries@[j].address != address,
            None => forall|j: int| 0 <= j < entries@.len() ==> entries@[j].address != address,
        },
{
    let mut i: usize = 0;
    while i < entries.len()
        invariant
            i <= entries@.len(),
            forall|j: int| 0 <= j < i ==> entries@[j].address != address,
        decreases entries@.len() - i,
    {
        if entries[i].address.id == address.id {
            return Some(i);
        }
        i = i + 1;
    }
    None
}

/// Finds the first index where an entry with `amount` should be inserted
/// to maintain descending order. Stable: new entries are placed after
/// existing ones with the same amount.
pub fn find_insertion_index(entries: &Vec<LeaderboardEntry>, amount: i128) -> (r: usize)
    requires
        sorted_desc(board_of(entries@)),
    ensures
        is_insertion_point(board_of(entries@), amount, r as int),
        r as int == insertion_point(board_of(entries@), amount),
{
    let ghost b = board_of(entries@);
    let mut low: usize = 0;
    let mut high: usize = entries.len();
    while low < high
        invariant
            b == board_of(entries@),
            sorted_desc(b),
            0 <= low <= high <= entries@.len(),
            forall|i: int| 0 <= i < low ==> b[i].amount >= amount,
            forall|i: int| high <= i < b.len() ==> b[i].amount < amount,
        decreases high - low,
    {
        let mid = low + (high - low) / 2;
        if entries[mid].amount >= amount {
            assert(b[mid as int].amount >= amount);
            assert forall|i: int| 0 <= i < mid + 1 implies b[i].amount >= amount by {
                if i < mid {
                    assert(b[i].amount >= b[mid as int].amount);
                }
            }
            low = mid + 1;
        } else {
            assert forall|i: int| mid <= i < b.len() implies b[i].amount < amount by {
                if i > mid {
                    assert(b[mid as int].amount >= b[i].amount);
                }
            }
            high = mid;
        }
    }
    proof {
        lemma_insertion_point_unique(b, amount, low as int);
    }
    low
}

/// Re-position `profile` within a sorted leaderboard `entries` for a new
/// cumulative `amount`: remove its old entry, insert the new one at its
/// place, keep only the top [`MAX_LEADERBOARD_SIZE`].
pub fn update_entries(entries: &mut Vec<LeaderboardEntry>, profile: &Profile, amount: i128)
    requires
        board_wf(board_of(old(entries)@)),
    ensures
        board_of(final(entries)@) == board_after_update(
            board_of(old(entries)@),
            EntryView {
                address: profile.owner,
                username: profile.username@,
                amount,
                credit_score: profile.credit_score,
            },
        ),
{
    let ghost b0 = board_of(entries@);
    let ghost e = EntryView {
        address: profile.owner,
        username: profile.username@,
        amount,
        credit_score: profile.credit_score,
    };
    // Step 1 — drop the creator's stale entry if they are already ranked.
    match position_of(entries, profile.owner) {
        Some(k) => {
            let ghost before = entries@;
            entries.remove(k);
            proof {
                assert(board_of(entries@) =~= b0.remove(k as int));
                assert forall|i: int| 0 <= i < b0.len() && i != k implies (not_of(profile.owner))(b0[i]) by {
                    assert(b0[i].address != b0[k as int].address);
                }
                lemma_remove_is_filter(b0, k as int, not_of(profile.owner));
            }
        },
        None => {
            proof {
                assert forall|i: int| 0 <= i < b0.len() implies (not_of(profile.owner))(b0[i]) by {}
                lemma_filter_all_pass(b0, not_of(profile.owner));
            }
        },
    }
    let ghost t = board_of(entries@);
    assert(t == without_address(b0, profile.owner));
    proof {
        lemma_without_address(b0, profile.owner);
    }
    // Step 2 — locate where the new amount belongs in descending order.
    let insert_pos = find_insertion_index(entries, amount);
    // Step 3 — only materialise the entry if it lands inside the top window.
    if insert_pos < MAX_LEADERBOARD_SIZE as usize {
        let new_entry = LeaderboardEntry {
            address: profile.owner,
            username: copy_bytes(&profile.username),
            amount,
            credit_score: profile.credit_score,
        };
        entries.insert(insert_pos, new_entry);
        assert(board_of(entries@) =~= t.insert(insert_pos as int, e));
        // Step 4 — trim the tail so the list never exceeds the cap.
        if entries.len() > MAX_LEADERBOARD_SIZE as usize {
            let ghost u = board_of(entries@);
            entries.pop();
            assert(board_of(entries@) =~= u.drop_last());
        }
    }
}

/// The first `limit` entries (all of them when `limit` is 0 or covers the list).
pub fn top_entries(entries: &Vec<LeaderboardEntry>, limit: u32) -> (r: Vec<LeaderboardEntry>)
    ensures
        board_of(r@) == top_of(board_of(entries@), limit),
{
    let n: usize = if limit == 0 || limit as usize >= entries.len() {
        entries.len()
    } else {
        limit as usize
    };
    let mut result: Vec<LeaderboardEntry> = Vec::new();
    let mut i: usize = 0;
    while i < n
        invariant
            n <= entries@.len(),
            i <= n,
            result@.len() == i,
            board_of(result@) == board_of(entries@).take(i as int),
        decreases n - i,
    {
        let c = copy_entry(&entries[i]);
        let ghost prev = result@;
        result.push(c);
        assert forall|j: int| 0 <= j < i + 1 implies board_of(result@)[j] == board_of(entries@)[j] by {
            if j < i {
                assert(result@[j] == prev[j]);
                assert(board_of(prev)[j] == board_of(entries@).take(i as int)[j]);
            }
        }
        i = i + 1;
        assert(board_of(result@) =~= board_of(entries@).take(i as int));
    }
    assert(board_of(entries@).take(entries@.len() as int) =~= board_of(entries@));
    result
}

/// Whether `address` has an entry.
pub fn is_on_board(entries: &Vec<LeaderboardEntry>, address: Address) -> (r: bool)
    ensures
        r == exists|i: int| 0 <= i < entries@.len() && entries@[i].address == address,
{
    position_of(entries, address).is_some()
}

/// The 1-based rank of `address`, if it has an entry.
pub fn rank_on_board(entries: &Vec<LeaderboardEntry>, address: Address) -> (r: Option<u32>)
    requires
        entries@.len() < u32::MAX,
    ensures
        match r {
            Some(rank) => 1 <= rank <= entries@.len() && entries@[rank - 1].address == address
                && forall|j: int| 0 <= j < rank - 1 ==> entries@[j].address != address,
            None => forall|j: int| 0 <= j < entries@.len() ==> entries@[j].address != address,
        },
{
    match position_of(entries, address) {
        Some(k) => Some((k + 1) as u32),
        None => None,
    }
}

/// The leaderboard without the entries of `address`.
pub fn without_entries_of(entries: &Vec<LeaderboardEntry>, address: Address) -> (r: Vec<LeaderboardEntry>)
    ensures
        board_of(r@) == without_address(board_of(entries@), address),
{
    let ghost b = board_of(entries@);
    let mut new_entries: Vec<LeaderboardEntry> = Vec::new();
    let mut i: usize = 0;
    while i < entries.len()
        invariant
            b == board_of(entries@),
            i <= entries@.len(),
            board_of(new_entries@) == b.take(i as int).filter(not_of(address)),
        decreases entries@.len() - i,
    {
        proof {
            reveal_with_fuel(Seq::filter, 1);
            assert(b.take(i + 1).drop_last() =~= b.take(i as int));
        }
        if entries[i].address.id != address.id {
            new_entries.push(copy_entry(&entries[i]));
            assert(board_of(new_entries@) =~= b.take(i + 1).filter(not_of(address)));
        }
        i = i + 1;
    }
    assert(b.take(entries@.len() as int) =~= b);
    new_entries
}

/// The entry a profile gets on a leaderboard ranked by `amount`.
pub open spec fn entry_of(profile: Profile, amount: i128) -> EntryView {
    EntryView {
        address: profile.owner,
        username: profile.username@,
        amount,
        credit_score: profile.credit_score,
    }
}

/// The stored state differs from `old` at most in its leaderboards, their
/// reset times and the creators' period volumes.
pub open spec fn only_boards_changed(new: Tipz, old: Tipz) -> bool {
    new == (Tipz {
        leaderboard_set: new.leaderboard_set,
        leaderboard_all_time: new.leaderboard_all_time,
        leaderboard_monthly: new.leaderboard_monthly,
        leaderboard_weekly: new.leaderboard_weekly,
        last_reset_all_time: new.last_reset_all_time,
        last_reset_monthly: new.last_reset_monthly,
        last_reset_weekly: new.last_reset_weekly,
        creator_period_volumes: new.creator_period_volumes,
        creator_period_volume: new.creator_period_volume,
        ..old
    })
}

/// Every board of `new` is the corresponding board of `old` changed by
/// `f`, and the monthly and weekly reset times are kept.
pub open spec fn boards_after_tip(new: Tipz, old: Tipz, profile: Profile, amount: i128) -> bool {
    let v = rolled_volumes(
        old.creator_period_volumes@.get(profile.owner),
        old.spec_last_reset(LeaderboardPeriod::Monthly),
        old.spec_last_reset(LeaderboardPeriod::Weekly),
        amount,
    );
    &&& new.spec_leaderboard(LeaderboardPeriod::AllTime) == board_after_update(
        old.spec_leaderboard(LeaderboardPeriod::AllTime),
        entry_of(profile, profile.total_tips_received),
    )
    &&& new.spec_leaderboard(LeaderboardPeriod::Monthly) == board_after_update(
        old.spec_leaderboard(LeaderboardPeriod::Monthly),
        entry_of(profile, v.monthly),
    )
    &&& new.spec_leaderboard(LeaderboardPeriod::Weekly) == board_after_update(
        old.spec_leaderboard(LeaderboardPeriod::Weekly),
        entry_of(profile, v.weekly),
    )
    &&& new.spec_last_reset(LeaderboardPeriod::Monthly) == old.spec_last_reset(LeaderboardPeriod::Monthly)
    &&& new.spec_last_reset(LeaderboardPeriod::Weekly) == old.spec_last_reset(LeaderboardPeriod::Weekly)
    &&& new.creator_period_volumes@ == old.creator_period_volumes@.insert(profile.owner, v)
    &&& new.creator_period_volume@ == old.creator_period_volume@.insert(
        (profile.owner, LeaderboardPeriod::Monthly, old.spec_last_reset(LeaderboardPeriod::Monthly)),
        v.monthly,
    ).insert(
        (profile.owner, LeaderboardPeriod::Weekly, old.spec_last_reset(LeaderboardPeriod::Weekly)),
        v.weekly,
    )
}

/// Refresh all three leaderboards after `profile` has received a tip of
/// `amount`; deactivated profiles are skipped.
pub fn update_all_leaderboards(state: &mut Tipz, profile: &Profile, amount: i128)
    requires
        old(state).wf(),
    ensures
        final(state).wf(),
        old(state).deactivated_at@.contains_key(profile.owner) ==> *final(state) == *old(state),
        !old(state).deactivated_at@.contains_key(profile.owner) ==> {
            &&& only_boards_changed(*final(state), *old(state))
            &&& boards_after_tip(*final(state), *old(state), *profile, amount)
        },
{
    if state.is_profile_deactivated(profile.owner) {
        return;
    }
    update_all_leaderboards_for_active(state, profile, amount);
}

/// Refresh all three leaderboards after a tip of `amount` to `profile` was
/// refunded: the all-time board ranks by the reduced lifetime total, and the
/// refunded amount is taken off the monthly and weekly volumes (saturating);
/// deactivated profiles are skipped.
pub fn update_all_leaderboards_for_refund(state: &mut Tipz, profile: &Profile, amount: i128)
    requires
        old(state).wf(),
    ensures
        final(state).wf(),
        old(state).deactivated_at@.contains_key(profile.owner) ==> *final(state) == *old(state),
        !old(state).deactivated_at@.contains_key(profile.owner) ==> {
            &&& only_boards_changed(*final(state), *old(state))
            &&& boards_after_tip(*final(state), *old(state), *profile, sat_sub(0, amount))
        },
{
    update_all_leaderboards(state, profile, saturating_sub_i128(0, amount));
}

/// Apply a tip to all three leaderboards at once. All-time ranks by
/// lifetime `total_tips_received`; monthly and weekly rank by the rolling
/// per-period volume.
pub fn update_all_leaderboards_for_active(state: &mut Tipz, profile: &Profile, amount: i128)
    requires
        old(state).wf(),
    ensures
        final(state).wf(),
        only_boards_changed(*final(state), *old(state)),
        boards_after_tip(*final(state), *old(state), *profile, amount),
{
    let mut boards = state.get_or_build_leaderboard_set();
    let (monthly_total, weekly_total) = state.add_creator_period_volumes(
        profile.owner,
        boards.monthly_reset_at,
        boards.weekly_reset_at,
        amount,
    );
    let ghost b0 = boards;
    proof {
        lemma_update_keeps_board_wf(board_of(b0.all_time@), entry_of(*profile, profile.total_tips_received));
        lemma_update_keeps_board_wf(board_of(b0.monthly@), entry_of(*profile, monthly_total));
        lemma_update_keeps_board_wf(board_of(b0.weekly@), entry_of(*profile, weekly_total));
        assert(set_board(b0, LeaderboardPeriod::AllTime) == board_of(b0.all_time@));
        assert(set_board(b0, LeaderboardPeriod::Monthly) == board_of(b0.monthly@));
        assert(set_board(b0, LeaderboardPeriod::Weekly) == board_of(b0.weekly@));
    }
    update_entries(&mut boards.all_time, profile, profile.total_tips_received);
    update_entries(&mut boards.monthly, profile, monthly_total);
    update_entries(&mut boards.weekly, profile, weekly_total);
    let ghost b1 = boards;
    state.set_leaderboard_set(boards);
    assert(state.spec_leaderboard(LeaderboardPeriod::AllTime) == set_board(b1, LeaderboardPeriod::AllTime));
    assert(state.spec_leaderboard(LeaderboardPeriod::Monthly) == set_board(b1, LeaderboardPeriod::Monthly));
    assert(state.spec_leaderboard(LeaderboardPeriod::Weekly) == set_board(b1, LeaderboardPeriod::Weekly));
}

/// Remove `address` from every period leaderboard.
pub fn remove_from_all_leaderboards(state: &mut Tipz, address: Address)
    requires
        old(state).wf(),
    ensures
        final(state).wf(),
        only_boards_changed(*final(state), *old(state)),
        final(state).creator_period_volume@ == old(state).creator_period_volume@,
        final(state).creator_period_volumes@ == old(state).creator_period_volumes@,
        forall|p: LeaderboardPeriod| #[trigger] final(state).spec_leaderboard(p) == without_address(old(state).spec_leaderboard(p), address),
        final(state).spec_last_reset(LeaderboardPeriod::Monthly) == old(state).spec_last_reset(LeaderboardPeriod::Monthly),
        final(state).spec_last_reset(LeaderboardPeriod::Weekly) == old(state).spec_last_reset(LeaderboardPeriod::Weekly),
{
    let ghost s0 = *state;
    remove_from_leaderboard(state, LeaderboardPeriod::AllTime, address);
    let ghost s1 = *state;
    remove_from_leaderboard(state, LeaderboardPeriod::Monthly, address);
    let ghost s2 = *state;
    remove_from_leaderboard(state, LeaderboardPeriod::Weekly, address);
    assert forall|p: LeaderboardPeriod| #[trigger] state.spec_leaderboard(p) == without_address(s0.spec_leaderboard(p), address) by {
        match p {
            LeaderboardPeriod::AllTime => {
                assert(state.spec_leaderboard(p) == s2.spec_leaderboard(p));
                assert(s2.spec_leaderboard(p) == s1.spec_leaderboard(p));
            },
            LeaderboardPeriod::Monthly => {
                assert(state.spec_leaderboard(p) == s2.spec_leaderboard(p));
                assert(s1.spec_leaderboard(p) == s0.spec_leaderboard(p));
            },
            LeaderboardPeriod::Weekly => {
                assert(s2.spec_leaderboard(p) == s0.spec_leaderboard(p)) by {
                    assert(s2.spec_leaderboard(p) == s1.spec_leaderboard(p));
                    assert(s1.spec_leaderboard(p) == s0.spec_leaderboard(p));
                }
            },
        }
    }
}

/// Refresh a single `period` leaderboard for `profile`. The all-time board
/// ranks by lifetime tips; period boards rank by the period volume after
/// adding `tip_amount`. No-op for deactivated profiles.
pub fn update_leaderboard(state: &mut Tipz, profile: &Profile, period: LeaderboardPeriod, tip_amount: i128)
    requires
        old(state).wf(),
    ensures
        final(state).wf(),
        old(state).deactivated_at@.contains_key(profile.owner) ==> *final(state) == *old(state),
        !old(state).deactivated_at@.contains_key(profile.owner) ==> {
            let total = if period == LeaderboardPeriod::AllTime {
                profile.total_tips_received
            } else {
                crate::storage::sat_add(old(state).spec_period_volume(profile.owner, period), tip_amount)
            };
            &&& only_boards_changed(*final(state), *old(state))
            &&& final(state).spec_leaderboard(period) == board_after_update(old(state).spec_leaderboard(period), entry_of(*profile, total))
            &&& forall|q: LeaderboardPeriod| q != period ==> #[trigger] final(state).spec_leaderboard(q) == old(state).spec_leaderboard(q)
            &&& final(state).spec_last_reset(LeaderboardPeriod::Monthly) == old(state).spec_last_reset(LeaderboardPeriod::Monthly)
            &&& final(state).spec_last_reset(LeaderboardPeriod::Weekly) == old(state).spec_last_reset(LeaderboardPeriod::Weekly)
            &&& period == LeaderboardPeriod::AllTime ==> final(state).creator_period_volume@ == old(state).creator_period_volume@
            &&& period != LeaderboardPeriod::AllTime ==> final(state).creator_period_volume@ == old(state).creator_period_volume@.insert(
                (profile.owner, period, old(state).spec_last_reset(period)),
                total,
            )
            &&& final(state).creator_period_volumes@ == old(state).creator_period_volumes@
        },
{
    if state.is_profile_deactivated(profile.owner) {
        return;
    }
    let period_total = if period == LeaderboardPeriod::AllTime {
        profile.total_tips_received
    } else {
        state.add_creator_period_volume(profile.owner, period, tip_amount)
    };
    let mut entries = state.get_leaderboard(period);
    proof {
        lemma_update_keeps_board_wf(board_of(entries@), entry_of(*profile, period_total));
    }
    update_entries(&mut entries, profile, period_total);
    state.set_leaderboard(period, &entries);
}

/// Clear a period leaderboard and stamp the reset time. The all-time board
/// is never reset.
pub fn reset_leaderboard(state: &mut Tipz, period: LeaderboardPeriod, now: u64)
    requires
        old(state).wf(),
    ensures
        final(state).wf(),
        period == LeaderboardPeriod::AllTime ==> *final(state) == *old(state),
        period != LeaderboardPeriod::AllTime ==> {
            &&& only_boards_changed(*final(state), *old(state))
            &&& final(state).creator_period_volume@ == old(state).creator_period_volume@
            &&& final(state).creator_period_volumes@ == old(state).creator_period_volumes@
            &&& final(state).spec_leaderboard(period) == Seq::<EntryView>::empty()
            &&& final(state).spec_last_reset(period) == now
            &&& forall|q: LeaderboardPeriod| q != period ==> #[trigger] final(state).spec_leaderboard(q) == old(state).spec_leaderboard(q)
            &&& forall|q: LeaderboardPeriod| q != period && q != LeaderboardPeriod::AllTime
                ==> #[trigger] final(state).spec_last_reset(q) == old(state).spec_last_reset(q)
        },
{
    if period == LeaderboardPeriod::AllTime {
        return;
    }
    let empty: Vec<LeaderboardEntry> = Vec::new();
    assert(board_of(empty@) =~= Seq::<EntryView>::empty());
    state.set_leaderboard(period, &empty);
    state.set_last_leaderboard_reset(period, now);
}

/// Return up to `limit` leaderboard entries sorted descending (`0`: all).
pub fn get_leaderboard(state: &Tipz, period: LeaderboardPeriod, limit: u32) -> (r: Vec<LeaderboardEntry>)
    ensures
        board_of(r@) == top_of(state.spec_leaderboard(period), limit),
{
    let entries = state.get_leaderboard(period);
    if limit == 0 || limit as usize >= entries.len() {
        return entries;
    }
    top_entries(&entries, limit)
}

/// Whether `address` is on the leaderboard of `period`.
pub fn is_on_leaderboard(state: &Tipz, period: LeaderboardPeriod, address: Address) -> (r: bool)
    ensures
        r == exists|i: int| 0 <= i < state.spec_leaderboard(period).len() && state.spec_leaderboard(period)[i].address == address,
{
    let entries = state.get_leaderboard(period);
    let r = is_on_board(&entries, address);
    proof {
        if r {
            let i = choose|i: int| 0 <= i < entries@.len() && entries@[i].address == address;
            assert(board_of(entries@)[i].address == address);
        } else {
            assert forall|i: int| 0 <= i < state.spec_leaderboard(period).len() implies state.spec_leaderboard(period)[i].address != address by {
                assert(board_of(entries@)[i] == entries@[i]@);
            }
        }
    }
    r
}

/// The 1-based rank of `address` on the leaderboard of `period`, or `None`.
pub fn get_leaderboard_rank(state: &Tipz, period: LeaderboardPeriod, address: Address) -> (r: Option<u32>)
    requires
        state.spec_leaderboard(period).len() < u32::MAX,
    ensures
        match r {
            Some(rank) => 1 <= rank <= state.spec_leaderboard(period).len()
                && state.spec_leaderboard(period)[rank - 1].address == address
                && forall|j: int| 0 <= j < rank - 1 ==> state.spec_leaderboard(period)[j].address != address,
            None => forall|j: int| 0 <= j < state.spec_leaderboard(period).len() ==> state.spec_leaderboard(period)[j].address != address,
        },
{
    let entries = state.get_leaderboard(period);
    let r = rank_on_board(&entries, address);
    proof {
        assert forall|j: int| 0 <= j < entries@.len() implies board_of(entries@)[j].address == entries@[j].address by {}
    }
    r
}

/// Remove `address` from the leaderboard of `period`.
pub fn remove_from_leaderboard(state: &mut Tipz, period: LeaderboardPeriod, address: Address)
    requires
        old(state).wf(),
    ensures
        final(state).wf(),
        only_boards_changed(*final(state), *old(state)),
        final(state).creator_period_volume@ == old(state).creator_period_volume@,
        final(state).creator_period_volumes@ == old(state).creator_period_volumes@,
        final(state).spec_leaderboard(period) == without_address(old(state).spec_leaderboard(period), address),
        forall|q: LeaderboardPeriod| q != period ==> #[trigger] final(state).spec_leaderboard(q) == old(state).spec_leaderboard(q),
        final(state).spec_last_reset(LeaderboardPeriod::Monthly) == old(state).spec_last_reset(LeaderboardPeriod::Monthly),
        final(state).spec_last_reset(LeaderboardPeriod::Weekly) == old(state).spec_last_reset(LeaderboardPeriod::Weekly),
{
    let entries = state.get_leaderboard(period);
    let new_entries = without_entries_of(&entries, address);
    proof {
        lemma_without_address(board_of(entries@), address);
    }
    state.set_leaderboard(period, &new_entries);
}

/// The number of entries on the leaderboard of `period`.
pub fn get_leaderboard_size(state: &Tipz, period: LeaderboardPeriod) -> (r: u32)
    requires
        state.spec_leaderboard(period).len() <= u32::MAX,
    ensures
        r == state.spec_leaderboard(period).len(),
{
    let entries = state.get_leaderboard(period);
    entries.len() as u32
}

} // verus!
