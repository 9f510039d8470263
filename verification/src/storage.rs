//! The stored state of the Tipz ledger and the helpers that read and write it.
//!
//! The state is kept in three tiers, as on chain: contract-wide configuration
//! and counters (instance), long-lived per-creator records (persistent) and
//! short-lived tip records and their indexes (temporary). Some values are
//! also kept in a compact cache (`runtime_config`, `leaderboard_set`,
//! `send_tip_state`, `creator_period_volumes`); reads prefer the cache when
//! it is present and writes keep both in step, so a read always gives back
//! the last value written.

use vstd::prelude::*;

use crate::bytes::copy_bytes;
use crate::errors::ContractError;
use crate::leaderboard::{board_of, board_wf, copy_entry, top_entries, EntryView};
use crate::table::Table;
use crate::types::{
    AcceptedToken, Address, AdminChangeHistoryEntry, AdminChangeProposal, DonationPageConfig, Goal,
    LeaderboardEntry, LeaderboardPeriod, Profile, RateLimitConfig, RateLimitStatus, RefundConfig,
    RefundRequest, Streak, Tip, VerificationType,
};

verus! {

/// Approximate 7-day TTL in ledgers at ~5 seconds per ledger.
pub const INSTANCE_TTL_MIN_LEDGERS: u32 = 120_960;

/// Approximate 31-day TTL in ledgers at ~5 seconds per ledger.
pub const INSTANCE_TTL_MAX_LEDGERS: u32 = 535_680;

/// Approximate 7-day TTL in ledgers at ~5 seconds per ledger.
pub const TIP_TTL_LEDGERS: u32 = 120_960;

/// Minimum TTL threshold before a profile entry is extended (~7 days).
pub const PROFILE_TTL_MIN_LEDGERS: u32 = 120_960;

/// Target TTL for profile entries after a bump (~31 days).
pub const PROFILE_TTL_MAX_LEDGERS: u32 = 535_680;

/// Default domain re-verification interval: 30 days.
pub const DEFAULT_DOMAIN_REVERIFICATION_INTERVAL: u64 = 2_592_000;

/// Default refund request window (24 hours).
pub const DEFAULT_REFUND_REQUEST_WINDOW_SECS: u64 = 86400;

/// Default refund response window (48 hours).
pub const DEFAULT_REFUND_RESPONSE_WINDOW_SECS: u64 = 172800;

/// Default non-refundable fee (2%).
pub const DEFAULT_NON_REFUNDABLE_FEE_BPS: u32 = 200;

/// Default maximum operations per rate-limit window.
pub const DEFAULT_RATE_LIMIT_MAX_OPS: u32 = 50;

/// Default rate-limit window (1 hour).
pub const DEFAULT_RATE_LIMIT_WINDOW_SECS: u64 = 3600;

/// Frequently-read runtime configuration kept under one cache entry.
#[derive(Clone, Copy, Debug, PartialEq, Eq, Structural)]
pub struct RuntimeConfig {
    pub admin: Address,
    pub fee_collector: Address,
    pub fee_bps: u32,
    pub native_token: Address,
    pub paused: bool,
    pub min_tip_amount: i128,
    pub rate_limit: RateLimitConfig,
    /// Domain re-verification interval in seconds (0 = default of 30 days)
    pub domain_reverify_secs: u64,
}

/// All leaderboard periods cached under one entry for write-heavy operations.
#[derive(Clone, Debug)]
pub struct LeaderboardSet {
    pub all_time: Vec<LeaderboardEntry>,
    pub monthly: Vec<LeaderboardEntry>,
    pub weekly: Vec<LeaderboardEntry>,
    pub monthly_reset_at: u64,
    pub weekly_reset_at: u64,
}

/// Cached non-all-time tip volumes for a creator.
#[derive(Clone, Copy, Debug, PartialEq, Eq, Structural)]
pub struct CreatorPeriodVolumes {
    pub monthly_start_at: u64,
    pub monthly: i128,
    pub weekly_start_at: u64,
    pub weekly: i128,
}

/// Global counters commonly updated while sending a tip.
#[derive(Clone, Copy, Debug, PartialEq, Eq, Structural)]
pub struct SendTipState {
    pub tip_count: u32,
    pub total_tips_volume: i128,
    pub stats_window_start: u64,
    pub tips_last_24h: u32,
    pub volume_last_24h: i128,
    pub active_creators_30d: u32,
}

/// The complete stored state of the ledger.
///
/// An `Option` field or a table entry that is absent is a key that was never
/// written (or was removed).
pub struct Tipz {
    /// Address of the ledger itself (the holder of tipped funds).
    pub contract_address: Address,
    // ── instance tier ──
    pub initialized: bool,
    pub admin: Option<Address>,
    pub fee_bps: Option<u32>,
    pub fee_collector: Option<Address>,
    pub version: Option<u32>,
    pub total_fees_collected: Option<i128>,
    pub tip_count: Option<u32>,
    pub leaderboard_all_time: Option<Vec<LeaderboardEntry>>,
    pub leaderboard_monthly: Option<Vec<LeaderboardEntry>>,
    pub leaderboard_weekly: Option<Vec<LeaderboardEntry>>,
    pub last_reset_all_time: Option<u64>,
    pub last_reset_monthly: Option<u64>,
    pub last_reset_weekly: Option<u64>,
    pub total_creators: Option<u32>,
    pub total_tips_volume: Option<i128>,
    pub native_token: Option<Address>,
    pub paused: Option<bool>,
    pub min_tip_amount: Option<i128>,
    pub pending_admin_change: Option<AdminChangeProposal>,
    pub admin_change_history: Option<Vec<AdminChangeHistoryEntry>>,
    pub stats_window_start: Option<u64>,
    pub tips_last_24h: Option<u32>,
    pub volume_last_24h: Option<i128>,
    pub active_creators_30d: Option<u32>,
    pub rate_limits: Table<Address, RateLimitStatus>,
    pub rate_limit_config: Option<RateLimitConfig>,
    pub creator_period_volume: Table<(Address, LeaderboardPeriod, u64), i128>,
    pub accepted_tokens: Table<Address, AcceptedToken>,
    pub accepted_token_list: Option<Vec<Address>>,
    pub refund_config: Option<RefundConfig>,
    pub runtime_config: Option<RuntimeConfig>,
    pub leaderboard_set: Option<LeaderboardSet>,
    pub creator_period_volumes: Table<Address, CreatorPeriodVolumes>,
    pub send_tip_state: Option<SendTipState>,
    // ── persistent tier ──
    pub profiles: Table<Address, Profile>,
    pub usernames: Table<Vec<u8>, Address>,
    pub verification_requests: Table<Address, VerificationType>,
    pub donation_pages: Table<Address, DonationPageConfig>,
    pub creator_last_active: Table<Address, u64>,
    pub streaks: Table<(Address, Address), Streak>,
    pub deactivated_at: Table<Address, u64>,
    pub active_goals: Table<Address, Goal>,
    pub archived_goals: Table<Address, Vec<Goal>>,
    pub token_balances: Table<(Address, Address), i128>,
    // ── temporary tier ──
    pub tips: Table<u32, Tip>,
    pub tipper_tip_count: Table<Address, u32>,
    pub tipper_tips: Table<(Address, u32), u32>,
    pub creator_tip_count: Table<Address, u32>,
    pub creator_tips: Table<(Address, u32), u32>,
    pub refund_requests: Table<u32, RefundRequest>,
}

/// A stored leaderboard, if present, is well-formed.
pub open spec fn opt_board_wf(b: Option<Vec<LeaderboardEntry>>) -> bool {
    match b {
        Some(v) => board_wf(board_of(v@)),
        None => true,
    }
}

/// Every leaderboard of a cached set is well-formed.
pub open spec fn set_wf(s: Option<LeaderboardSet>) -> bool {
    match s {
        Some(s) => board_wf(board_of(s.all_time@)) && board_wf(board_of(s.monthly@)) && board_wf(
            board_of(s.weekly@),
        ),
        None => true,
    }
}

impl Tipz {
    /// Well-formedness of the stored state: every table keeps one value per
    /// key and every stored leaderboard is sorted with one entry per creator.
    pub open spec fn wf(&self) -> bool {
        &&& self.rate_limits.wf()
        &&& self.creator_period_volume.wf()
        &&& self.accepted_tokens.wf()
        &&& self.creator_period_volumes.wf()
        &&& self.profiles.wf()
        &&& self.usernames.wf()
        &&& self.verification_requests.wf()
        &&& self.donation_pages.wf()
        &&& self.creator_last_active.wf()
        &&& self.streaks.wf()
        &&& self.deactivated_at.wf()
        &&& self.active_goals.wf()
        &&& self.archived_goals.wf()
        &&& self.token_balances.wf()
        &&& self.tips.wf()
        &&& self.tipper_tip_count.wf()
        &&& self.tipper_tips.wf()
        &&& self.creator_tip_count.wf()
        &&& self.creator_tips.wf()
        &&& self.refund_requests.wf()
        &&& opt_board_wf(self.leaderboard_all_time)
        &&& opt_board_wf(self.leaderboard_monthly)
        &&& opt_board_wf(self.leaderboard_weekly)
        &&& set_wf(self.leaderboard_set)
        &&& forall|a: Address| #[trigger] self.profiles@.contains_key(a) ==> self.profiles@[a].owner == a
        &&& forall|k: u32| #[trigger] self.refund_requests@.contains_key(k) ==> self.refund_requests@[k].tip_id == k
        &&& self.send_tip_state matches Some(st) ==> st.tip_count == or_default(self.tip_count, 0)
            && st.total_tips_volume == or_default(self.total_tips_volume, 0)
    }

    /// A ledger with nothing stored yet.
    pub fn new(contract_address: Address) -> (t: Self)
        ensures
            t.wf(),
            t.contract_address == contract_address,
            !t.initialized,
            t.admin is None && t.fee_bps is None && t.fee_collector is None && t.version is None,
            t.total_fees_collected is None && t.tip_count is None && t.total_creators is None,
            t.total_tips_volume is None && t.native_token is None && t.paused is None,
            t.min_tip_amount is None && t.pending_admin_change is None,
            t.admin_change_history is None && t.rate_limit_config is None,
            t.refund_config is None && t.runtime_config is None && t.leaderboard_set is None,
            t.send_tip_state is None && t.accepted_token_list is None,
            t.leaderboard_all_time is None && t.leaderboard_monthly is None && t.leaderboard_weekly is None,
            t.last_reset_all_time is None && t.last_reset_monthly is None && t.last_reset_weekly is None,
            t.stats_window_start is None && t.tips_last_24h is None,
            t.volume_last_24h is None && t.active_creators_30d is None,
            t.rate_limits@ == Map::<Address, RateLimitStatus>::empty(),
            t.creator_period_volume@ == Map::<(Address, LeaderboardPeriod, u64), i128>::empty(),
            t.accepted_tokens@ == Map::<Address, AcceptedToken>::empty(),
            t.creator_period_volumes@ == Map::<Address, CreatorPeriodVolumes>::empty(),
            t.profiles@ == Map::<Address, Profile>::empty(),
            t.usernames@ == Map::<Seq<u8>, Address>::empty(),
            t.verification_requests@ == Map::<Address, VerificationType>::empty(),
            t.donation_pages@ == Map::<Address, DonationPageConfig>::empty(),
            t.creator_last_active@ == Map::<Address, u64>::empty(),
            t.streaks@ == Map::<(Address, Address), Streak>::empty(),
            t.deactivated_at@ == Map::<Address, u64>::empty(),
            t.active_goals@ == Map::<Address, Goal>::empty(),
            t.archived_goals@ == Map::<Address, Vec<Goal>>::empty(),
            t.token_balances@ == Map::<(Address, Address), i128>::empty(),
            t.tips@ == Map::<u32, Tip>::empty(),
            t.tipper_tip_count@ == Map::<Address, u32>::empty(),
            t.tipper_tips@ == Map::<(Address, u32), u32>::empty(),
            t.creator_tip_count@ == Map::<Address, u32>::empty(),
            t.creator_tips@ == Map::<(Address, u32), u32>::empty(),
            t.refund_requests@ == Map::<u32, RefundRequest>::empty(),
    {
        Tipz {
            contract_address,
            initialized: false,
            admin: None,
            fee_bps: None,
            fee_collector: None,
            version: None,
            total_fees_collected: None,
            tip_count: None,
            leaderboard_all_time: None,
            leaderboard_monthly: None,
            leaderboard_weekly: None,
            last_reset_all_time: None,
            last_reset_monthly: None,
            last_reset_weekly: None,
            total_creators: None,
            total_tips_volume: None,
            native_token: None,
            paused: None,
            min_tip_amount: None,
            pending_admin_change: None,
            admin_change_history: None,
            stats_window_start: None,
            tips_last_24h: None,
            volume_last_24h: None,
            active_creators_30d: None,
            rate_limits: Table::new(),
            rate_limit_config: None,
            creator_period_volume: Table::new(),
            accepted_tokens: Table::new(),
            accepted_token_list: None,
            refund_config: None,
            runtime_config: None,
            leaderboard_set: None,
            creator_period_volumes: Table::new(),
            send_tip_state: None,
            profiles: Table::new(),
            usernames: Table::new(),
            verification_requests: Table::new(),
            donation_pages: Table::new(),
            creator_last_active: Table::new(),
            streaks: Table::new(),
            deactivated_at: Table::new(),
            active_goals: Table::new(),
            archived_goals: Table::new(),
            token_balances: Table::new(),
            tips: Table::new(),
            tipper_tip_count: Table::new(),
            tipper_tips: Table::new(),
            creator_tip_count: Table::new(),
            creator_tips: Table::new(),
            refund_requests: Table::new(),
        }
    }
}

/// The copy of `v`.
pub fn copy_vec<T: Copy>(v: &Vec<T>) -> (r: Vec<T>)
    ensures
        r@ == v@,
{
    let mut r: Vec<T> = Vec::new();
    let mut i: usize = 0;
    while i < v.len()
        invariant
            i <= v@.len(),
            r@ == v@.take(i as int),
        decreases v@.len() - i,
    {
        r.push(v[i]);
        i = i + 1;
        assert(r@ =~= v@.take(i as int));
    }
    assert(v@.take(v@.len() as int) =~= v@);
    r
}

/// What `get_*` reads for an optional value with a default.
pub open spec fn or_default<T>(o: Option<T>, d: T) -> T {
    match o {
        Some(v) => v,
        None => d,
    }
}

impl Tipz {
    // ── readers of the configuration (cache first) ──

    /// The paused flag as read.
    pub open spec fn spec_paused(&self) -> bool {
        match self.runtime_config {
            Some(c) => c.paused,
            None => or_default(self.paused, false),
        }
    }

    /// The global minimum tip as read.
    pub open spec fn spec_min_tip_amount(&self) -> i128 {
        match self.runtime_config {
            Some(c) => c.min_tip_amount,
            None => or_default(self.min_tip_amount, 0),
        }
    }

    /// The withdrawal fee in basis points as read.
    pub open spec fn spec_fee_bps(&self) -> u32 {
        match self.runtime_config {
            Some(c) => c.fee_bps,
            None => or_default(self.fee_bps, 0),
        }
    }

    /// The admin as read (`None`: not set).
    pub open spec fn spec_admin(&self) -> Option<Address> {
        match self.runtime_config {
            Some(c) => Some(c.admin),
            None => self.admin,
        }
    }

    /// The fee collector as read (`None`: not set).
    pub open spec fn spec_fee_collector(&self) -> Option<Address> {
        match self.runtime_config {
            Some(c) => Some(c.fee_collector),
            None => self.fee_collector,
        }
    }

    /// The native token as read (`None`: not set).
    pub open spec fn spec_native_token(&self) -> Option<Address> {
        match self.runtime_config {
            Some(c) => Some(c.native_token),
            None => self.native_token,
        }
    }

    /// The rate-limit configuration as read.
    pub open spec fn spec_rate_limit_config(&self) -> RateLimitConfig {
        match self.runtime_config {
            Some(c) => c.rate_limit,
            None => or_default(
                self.rate_limit_config,
                RateLimitConfig {
                    max_ops: DEFAULT_RATE_LIMIT_MAX_OPS,
                    window_secs: DEFAULT_RATE_LIMIT_WINDOW_SECS,
                },
            ),
        }
    }

    /// The domain re-verification interval as read.
    pub open spec fn spec_domain_reverification_interval(&self) -> u64 {
        match self.runtime_config {
            Some(c) => if c.domain_reverify_secs > 0 {
                c.domain_reverify_secs
            } else {
                DEFAULT_DOMAIN_REVERIFICATION_INTERVAL
            },
            None => DEFAULT_DOMAIN_REVERIFICATION_INTERVAL,
        }
    }

    /// The refund configuration as read.
    pub open spec fn spec_refund_config(&self) -> RefundConfig {
        or_default(
            self.refund_config,
            RefundConfig {
                request_window_secs: DEFAULT_REFUND_REQUEST_WINDOW_SECS,
                response_window_secs: DEFAULT_REFUND_RESPONSE_WINDOW_SECS,
                non_refundable_fee_bps: DEFAULT_NON_REFUNDABLE_FEE_BPS,
            },
        )
    }

    // ── initialisation ──

    /// Returns `true` if the ledger has been initialised.
    pub fn is_initialized(&self) -> (r: bool)
        ensures
            r == self.initialized,
    {
        self.initialized
    }

    /// Marks the ledger as initialised.
    pub fn set_initialized(&mut self)
        ensures
            *final(self) == (Tipz { initialized: true, ..*old(self) }),
    {
        self.initialized = true;
    }

    // ── native token ──

    /// Returns the native token address.
    pub fn get_native_token(&self) -> (r: Address)
        requires
            self.spec_native_token() is Some,
        ensures
            Some(r) == self.spec_native_token(),
    {
        match self.runtime_config {
            Some(config) => config.native_token,
            None => self.native_token.unwrap(),
        }
    }

    /// Sets the native token address.
    pub fn set_native_token(&mut self, addr: Address)
        ensures
            *final(self) == (Tipz {
                native_token: Some(addr),
                runtime_config: match old(self).runtime_config {
                    Some(c) => Some(RuntimeConfig { native_token: addr, ..c }),
                    None => None,
                },
                ..*old(self)
            }),
            final(self).spec_native_token() == Some(addr),
    {
        self.native_token = Some(addr);
        if let Some(mut config) = self.runtime_config {
            config.native_token = addr;
            self.runtime_config = Some(config);
        }
    }

    // ── pause state ──

    /// Returns `true` when the ledger is paused.
    pub fn is_paused(&self) -> (r: bool)
        ensures
            r == self.spec_paused(),
    {
        match self.runtime_config {
            Some(config) => config.paused,
            None => match self.paused {
                Some(p) => p,
                None => false,
            },
        }
    }

    /// Sets the paused flag.
    pub fn set_paused(&mut self, paused: bool)
        ensures
            *final(self) == (Tipz {
                paused: Some(paused),
                runtime_config: match old(self).runtime_config {
                    Some(c) => Some(RuntimeConfig { paused, ..c }),
                    None => None,
                },
                ..*old(self)
            }),
            final(self).spec_paused() == paused,
    {
        self.paused = Some(paused);
        if let Some(mut config) = self.runtime_config {
            config.paused = paused;
            self.runtime_config = Some(config);
        }
    }

    // ── minimum tip amount ──

    /// Returns the minimum allowed tip amount in stroops.
    pub fn get_min_tip_amount(&self) -> (r: i128)
        ensures
            r == self.spec_min_tip_amount(),
    {
        match self.runtime_config {
            Some(config) => config.min_tip_amount,
            None => match self.min_tip_amount {
                Some(m) => m,
                None => 0,
            },
        }
    }

    /// Sets the minimum allowed tip amount in stroops.
    pub fn set_min_tip_amount(&mut self, amount: i128)
        ensures
            *final(self) == (Tipz {
                min_tip_amount: Some(amount),
                runtime_config: match old(self).runtime_config {
                    Some(c) => Some(RuntimeConfig { min_tip_amount: amount, ..c }),
                    None => None,
                },
                ..*old(self)
            }),
            final(self).spec_min_tip_amount() == amount,
    {
        self.min_tip_amount = Some(amount);
        if let Some(mut config) = self.runtime_config {
            config.min_tip_amount = amount;
            self.runtime_config = Some(config);
        }
    }

    // ── domain re-verification interval ──

    /// Returns the configured domain re-verification interval in seconds.
    pub fn get_domain_reverification_interval(&self) -> (r: u64)
        ensures
            r == self.spec_domain_reverification_interval(),
    {
        if let Some(config) = self.runtime_config {
            if config.domain_reverify_secs > 0 {
                return config.domain_reverify_secs;
            }
        }
        DEFAULT_DOMAIN_REVERIFICATION_INTERVAL
    }

    /// Sets the domain re-verification interval in seconds. It is kept in
    /// the runtime configuration only, so it is dropped when there is none.
    pub fn set_domain_reverification_interval(&mut self, interval_secs: u64)
        ensures
            *final(self) == (Tipz {
                runtime_config: match old(self).runtime_config {
                    Some(c) => Some(RuntimeConfig { domain_reverify_secs: interval_secs, ..c }),
                    None => None,
                },
                ..*old(self)
            }),
    {
        if let Some(mut config) = self.runtime_config {
            config.domain_reverify_secs = interval_secs;
            self.runtime_config = Some(config);
        }
    }

    // ── admin ──

    /// Returns the current admin address.
    pub fn get_admin(&self) -> (r: Address)
        requires
            self.spec_admin() is Some,
        ensures
            Some(r) == self.spec_admin(),
    {
        match self.runtime_config {
            Some(config) => config.admin,
            None => self.admin.unwrap(),
        }
    }

    /// Overwrites the admin address.
    pub fn set_admin(&mut self, admin: Address)
        ensures
            *final(self) == (Tipz {
                admin: Some(admin),
                runtime_config: match old(self).runtime_config {
                    Some(c) => Some(RuntimeConfig { admin, ..c }),
                    None => None,
                },
                ..*old(self)
            }),
            final(self).spec_admin() == Some(admin),
    {
        self.admin = Some(admin);
        if let Some(mut config) = self.runtime_config {
            config.admin = admin;
            self.runtime_config = Some(config);
        }
    }

    /// Pending admin change proposal, if any.
    pub fn get_pending_admin_change(&self) -> (r: Option<AdminChangeProposal>)
        ensures
            r == self.pending_admin_change,
    {
        self.pending_admin_change
    }

    /// Records a pending admin change proposal.
    pub fn set_pending_admin_change(&mut self, proposal: AdminChangeProposal)
        ensures
            *final(self) == (Tipz { pending_admin_change: Some(proposal), ..*old(self) }),
    {
        self.pending_admin_change = Some(proposal);
    }

    /// Drops the pending admin change proposal.
    pub fn remove_pending_admin_change(&mut self)
        ensures
            *final(self) == (Tipz { pending_admin_change: None, ..*old(self) }),
    {
        self.pending_admin_change = None;
    }

    // ── admin change history ──

    /// The recorded admin handoffs, oldest first.
    pub open spec fn spec_admin_change_history(&self) -> Seq<AdminChangeHistoryEntry> {
        match self.admin_change_history {
            Some(h) => h@,
            None => Seq::empty(),
        }
    }

    /// The id the next recorded handoff gets (the number recorded so far).
    pub fn get_admin_change_history_next_id(&self) -> (r: usize)
        ensures
            r == self.spec_admin_change_history().len(),
    {
        match &self.admin_change_history {
            Some(h) => h.len(),
            None => 0,
        }
    }

    /// Append a completed admin change to history (sequential ids, newest has highest id).
    pub fn append_admin_change_history(&mut self, entry: AdminChangeHistoryEntry)
        ensures
            *final(self) == (Tipz { admin_change_history: final(self).admin_change_history, ..*old(self) }),
            final(self).admin_change_history is Some,
            final(self).spec_admin_change_history() == old(self).spec_admin_change_history().push(entry),
    {
        let mut history = match &self.admin_change_history {
            Some(h) => copy_vec(h),
            None => Vec::new(),
        };
        history.push(entry);
        self.admin_change_history = Some(history);
    }

    /// The recorded handoff with the given id, if any.
    pub fn get_admin_change_history_entry(&self, id: u32) -> (r: Option<AdminChangeHistoryEntry>)
        ensures
            r == (if id < self.spec_admin_change_history().len() {
                Some(self.spec_admin_change_history()[id as int])
            } else {
                None
            }),
    {
        match &self.admin_change_history {
            Some(h) => {
                if (id as usize) < h.len() {
                    Some(h[id as usize])
                } else {
                    None
                }
            },
            None => None,
        }
    }

    // ── contract version ──

    /// Returns the stored version, or 0 if not yet set.
    pub fn get_version(&self) -> (r: u32)
        ensures
            r == or_default(self.version, 0),
    {
        match self.version {
            Some(v) => v,
            None => 0,
        }
    }

    /// Sets the stored version.
    pub fn set_version(&mut self, version: u32)
        ensures
            *final(self) == (Tipz { version: Some(version), ..*old(self) }),
    {
        self.version = Some(version);
    }

    // ── fee basis points ──

    /// Returns the withdrawal fee in basis points (100 bps = 1 %).
    pub fn get_fee_bps(&self) -> (r: u32)
        ensures
            r == self.spec_fee_bps(),
    {
        match self.runtime_config {
            Some(config) => config.fee_bps,
            None => match self.fee_bps {
                Some(f) => f,
                None => 0,
            },
        }
    }

    /// Sets the withdrawal fee in basis points.
    pub fn set_fee_bps(&mut self, fee_bps: u32)
        ensures
            *final(self) == (Tipz {
                fee_bps: Some(fee_bps),
                runtime_config: match old(self).runtime_config {
                    Some(c) => Some(RuntimeConfig { fee_bps, ..c }),
                    None => None,
                },
                ..*old(self)
            }),
            final(self).spec_fee_bps() == fee_bps,
    {
        self.fee_bps = Some(fee_bps);
        if let Some(mut config) = self.runtime_config {
            config.fee_bps = fee_bps;
            self.runtime_config = Some(config);
        }
    }

    // ── fee collector ──

    /// Returns the address that receives collected fees.
    pub fn get_fee_collector(&self) -> (r: Address)
        requires
            self.spec_fee_collector() is Some,
        ensures
            Some(r) == self.spec_fee_collector(),
    {
        match self.runtime_config {
            Some(config) => config.fee_collector,
            None => self.fee_collector.unwrap(),
        }
    }

    /// Sets the fee collector address.
    pub fn set_fee_collector(&mut self, addr: Address)
        ensures
            *final(self) == (Tipz {
                fee_collector: Some(addr),
                runtime_config: match old(self).runtime_config {
                    Some(c) => Some(RuntimeConfig { fee_collector: addr, ..c }),
                    None => None,
                },
                ..*old(self)
            }),
            final(self).spec_fee_collector() == Some(addr),
    {
        self.fee_collector = Some(addr);
        if let Some(mut config) = self.runtime_config {
            config.fee_collector = addr;
            self.runtime_config = Some(config);
        }
    }

    /// The cached runtime configuration, if any.
    pub fn get_runtime_config(&self) -> (r: Option<RuntimeConfig>)
        ensures
            r == self.runtime_config,
    {
        self.runtime_config
    }

    /// Stores the runtime configuration cache.
    pub fn set_runtime_config(&mut self, config: RuntimeConfig)
        ensures
            *final(self) == (Tipz { runtime_config: Some(config), ..*old(self) }),
    {
        self.runtime_config = Some(config);
    }

    // ── rate limiting ──

    /// Returns the current rate limit configuration.
    pub fn get_rate_limit_config(&self) -> (r: RateLimitConfig)
        ensures
            r == self.spec_rate_limit_config(),
    {
        match self.runtime_config {
            Some(config) => config.rate_limit,
            None => match self.rate_limit_config {
                Some(c) => c,
                None => RateLimitConfig {
                    max_ops: DEFAULT_RATE_LIMIT_MAX_OPS,
                    window_secs: DEFAULT_RATE_LIMIT_WINDOW_SECS,
                },
            },
        }
    }

    /// Sets the rate limit configuration.
    pub fn set_rate_limit_config(&mut self, config: RateLimitConfig)
        ensures
            *final(self) == (Tipz {
                rate_limit_config: Some(config),
                runtime_config: match old(self).runtime_config {
                    Some(c) => Some(RuntimeConfig { rate_limit: config, ..c }),
                    None => None,
                },
                ..*old(self)
            }),
            final(self).spec_rate_limit_config() == config,
    {
        self.rate_limit_config = Some(config);
        if let Some(mut runtime_config) = self.runtime_config {
            runtime_config.rate_limit = config;
            self.runtime_config = Some(runtime_config);
        }
    }

    /// Returns the current rate limit status for an address.
    pub fn get_rate_limit_status(&self, address: Address) -> (r: Option<RateLimitStatus>)
        requires
            self.wf(),
        ensures
            r == self.rate_limits@.get(address),
    {
        match self.rate_limits.get(&address) {
            Some(s) => Some(*s),
            None => None,
        }
    }

    /// Sets the rate limit status for an address.
    pub fn set_rate_limit_status(&mut self, address: Address, status: RateLimitStatus)
        requires
            old(self).wf(),
        ensures
            final(self).wf(),
            *final(self) == (Tipz { rate_limits: final(self).rate_limits, ..*old(self) }),
            final(self).rate_limits@ == old(self).rate_limits@.insert(address, status),
    {
        self.rate_limits.insert(address, status);
    }

    // ── refund configuration and requests ──

    /// Get refund configuration (defaults: 24h request window, 48h response
    /// window, 2% non-refundable fee).
    pub fn get_refund_config(&self) -> (r: RefundConfig)
        ensures
            r == self.spec_refund_config(),
    {
        match self.refund_config {
            Some(c) => c,
            None => RefundConfig {
                request_window_secs: DEFAULT_REFUND_REQUEST_WINDOW_SECS,
                response_window_secs: DEFAULT_REFUND_RESPONSE_WINDOW_SECS,
                non_refundable_fee_bps: DEFAULT_NON_REFUNDABLE_FEE_BPS,
            },
        }
    }

    /// Set refund configuration.
    pub fn set_refund_config(&mut self, config: RefundConfig)
        ensures
            *final(self) == (Tipz { refund_config: Some(config), ..*old(self) }),
    {
        self.refund_config = Some(config);
    }

    /// Get refund request by tip ID.
    pub fn get_refund_request(&self, tip_id: u32) -> (r: Option<RefundRequest>)
        requires
            self.wf(),
        ensures
            r == self.refund_requests@.get(tip_id),
    {
        match self.refund_requests.get(&tip_id) {
            Some(r) => Some(*r),
            None => None,
        }
    }

    /// Store a refund request under its tip ID.
    pub fn set_refund_request(&mut self, request: RefundRequest)
        requires
            old(self).wf(),
        ensures
            final(self).wf(),
            *final(self) == (Tipz { refund_requests: final(self).refund_requests, ..*old(self) }),
            final(self).refund_requests@ == old(self).refund_requests@.insert(request.tip_id, request),
    {
        self.refund_requests.insert(request.tip_id, request);
    }

    /// Remove the refund request of a tip.
    pub fn remove_refund_request(&mut self, tip_id: u32)
        requires
            old(self).wf(),
        ensures
            final(self).wf(),
            *final(self) == (Tipz { refund_requests: final(self).refund_requests, ..*old(self) }),
            final(self).refund_requests@ == old(self).refund_requests@.remove(tip_id),
    {
        self.refund_requests.remove(&tip_id);
    }
}

/// `a + b`, clamped to the range of `i128`.
pub open spec fn sat_add(a: i128, b: i128) -> i128 {
    if a + b > i128::MAX {
        i128::MAX
    } else if a + b < i128::MIN {
        i128::MIN
    } else {
        (a + b) as i128
    }
}

/// `a - b`, clamped to the range of `i128`.
pub open spec fn sat_sub(a: i128, b: i128) -> i128 {
    if a - b > i128::MAX {
        i128::MAX
    } else if a - b < i128::MIN {
        i128::MIN
    } else {
        (a - b) as i128
    }
}

/// Saturating addition of two `i128`.
pub fn saturating_add_i128(a: i128, b: i128) -> (r: i128)
    ensures
        r == sat_add(a, b),
{
    if b > 0 && a > i128::MAX - b {
        i128::MAX
    } else if b < 0 && a < i128::MIN - b {
        i128::MIN
    } else {
        a + b
    }
}

/// Saturating subtraction of two `i128`.
pub fn saturating_sub_i128(a: i128, b: i128) -> (r: i128)
    ensures
        r == sat_sub(a, b),
{
    if b < 0 && a > i128::MAX + b {
        i128::MAX
    } else if b > 0 && a < i128::MIN + b {
        i128::MIN
    } else {
        a - b
    }
}

impl Tipz {
    // ── profiles ──

    /// Returns `true` if `address` has a registered profile.
    pub fn has_profile(&self, address: Address) -> (r: bool)
        requires
            self.wf(),
        ensures
            r == self.profiles@.contains_key(address),
    {
        self.profiles.contains_key(&address)
    }

    /// Returns the profile for `address`.
    pub fn get_profile(&self, address: Address) -> (r: &Profile)
        requires
            self.wf(),
            self.profiles@.contains_key(address),
        ensures
            *r == self.profiles@[address],
    {
        self.profiles.get(&address).unwrap()
    }

    /// Returns the profile for `address`, or `None` when absent.
    pub fn get_profile_opt(&self, address: Address) -> (r: Option<&Profile>)
        requires
            self.wf(),
        ensures
            match r {
                Some(p) => self.profiles@.contains_key(address) && *p == self.profiles@[address],
                None => !self.profiles@.contains_key(address),
            },
    {
        self.profiles.get(&address)
    }

    /// Persists (creates or updates) a profile, keyed by `profile.owner`.
    pub fn set_profile(&mut self, profile: Profile)
        requires
            old(self).wf(),
        ensures
            final(self).wf(),
            *final(self) == (Tipz { profiles: final(self).profiles, ..*old(self) }),
            final(self).profiles@ == old(self).profiles@.insert(profile.owner, profile),
    {
        self.profiles.insert(profile.owner, profile);
    }

    /// Remove a profile.
    pub fn remove_profile(&mut self, address: Address)
        requires
            old(self).wf(),
        ensures
            final(self).wf(),
            *final(self) == (Tipz { profiles: final(self).profiles, ..*old(self) }),
            final(self).profiles@ == old(self).profiles@.remove(address),
    {
        self.profiles.remove(&address);
    }

    /// Remove a username reverse-lookup entry.
    pub fn remove_username_address(&mut self, username: &Vec<u8>)
        requires
            old(self).wf(),
        ensures
            final(self).wf(),
            *final(self) == (Tipz { usernames: final(self).usernames, ..*old(self) }),
            final(self).usernames@ == old(self).usernames@.remove(username@),
    {
        self.usernames.remove(username);
    }

    /// Returns the address associated with `username`, or `None` if not taken.
    pub fn get_username_address(&self, username: &Vec<u8>) -> (r: Option<Address>)
        requires
            self.wf(),
        ensures
            r == self.usernames@.get(username@),
    {
        match self.usernames.get(username) {
            Some(a) => Some(*a),
            None => None,
        }
    }

    /// Stores the `username → address` reverse-lookup entry.
    pub fn set_username_address(&mut self, username: &Vec<u8>, address: Address)
        requires
            old(self).wf(),
        ensures
            final(self).wf(),
            *final(self) == (Tipz { usernames: final(self).usernames, ..*old(self) }),
            final(self).usernames@ == old(self).usernames@.insert(username@, address),
    {
        self.usernames.insert(copy_bytes(username), address);
    }

    /// A profile is active only when both the profile and its username
    /// reverse-lookup entry are present.
    pub open spec fn spec_profile_active(&self, address: Address) -> bool {
        &&& self.profiles@.contains_key(address)
        &&& self.usernames@.contains_key(self.profiles@[address].username@)
    }

    /// Returns `true` only when both the profile and its username
    /// reverse-lookup entry exist.
    pub fn is_profile_active(&self, address: Address) -> (r: bool)
        requires
            self.wf(),
        ensures
            r == self.spec_profile_active(address),
    {
        match self.profiles.get(&address) {
            Some(profile) => self.usernames.contains_key(&profile.username),
            None => false,
        }
    }

    /// The minimum tip a creator accepts: their override when set, else the
    /// global minimum.
    pub open spec fn spec_effective_min_tip(&self, creator: Address) -> i128 {
        match self.profiles@.get(creator) {
            Some(p) => match p.custom_min_tip {
                Some(m) => m,
                None => self.spec_min_tip_amount(),
            },
            None => self.spec_min_tip_amount(),
        }
    }

    /// The creator's own minimum tip, if they set one.
    pub open spec fn spec_min_tip_override(&self, creator: Address) -> Option<i128> {
        match self.profiles@.get(creator) {
            Some(p) => p.custom_min_tip,
            None => None,
        }
    }

    /// Returns the effective minimum tip for a creator (custom override or global default).
    pub fn get_effective_creator_min_tip(&self, creator: Address) -> (r: i128)
        requires
            self.wf(),
        ensures
            r == self.spec_effective_min_tip(creator),
    {
        if let Some(profile) = self.profiles.get(&creator) {
            if let Some(custom) = profile.custom_min_tip {
                return custom;
            }
        }
        self.get_min_tip_amount()
    }

    /// Returns a creator's custom minimum tip override, if set.
    pub fn get_creator_min_tip_override(&self, creator: Address) -> (r: Option<i128>)
        requires
            self.wf(),
        ensures
            r == self.spec_min_tip_override(creator),
    {
        match self.profiles.get(&creator) {
            Some(p) => p.custom_min_tip,
            None => None,
        }
    }

    // ── profile deactivation ──

    /// `true` when the creator profile is deactivated.
    pub fn is_profile_deactivated(&self, address: Address) -> (r: bool)
        requires
            self.wf(),
        ensures
            r == self.deactivated_at@.contains_key(address),
    {
        self.deactivated_at.contains_key(&address)
    }

    /// Timestamp when the profile was deactivated, if deactivated.
    pub fn get_profile_deactivated_at(&self, address: Address) -> (r: Option<u64>)
        requires
            self.wf(),
        ensures
            r == self.deactivated_at@.get(address),
    {
        match self.deactivated_at.get(&address) {
            Some(t) => Some(*t),
            None => None,
        }
    }

    /// Marks the profile as deactivated at `at`.
    pub fn set_profile_deactivated_at(&mut self, address: Address, at: u64)
        requires
            old(self).wf(),
        ensures
            final(self).wf(),
            *final(self) == (Tipz { deactivated_at: final(self).deactivated_at, ..*old(self) }),
            final(self).deactivated_at@ == old(self).deactivated_at@.insert(address, at),
    {
        self.deactivated_at.insert(address, at);
    }

    /// Clears the deactivation mark of a profile.
    pub fn clear_profile_deactivation(&mut self, address: Address)
        requires
            old(self).wf(),
        ensures
            final(self).wf(),
            *final(self) == (Tipz { deactivated_at: final(self).deactivated_at, ..*old(self) }),
            final(self).deactivated_at@ == old(self).deactivated_at@.remove(address),
    {
        if self.deactivated_at.contains_key(&address) {
            self.deactivated_at.remove(&address);
        } else {
            assert(self.deactivated_at@ =~= old(self).deactivated_at@.remove(address));
        }
    }

    // ── tip counter and send-tip counters ──

    /// Returns the current global tip count (also the index of the next tip).
    pub fn get_tip_count(&self) -> (r: u32)
        ensures
            r == or_default(self.tip_count, 0),
    {
        match self.tip_count {
            Some(c) => c,
            None => 0,
        }
    }

    /// Reads the current tip count, increments it in storage, and returns the
    /// pre-increment value (the index to assign to the new tip).
    pub fn increment_tip_count(&mut self) -> (r: u32)
        requires
            or_default(old(self).tip_count, 0) < u32::MAX,
        ensures
            r == or_default(old(self).tip_count, 0),
            *final(self) == (Tipz {
                tip_count: Some((r + 1) as u32),
                send_tip_state: match old(self).send_tip_state {
                    Some(st) => Some(SendTipState { tip_count: (r + 1) as u32, ..st }),
                    None => None,
                },
                ..*old(self)
            }),
    {
        let count = self.get_tip_count();
        self.tip_count = Some(count + 1);
        if let Some(mut state) = self.send_tip_state {
            state.tip_count = count + 1;
            self.send_tip_state = Some(state);
        }
        count
    }

    /// The cached send-tip counters, if any.
    pub fn get_send_tip_state(&self) -> (r: Option<SendTipState>)
        ensures
            r == self.send_tip_state,
    {
        self.send_tip_state
    }

    /// Stores the send-tip counters cache.
    pub fn set_send_tip_state(&mut self, state: SendTipState)
        ensures
            *final(self) == (Tipz { send_tip_state: Some(state), ..*old(self) }),
    {
        self.send_tip_state = Some(state);
    }

    /// The send-tip counters: the cache when present, else built from the
    /// individual counters.
    pub open spec fn spec_send_tip_state(&self) -> SendTipState {
        match self.send_tip_state {
            Some(st) => st,
            None => SendTipState {
                tip_count: or_default(self.tip_count, 0),
                total_tips_volume: or_default(self.total_tips_volume, 0),
                stats_window_start: or_default(self.stats_window_start, 0),
                tips_last_24h: or_default(self.tips_last_24h, 0),
                volume_last_24h: or_default(self.volume_last_24h, 0),
                active_creators_30d: or_default(self.active_creators_30d, 0),
            },
        }
    }

    /// Law: in a well-formed ledger the tip count and lifetime volume read
    /// the same from the cache and from their own entries.
    pub proof fn lemma_counters_agree(&self)
        requires
            self.wf(),
        ensures
            self.spec_send_tip_state().tip_count == or_default(self.tip_count, 0),
            self.spec_send_tip_state().total_tips_volume == or_default(self.total_tips_volume, 0),
    {
    }

    /// The send-tip counters: the cache when present, else built from the
    /// individual counters.
    pub fn get_or_build_send_tip_state(&self) -> (r: SendTipState)
        ensures
            r == self.spec_send_tip_state(),
    {
        match self.send_tip_state {
            Some(st) => st,
            None => SendTipState {
                tip_count: self.get_tip_count(),
                total_tips_volume: self.get_total_tips_volume(),
                stats_window_start: self.get_stats_window_start(),
                tips_last_24h: self.get_tips_last_24h(),
                volume_last_24h: self.get_volume_last_24h(),
                active_creators_30d: self.get_active_creators_30d(),
            },
        }
    }

    /// Writes the send-tip counters to the cache and to every individual counter.
    pub fn apply_send_tip_state(&mut self, state: SendTipState)
        ensures
            *final(self) == (Tipz {
                send_tip_state: Some(state),
                tip_count: Some(state.tip_count),
                total_tips_volume: Some(state.total_tips_volume),
                stats_window_start: Some(state.stats_window_start),
                tips_last_24h: Some(state.tips_last_24h),
                volume_last_24h: Some(state.volume_last_24h),
                active_creators_30d: Some(state.active_creators_30d),
                ..*old(self)
            }),
    {
        self.send_tip_state = Some(state);
        self.tip_count = Some(state.tip_count);
        self.total_tips_volume = Some(state.total_tips_volume);
        self.stats_window_start = Some(state.stats_window_start);
        self.tips_last_24h = Some(state.tips_last_24h);
        self.volume_last_24h = Some(state.volume_last_24h);
        self.active_creators_30d = Some(state.active_creators_30d);
    }

    // ── per-tipper and per-creator tip indexes ──

    /// Number of tips indexed for `tipper`.
    pub open spec fn spec_tipper_tip_count(&self, tipper: Address) -> u32 {
        or_default(self.tipper_tip_count@.get(tipper), 0)
    }

    /// Number of tips indexed for `creator`.
    pub open spec fn spec_creator_tip_count(&self, creator: Address) -> u32 {
        or_default(self.creator_tip_count@.get(creator), 0)
    }

    /// Returns the number of tips sent by `tipper`.
    pub fn get_tipper_tip_count(&self, tipper: Address) -> (r: u32)
        requires
            self.wf(),
        ensures
            r == self.spec_tipper_tip_count(tipper),
    {
        match self.tipper_tip_count.get(&tipper) {
            Some(c) => *c,
            None => 0,
        }
    }

    /// Records a new tip ID for `tipper` and bumps the per-tipper count.
    pub fn add_tipper_tip(&mut self, tipper: Address, tip_id: u32)
        requires
            old(self).wf(),
            old(self).spec_tipper_tip_count(tipper) < u32::MAX,
        ensures
            final(self).wf(),
            *final(self) == (Tipz {
                tipper_tips: final(self).tipper_tips,
                tipper_tip_count: final(self).tipper_tip_count,
                ..*old(self)
            }),
            final(self).tipper_tips@ == old(self).tipper_tips@.insert(
                (tipper, old(self).spec_tipper_tip_count(tipper)),
                tip_id,
            ),
            final(self).tipper_tip_count@ == old(self).tipper_tip_count@.insert(
                tipper,
                (old(self).spec_tipper_tip_count(tipper) + 1) as u32,
            ),
    {
        let local_index = self.get_tipper_tip_count(tipper);
        self.tipper_tips.insert((tipper, local_index), tip_id);
        self.tipper_tip_count.insert(tipper, local_index + 1);
    }

    /// Returns the number of tips received by `creator`.
    pub fn get_creator_tip_count(&self, creator: Address) -> (r: u32)
        requires
            self.wf(),
        ensures
            r == self.spec_creator_tip_count(creator),
    {
        match self.creator_tip_count.get(&creator) {
            Some(c) => *c,
            None => 0,
        }
    }

    /// Records a new tip ID for `creator` and bumps the per-creator count.
    pub fn add_creator_tip(&mut self, creator: Address, tip_id: u32)
        requires
            old(self).wf(),
            old(self).spec_creator_tip_count(creator) < u32::MAX,
        ensures
            final(self).wf(),
            *final(self) == (Tipz {
                creator_tips: final(self).creator_tips,
                creator_tip_count: final(self).creator_tip_count,
                ..*old(self)
            }),
            final(self).creator_tips@ == old(self).creator_tips@.insert(
                (creator, old(self).spec_creator_tip_count(creator)),
                tip_id,
            ),
            final(self).creator_tip_count@ == old(self).creator_tip_count@.insert(
                creator,
                (old(self).spec_creator_tip_count(creator) + 1) as u32,
            ),
    {
        let local_index = self.get_creator_tip_count(creator);
        self.creator_tips.insert((creator, local_index), tip_id);
        self.creator_tip_count.insert(creator, local_index + 1);
    }

    /// Remove all per-creator tip index entries (the first `count` positions
    /// and the count itself).
    pub fn reset_creator_tip_index(&mut self, creator: Address)
        requires
            old(self).wf(),
        ensures
            final(self).wf(),
            *final(self) == (Tipz {
                creator_tips: final(self).creator_tips,
                creator_tip_count: final(self).creator_tip_count,
                ..*old(self)
            }),
            final(self).creator_tips@ == old(self).creator_tips@.remove_keys(
                Set::new(|k: (Address, u32)| k.0 == creator && k.1 < old(self).spec_creator_tip_count(creator)),
            ),
            final(self).creator_tip_count@ == old(self).creator_tip_count@.remove(creator),
    {
        let count = self.get_creator_tip_count(creator);
        let ghost old_tips = self.creator_tips@;
        let mut i: u32 = 0;
        while i < count
            invariant
                self.wf(),
                *self == (Tipz { creator_tips: self.creator_tips, ..*old(self) }),
                i <= count,
                self.creator_tips@ == old_tips.remove_keys(
                    Set::new(|k: (Address, u32)| k.0 == creator && k.1 < i),
                ),
            decreases count - i,
        {
            self.creator_tips.remove(&(creator, i));
            i = i + 1;
            assert(self.creator_tips@ =~= old_tips.remove_keys(
                Set::new(|k: (Address, u32)| k.0 == creator && k.1 < i),
            ));
        }
        if self.creator_tip_count.contains_key(&creator) {
            self.creator_tip_count.remove(&creator);
        } else {
            assert(self.creator_tip_count@ =~= old(self).creator_tip_count@.remove(creator));
        }
    }

    /// Remove all per-tipper tip index entries (the first `count` positions
    /// and the count itself).
    pub fn reset_tipper_tip_index(&mut self, tipper: Address)
        requires
            old(self).wf(),
        ensures
            final(self).wf(),
            *final(self) == (Tipz {
                tipper_tips: final(self).tipper_tips,
                tipper_tip_count: final(self).tipper_tip_count,
                ..*old(self)
            }),
            final(self).tipper_tips@ == old(self).tipper_tips@.remove_keys(
                Set::new(|k: (Address, u32)| k.0 == tipper && k.1 < old(self).spec_tipper_tip_count(tipper)),
            ),
            final(self).tipper_tip_count@ == old(self).tipper_tip_count@.remove(tipper),
    {
        let count = self.get_tipper_tip_count(tipper);
        let ghost old_tips = self.tipper_tips@;
        let mut i: u32 = 0;
        while i < count
            invariant
                self.wf(),
                *self == (Tipz { tipper_tips: self.tipper_tips, ..*old(self) }),
                i <= count,
                self.tipper_tips@ == old_tips.remove_keys(
                    Set::new(|k: (Address, u32)| k.0 == tipper && k.1 < i),
                ),
            decreases count - i,
        {
            self.tipper_tips.remove(&(tipper, i));
            i = i + 1;
            assert(self.tipper_tips@ =~= old_tips.remove_keys(
                Set::new(|k: (Address, u32)| k.0 == tipper && k.1 < i),
            ));
        }
        if self.tipper_tip_count.contains_key(&tipper) {
            self.tipper_tip_count.remove(&tipper);
        } else {
            assert(self.tipper_tip_count@ =~= old(self).tipper_tip_count@.remove(tipper));
        }
    }

    // ── streaks ──

    /// Return the streak record for a supporter/creator pair, if any.
    pub fn get_streak(&self, supporter: Address, creator: Address) -> (r: Option<Streak>)
        requires
            self.wf(),
        ensures
            r == self.streaks@.get((supporter, creator)),
    {
        match self.streaks.get(&(supporter, creator)) {
            Some(s) => Some(*s),
            None => None,
        }
    }

    /// Persist a streak record for its supporter/creator pair.
    pub fn set_streak(&mut self, streak: Streak)
        requires
            old(self).wf(),
        ensures
            final(self).wf(),
            *final(self) == (Tipz { streaks: final(self).streaks, ..*old(self) }),
            final(self).streaks@ == old(self).streaks@.insert((streak.supporter, streak.creator), streak),
    {
        self.streaks.insert((streak.supporter, streak.creator), streak);
    }

    /// The streak bonus accumulated for a creator; the per-creator bonus is
    /// not stored, so it is always 0.
    pub fn get_creator_streak_bonus(&self, creator: Address) -> (r: u32)
        ensures
            r == 0,
    {
        0
    }

    /// Add streak bonus points to a creator; the per-creator bonus is not
    /// stored, so nothing changes.
    pub fn add_creator_streak_bonus(&self, creator: Address, bonus: u32) {
    }

    /// Adjust a creator's streak bonus by a signed delta; the per-creator
    /// bonus is not stored, so nothing changes.
    pub fn adjust_creator_streak_bonus(&self, creator: Address, delta: i32) {
    }

    // ── creator counter ──

    /// Returns the total number of registered creators.
    pub fn get_total_creators(&self) -> (r: u32)
        ensures
            r == or_default(self.total_creators, 0),
    {
        match self.total_creators {
            Some(c) => c,
            None => 0,
        }
    }

    /// Increments the total registered creators counter by one.
    pub fn increment_total_creators(&mut self)
        requires
            or_default(old(self).total_creators, 0) < u32::MAX,
        ensures
            *final(self) == (Tipz {
                total_creators: Some((or_default(old(self).total_creators, 0) + 1) as u32),
                ..*old(self)
            }),
    {
        let total = self.get_total_creators();
        self.total_creators = Some(total + 1);
    }

    /// Decrements the total registered creators counter by one, unless it is 0.
    pub fn decrement_total_creators(&mut self)
        ensures
            *final(self) == (if or_default(old(self).total_creators, 0) > 0 {
                Tipz {
                    total_creators: Some((or_default(old(self).total_creators, 0) - 1) as u32),
                    ..*old(self)
                }
            } else {
                *old(self)
            }),
    {
        let total = self.get_total_creators();
        if total > 0 {
            self.total_creators = Some(total - 1);
        }
    }

    // ── tips volume and fees ──

    /// Returns the lifetime total tip volume in stroops.
    pub fn get_total_tips_volume(&self) -> (r: i128)
        ensures
            r == or_default(self.total_tips_volume, 0),
    {
        match self.total_tips_volume {
            Some(v) => v,
            None => 0,
        }
    }

    /// Adds `amount` stroops to the lifetime tip volume; on overflow nothing changes.
    pub fn add_to_tips_volume(&mut self, amount: i128) -> (r: Result<(), ContractError>)
        ensures
            ({
                let next = or_default(old(self).total_tips_volume, 0) + amount;
                if next > i128::MAX || next < i128::MIN {
                    r == Err::<(), ContractError>(ContractError::OverflowError) && *final(self) == *old(self)
                } else {
                    r is Ok && *final(self) == (Tipz {
                        total_tips_volume: Some(next as i128),
                        send_tip_state: match old(self).send_tip_state {
                            Some(st) => Some(SendTipState { total_tips_volume: next as i128, ..st }),
                            None => None,
                        },
                        ..*old(self)
                    })
                }
            }),
    {
        let volume = self.get_total_tips_volume();
        let next = match volume.checked_add(amount) {
            Some(n) => n,
            None => {
                return Err(ContractError::OverflowError);
            },
        };
        self.total_tips_volume = Some(next);
        if let Some(mut state) = self.send_tip_state {
            state.total_tips_volume = next;
            self.send_tip_state = Some(state);
        }
        Ok(())
    }

    /// Returns the lifetime total fees collected in stroops.
    pub fn get_total_fees(&self) -> (r: i128)
        ensures
            r == or_default(self.total_fees_collected, 0),
    {
        match self.total_fees_collected {
            Some(v) => v,
            None => 0,
        }
    }

    /// Adds `fee` stroops to the lifetime fees collected; on overflow nothing changes.
    pub fn add_to_fees(&mut self, fee: i128) -> (r: Result<(), ContractError>)
        ensures
            ({
                let next = or_default(old(self).total_fees_collected, 0) + fee;
                if next > i128::MAX || next < i128::MIN {
                    r == Err::<(), ContractError>(ContractError::OverflowError) && *final(self) == *old(self)
                } else {
                    r is Ok && *final(self) == (Tipz { total_fees_collected: Some(next as i128), ..*old(self) })
                }
            }),
    {
        let total = self.get_total_fees();
        let next = match total.checked_add(fee) {
            Some(n) => n,
            None => {
                return Err(ContractError::OverflowError);
            },
        };
        self.total_fees_collected = Some(next);
        Ok(())
    }

    // ── verification requests and donation pages ──

    /// Records a pending verification request of a creator.
    pub fn set_verification_request(&mut self, address: Address, verification_type: VerificationType)
        requires
            old(self).wf(),
        ensures
            final(self).wf(),
            *final(self) == (Tipz { verification_requests: final(self).verification_requests, ..*old(self) }),
            final(self).verification_requests@ == old(self).verification_requests@.insert(address, verification_type),
    {
        self.verification_requests.insert(address, verification_type);
    }

    /// Drops the pending verification request of a creator.
    pub fn remove_verification_request(&mut self, address: Address)
        requires
            old(self).wf(),
        ensures
            final(self).wf(),
            *final(self) == (Tipz { verification_requests: final(self).verification_requests, ..*old(self) }),
            final(self).verification_requests@ == old(self).verification_requests@.remove(address),
    {
        self.verification_requests.remove(&address);
    }

    /// The stored donation page of a creator, if any.
    pub fn get_donation_page(&self, creator: Address) -> (r: Option<&DonationPageConfig>)
        requires
            self.wf(),
        ensures
            match r {
                Some(c) => self.donation_pages@.contains_key(creator) && *c == self.donation_pages@[creator],
                None => !self.donation_pages@.contains_key(creator),
            },
    {
        self.donation_pages.get(&creator)
    }

    /// Stores the donation page of a creator.
    pub fn set_donation_page(&mut self, creator: Address, config: DonationPageConfig)
        requires
            old(self).wf(),
        ensures
            final(self).wf(),
            *final(self) == (Tipz { donation_pages: final(self).donation_pages, ..*old(self) }),
            final(self).donation_pages@ == old(self).donation_pages@.insert(creator, config),
    {
        self.donation_pages.insert(creator, config);
    }

    // ── 24-hour and 30-day statistics ──

    pub fn get_stats_window_start(&self) -> (r: u64)
        ensures
            r == or_default(self.stats_window_start, 0),
    {
        match self.stats_window_start {
            Some(v) => v,
            None => 0,
        }
    }

    pub fn set_stats_window_start(&mut self, timestamp: u64)
        ensures
            *final(self) == (Tipz {
                stats_window_start: Some(timestamp),
                send_tip_state: match old(self).send_tip_state {
                    Some(st) => Some(SendTipState { stats_window_start: timestamp, ..st }),
                    None => None,
                },
                ..*old(self)
            }),
    {
        self.stats_window_start = Some(timestamp);
        if let Some(mut state) = self.send_tip_state {
            state.stats_window_start = timestamp;
            self.send_tip_state = Some(state);
        }
    }

    pub fn get_tips_last_24h(&self) -> (r: u32)
        ensures
            r == or_default(self.tips_last_24h, 0),
    {
        match self.tips_last_24h {
            Some(v) => v,
            None => 0,
        }
    }

    pub fn set_tips_last_24h(&mut self, count: u32)
        ensures
            *final(self) == (Tipz {
                tips_last_24h: Some(count),
                send_tip_state: match old(self).send_tip_state {
                    Some(st) => Some(SendTipState { tips_last_24h: count, ..st }),
                    None => None,
                },
                ..*old(self)
            }),
    {
        self.tips_last_24h = Some(count);
        if let Some(mut state) = self.send_tip_state {
            state.tips_last_24h = count;
            self.send_tip_state = Some(state);
        }
    }

    pub fn get_volume_last_24h(&self) -> (r: i128)
        ensures
            r == or_default(self.volume_last_24h, 0),
    {
        match self.volume_last_24h {
            Some(v) => v,
            None => 0,
        }
    }

    pub fn set_volume_last_24h(&mut self, volume: i128)
        ensures
            *final(self) == (Tipz {
                volume_last_24h: Some(volume),
                send_tip_state: match old(self).send_tip_state {
                    Some(st) => Some(SendTipState { volume_last_24h: volume, ..st }),
                    None => None,
                },
                ..*old(self)
            }),
    {
        self.volume_last_24h = Some(volume);
        if let Some(mut state) = self.send_tip_state {
            state.volume_last_24h = volume;
            self.send_tip_state = Some(state);
        }
    }

    pub fn get_active_creators_30d(&self) -> (r: u32)
        ensures
            r == or_default(self.active_creators_30d, 0),
    {
        match self.active_creators_30d {
            Some(v) => v,
            None => 0,
        }
    }

    pub fn set_active_creators_30d(&mut self, count: u32)
        ensures
            *final(self) == (Tipz {
                active_creators_30d: Some(count),
                send_tip_state: match old(self).send_tip_state {
                    Some(st) => Some(SendTipState { active_creators_30d: count, ..st }),
                    None => None,
                },
                ..*old(self)
            }),
    {
        self.active_creators_30d = Some(count);
        if let Some(mut state) = self.send_tip_state {
            state.active_creators_30d = count;
            self.send_tip_state = Some(state);
        }
    }

    pub fn get_creator_last_active(&self, creator: Address) -> (r: u64)
        requires
            self.wf(),
        ensures
            r == or_default(self.creator_last_active@.get(creator), 0),
    {
        match self.creator_last_active.get(&creator) {
            Some(t) => *t,
            None => 0,
        }
    }

    pub fn set_creator_last_active(&mut self, creator: Address, timestamp: u64)
        requires
            old(self).wf(),
        ensures
            final(self).wf(),
            *final(self) == (Tipz { creator_last_active: final(self).creator_last_active, ..*old(self) }),
            final(self).creator_last_active@ == old(self).creator_last_active@.insert(creator, timestamp),
    {
        self.creator_last_active.insert(creator, timestamp);
    }

    // ── goals ──

    pub fn get_active_goal(&self, creator: Address) -> (r: Option<&Goal>)
        requires
            self.wf(),
        ensures
            match r {
                Some(g) => self.active_goals@.contains_key(creator) && *g == self.active_goals@[creator],
                None => !self.active_goals@.contains_key(creator),
            },
    {
        self.active_goals.get(&creator)
    }

    pub fn set_active_goal(&mut self, creator: Address, goal: Goal)
        requires
            old(self).wf(),
        ensures
            final(self).wf(),
            *final(self) == (Tipz { active_goals: final(self).active_goals, ..*old(self) }),
            final(self).active_goals@ == old(self).active_goals@.insert(creator, goal),
    {
        self.active_goals.insert(creator, goal);
    }

    /// The archived goals of a creator (`None` when none were ever archived).
    pub fn get_archived_goals(&self, creator: Address) -> (r: Option<&Vec<Goal>>)
        requires
            self.wf(),
        ensures
            match r {
                Some(g) => self.archived_goals@.contains_key(creator) && *g == self.archived_goals@[creator],
                None => !self.archived_goals@.contains_key(creator),
            },
    {
        self.archived_goals.get(&creator)
    }

    pub fn set_archived_goals(&mut self, creator: Address, goals: Vec<Goal>)
        requires
            old(self).wf(),
        ensures
            final(self).wf(),
            *final(self) == (Tipz { archived_goals: final(self).archived_goals, ..*old(self) }),
            final(self).archived_goals@ == old(self).archived_goals@.insert(creator, goals),
    {
        self.archived_goals.insert(creator, goals);
    }

    // ── multi-token support ──

    pub fn get_accepted_token(&self, token: Address) -> (r: Option<AcceptedToken>)
        requires
            self.wf(),
        ensures
            r == self.accepted_tokens@.get(token),
    {
        match self.accepted_tokens.get(&token) {
            Some(t) => Some(*t),
            None => None,
        }
    }

    pub fn set_accepted_token(&mut self, token: Address, config: AcceptedToken)
        requires
            old(self).wf(),
        ensures
            final(self).wf(),
            *final(self) == (Tipz { accepted_tokens: final(self).accepted_tokens, ..*old(self) }),
            final(self).accepted_tokens@ == old(self).accepted_tokens@.insert(token, config),
    {
        self.accepted_tokens.insert(token, config);
    }

    /// The list of accepted token addresses (empty when never set).
    pub fn get_accepted_token_list(&self) -> (r: Vec<Address>)
        ensures
            r@ == (match self.accepted_token_list {
                Some(l) => l@,
                None => Seq::<Address>::empty(),
            }),
    {
        match &self.accepted_token_list {
            Some(l) => copy_vec(l),
            None => Vec::new(),
        }
    }

    pub fn set_accepted_token_list(&mut self, tokens: Vec<Address>)
        ensures
            *final(self) == (Tipz { accepted_token_list: Some(tokens), ..*old(self) }),
    {
        self.accepted_token_list = Some(tokens);
    }

    /// The balance of `creator` in `token` (0 when none was recorded).
    pub open spec fn spec_token_balance(&self, creator: Address, token: Address) -> i128 {
        or_default(self.token_balances@.get((creator, token)), 0)
    }

    pub fn get_token_balance(&self, creator: Address, token: Address) -> (r: i128)
        requires
            self.wf(),
        ensures
            r == self.spec_token_balance(creator, token),
    {
        match self.token_balances.get(&(creator, token)) {
            Some(b) => *b,
            None => 0,
        }
    }

    pub fn set_token_balance(&mut self, creator: Address, token: Address, amount: i128)
        requires
            old(self).wf(),
        ensures
            final(self).wf(),
            *final(self) == (Tipz { token_balances: final(self).token_balances, ..*old(self) }),
            final(self).token_balances@ == old(self).token_balances@.insert((creator, token), amount),
    {
        self.token_balances.insert((creator, token), amount);
    }

    /// Adds `amount` to a creator's token balance and returns the new
    /// balance; on overflow nothing changes.
    pub fn add_token_balance(&mut self, creator: Address, token: Address, amount: i128) -> (r: Result<i128, ContractError>)
        requires
            old(self).wf(),
        ensures
            final(self).wf(),
            ({
                let next = old(self).spec_token_balance(creator, token) + amount;
                if next > i128::MAX || next < i128::MIN {
                    r == Err::<i128, ContractError>(ContractError::OverflowError) && *final(self) == *old(self)
                } else {
                    &&& r == Ok::<i128, ContractError>(next as i128)
                    &&& *final(self) == (Tipz { token_balances: final(self).token_balances, ..*old(self) })
                    &&& final(self).token_balances@ == old(self).token_balances@.insert((creator, token), next as i128)
                }
            }),
    {
        let current = self.get_token_balance(creator, token);
        let new_balance = match current.checked_add(amount) {
            Some(n) => n,
            None => {
                return Err(ContractError::OverflowError);
            },
        };
        self.set_token_balance(creator, token, new_balance);
        Ok(new_balance)
    }
}

/// The entries of an optional stored leaderboard (empty when absent).
pub open spec fn legacy_board(o: Option<Vec<LeaderboardEntry>>) -> Seq<EntryView> {
    match o {
        Some(v) => board_of(v@),
        None => Seq::empty(),
    }
}

/// The leaderboard of `period` in a cached set.
pub open spec fn set_board(s: LeaderboardSet, period: LeaderboardPeriod) -> Seq<EntryView> {
    match period {
        LeaderboardPeriod::AllTime => board_of(s.all_time@),
        LeaderboardPeriod::Monthly => board_of(s.monthly@),
        LeaderboardPeriod::Weekly => board_of(s.weekly@),
    }
}

/// Two cached sets hold the same leaderboards and reset times.
pub open spec fn same_set(a: LeaderboardSet, b: LeaderboardSet) -> bool {
    &&& board_of(a.all_time@) == board_of(b.all_time@)
    &&& board_of(a.monthly@) == board_of(b.monthly@)
    &&& board_of(a.weekly@) == board_of(b.weekly@)
    &&& a.monthly_reset_at == b.monthly_reset_at
    &&& a.weekly_reset_at == b.weekly_reset_at
}

/// A copy of a stored leaderboard (an empty one when absent).
fn copy_board(o: &Option<Vec<LeaderboardEntry>>) -> (r: Vec<LeaderboardEntry>)
    ensures
        board_of(r@) == legacy_board(*o),
{
    match o {
        Some(v) => top_entries(v, 0),
        None => {
            let r: Vec<LeaderboardEntry> = Vec::new();
            assert(board_of(r@) =~= Seq::<EntryView>::empty());
            r
        },
    }
}

/// A copy of a cached set.
pub fn copy_set(s: &LeaderboardSet) -> (r: LeaderboardSet)
    ensures
        same_set(r, *s),
{
    LeaderboardSet {
        all_time: top_entries(&s.all_time, 0),
        monthly: top_entries(&s.monthly, 0),
        weekly: top_entries(&s.weekly, 0),
        monthly_reset_at: s.monthly_reset_at,
        weekly_reset_at: s.weekly_reset_at,
    }
}

impl Tipz {
    // ── leaderboards ──

    /// The leaderboard of `period` as read (cache first, empty when unset).
    pub open spec fn spec_leaderboard(&self, period: LeaderboardPeriod) -> Seq<EntryView> {
        match self.leaderboard_set {
            Some(s) => set_board(s, period),
            None => match period {
                LeaderboardPeriod::AllTime => legacy_board(self.leaderboard_all_time),
                LeaderboardPeriod::Monthly => legacy_board(self.leaderboard_monthly),
                LeaderboardPeriod::Weekly => legacy_board(self.leaderboard_weekly),
            },
        }
    }

    /// The time the leaderboard of `period` was last reset (0 when never;
    /// always 0 for the all-time board once the cache exists).
    pub open spec fn spec_last_reset(&self, period: LeaderboardPeriod) -> u64 {
        match self.leaderboard_set {
            Some(s) => match period {
                LeaderboardPeriod::AllTime => 0,
                LeaderboardPeriod::Monthly => s.monthly_reset_at,
                LeaderboardPeriod::Weekly => s.weekly_reset_at,
            },
            None => match period {
                LeaderboardPeriod::AllTime => or_default(self.last_reset_all_time, 0),
                LeaderboardPeriod::Monthly => or_default(self.last_reset_monthly, 0),
                LeaderboardPeriod::Weekly => or_default(self.last_reset_weekly, 0),
            },
        }
    }

    /// Returns the leaderboard for a specific period.
    pub fn get_leaderboard(&self, period: LeaderboardPeriod) -> (r: Vec<LeaderboardEntry>)
        ensures
            board_of(r@) == self.spec_leaderboard(period),
    {
        match &self.leaderboard_set {
            Some(boards) => match period {
                LeaderboardPeriod::AllTime => top_entries(&boards.all_time, 0),
                LeaderboardPeriod::Monthly => top_entries(&boards.monthly, 0),
                LeaderboardPeriod::Weekly => top_entries(&boards.weekly, 0),
            },
            None => self.get_legacy_leaderboard(period),
        }
    }

    fn get_legacy_leaderboard(&self, period: LeaderboardPeriod) -> (r: Vec<LeaderboardEntry>)
        ensures
            board_of(r@) == match period {
                LeaderboardPeriod::AllTime => legacy_board(self.leaderboard_all_time),
                LeaderboardPeriod::Monthly => legacy_board(self.leaderboard_monthly),
                LeaderboardPeriod::Weekly => legacy_board(self.leaderboard_weekly),
            },
    {
        match period {
            LeaderboardPeriod::AllTime => copy_board(&self.leaderboard_all_time),
            LeaderboardPeriod::Monthly => copy_board(&self.leaderboard_monthly),
            LeaderboardPeriod::Weekly => copy_board(&self.leaderboard_weekly),
        }
    }

    /// The cached set of leaderboards, if any.
    pub fn get_leaderboard_set(&self) -> (r: Option<&LeaderboardSet>)
        ensures
            match r {
                Some(b) => self.leaderboard_set == Some(*b),
                None => self.leaderboard_set is None,
            },
    {
        match &self.leaderboard_set {
            Some(b) => Some(b),
            None => None,
        }
    }

    /// Stores the cached set and writes every board and the monthly and
    /// weekly reset times to their individual entries too.
    pub fn set_leaderboard_set(&mut self, boards: LeaderboardSet)
        requires
            old(self).wf(),
            set_wf(Some(boards)),
        ensures
            final(self).wf(),
            *final(self) == (Tipz {
                leaderboard_set: Some(boards),
                leaderboard_all_time: final(self).leaderboard_all_time,
                leaderboard_monthly: final(self).leaderboard_monthly,
                leaderboard_weekly: final(self).leaderboard_weekly,
                last_reset_monthly: Some(boards.monthly_reset_at),
                last_reset_weekly: Some(boards.weekly_reset_at),
                ..*old(self)
            }),
            legacy_board(final(self).leaderboard_all_time) == board_of(boards.all_time@),
            legacy_board(final(self).leaderboard_monthly) == board_of(boards.monthly@),
            legacy_board(final(self).leaderboard_weekly) == board_of(boards.weekly@),
            final(self).leaderboard_all_time is Some,
            final(self).leaderboard_monthly is Some,
            final(self).leaderboard_weekly is Some,
    {
        self.leaderboard_all_time = Some(top_entries(&boards.all_time, 0));
        self.leaderboard_monthly = Some(top_entries(&boards.monthly, 0));
        self.leaderboard_weekly = Some(top_entries(&boards.weekly, 0));
        self.last_reset_monthly = Some(boards.monthly_reset_at);
        self.last_reset_weekly = Some(boards.weekly_reset_at);
        self.leaderboard_set = Some(boards);
    }

    /// The cached set, or one built from the individual entries.
    pub fn get_or_build_leaderboard_set(&self) -> (r: LeaderboardSet)
        requires
            self.wf(),
        ensures
            set_wf(Some(r)),
            forall|p: LeaderboardPeriod| #[trigger] set_board(r, p) == self.spec_leaderboard(p),
            r.monthly_reset_at == self.spec_last_reset(LeaderboardPeriod::Monthly),
            r.weekly_reset_at == self.spec_last_reset(LeaderboardPeriod::Weekly),
    {
        match &self.leaderboard_set {
            Some(b) => copy_set(b),
            None => LeaderboardSet {
                all_time: self.get_legacy_leaderboard(LeaderboardPeriod::AllTime),
                monthly: self.get_legacy_leaderboard(LeaderboardPeriod::Monthly),
                weekly: self.get_legacy_leaderboard(LeaderboardPeriod::Weekly),
                monthly_reset_at: self.get_last_leaderboard_reset(LeaderboardPeriod::Monthly),
                weekly_reset_at: self.get_last_leaderboard_reset(LeaderboardPeriod::Weekly),
            },
        }
    }

    /// Sets the leaderboard for a specific period.
    pub fn set_leaderboard(&mut self, period: LeaderboardPeriod, leaderboard: &Vec<LeaderboardEntry>)
        requires
            old(self).wf(),
            board_wf(board_of(leaderboard@)),
        ensures
            final(self).wf(),
            *final(self) == (Tipz {
                leaderboard_set: final(self).leaderboard_set,
                leaderboard_all_time: final(self).leaderboard_all_time,
                leaderboard_monthly: final(self).leaderboard_monthly,
                leaderboard_weekly: final(self).leaderboard_weekly,
                last_reset_monthly: final(self).last_reset_monthly,
                last_reset_weekly: final(self).last_reset_weekly,
                ..*old(self)
            }),
            final(self).leaderboard_set is Some,
            final(self).spec_leaderboard(period) == board_of(leaderboard@),
            forall|q: LeaderboardPeriod| q != period ==> #[trigger] final(self).spec_leaderboard(q) == old(self).spec_leaderboard(q),
            final(self).spec_last_reset(LeaderboardPeriod::Monthly) == old(self).spec_last_reset(LeaderboardPeriod::Monthly),
            final(self).spec_last_reset(LeaderboardPeriod::Weekly) == old(self).spec_last_reset(LeaderboardPeriod::Weekly),
    {
        let ghost pre = *self;
        match period {
            LeaderboardPeriod::AllTime => {
                self.leaderboard_all_time = Some(top_entries(leaderboard, 0));
            },
            LeaderboardPeriod::Monthly => {
                self.leaderboard_monthly = Some(top_entries(leaderboard, 0));
            },
            LeaderboardPeriod::Weekly => {
                self.leaderboard_weekly = Some(top_entries(leaderboard, 0));
            },
        }
        let mut boards = self.get_or_build_leaderboard_set();
        let ghost b0 = boards;
        let ghost mid = *self;
        assert(forall|q: LeaderboardPeriod| q != period ==> #[trigger] mid.spec_leaderboard(q) == pre.spec_leaderboard(q));
        match period {
            LeaderboardPeriod::AllTime => boards.all_time = top_entries(leaderboard, 0),
            LeaderboardPeriod::Monthly => boards.monthly = top_entries(leaderboard, 0),
            LeaderboardPeriod::Weekly => boards.weekly = top_entries(leaderboard, 0),
        }
        let ghost b = boards;
        assert forall|q: LeaderboardPeriod| q != period implies #[trigger] set_board(b, q) == pre.spec_leaderboard(q) by {
            assert(set_board(b, q) == set_board(b0, q));
            assert(set_board(b0, q) == mid.spec_leaderboard(q));
        }
        self.set_leaderboard_set(boards);
        assert(forall|q: LeaderboardPeriod| #[trigger] self.spec_leaderboard(q) == set_board(b, q));
    }

    /// Returns the timestamp of the last reset for a specific period.
    pub fn get_last_leaderboard_reset(&self, period: LeaderboardPeriod) -> (r: u64)
        ensures
            r == self.spec_last_reset(period),
    {
        match &self.leaderboard_set {
            Some(boards) => match period {
                LeaderboardPeriod::AllTime => 0,
                LeaderboardPeriod::Monthly => boards.monthly_reset_at,
                LeaderboardPeriod::Weekly => boards.weekly_reset_at,
            },
            None => match period {
                LeaderboardPeriod::AllTime => match self.last_reset_all_time {
                    Some(t) => t,
                    None => 0,
                },
                LeaderboardPeriod::Monthly => match self.last_reset_monthly {
                    Some(t) => t,
                    None => 0,
                },
                LeaderboardPeriod::Weekly => match self.last_reset_weekly {
                    Some(t) => t,
                    None => 0,
                },
            },
        }
    }

    /// Sets the timestamp of the last reset for a specific period.
    pub fn set_last_leaderboard_reset(&mut self, period: LeaderboardPeriod, at: u64)
        requires
            old(self).wf(),
        ensures
            final(self).wf(),
            *final(self) == (Tipz {
                leaderboard_set: final(self).leaderboard_set,
                leaderboard_all_time: final(self).leaderboard_all_time,
                leaderboard_monthly: final(self).leaderboard_monthly,
                leaderboard_weekly: final(self).leaderboard_weekly,
                last_reset_all_time: final(self).last_reset_all_time,
                last_reset_monthly: final(self).last_reset_monthly,
                last_reset_weekly: final(self).last_reset_weekly,
                ..*old(self)
            }),
            (final(self).leaderboard_set is Some) == (old(self).leaderboard_set is Some),
            forall|q: LeaderboardPeriod| #[trigger] final(self).spec_leaderboard(q) == old(self).spec_leaderboard(q),
            period != LeaderboardPeriod::AllTime ==> final(self).spec_last_reset(period) == at,
            period == LeaderboardPeriod::AllTime ==> final(self).spec_last_reset(period) == (
                if old(self).leaderboard_set is Some { 0 } else { at }),
            forall|q: LeaderboardPeriod| q != period ==> #[trigger] final(self).spec_last_reset(q) == old(self).spec_last_reset(q),
    {
        match period {
            LeaderboardPeriod::AllTime => self.last_reset_all_time = Some(at),
            LeaderboardPeriod::Monthly => self.last_reset_monthly = Some(at),
            LeaderboardPeriod::Weekly => self.last_reset_weekly = Some(at),
        }
        if let Some(boards) = &self.leaderboard_set {
            let mut b = copy_set(boards);
            match period {
                LeaderboardPeriod::AllTime => {},
                LeaderboardPeriod::Monthly => b.monthly_reset_at = at,
                LeaderboardPeriod::Weekly => b.weekly_reset_at = at,
            }
            let ghost bb = b;
            self.set_leaderboard_set(b);
            assert(forall|q: LeaderboardPeriod| #[trigger] self.spec_leaderboard(q) == set_board(bb, q));
        }
    }

    // ── per-period tip volume of creators ──

    /// The volume a creator received in the current `period` (0 when none).
    pub open spec fn spec_period_volume(&self, creator: Address, period: LeaderboardPeriod) -> i128 {
        or_default(self.creator_period_volume@.get((creator, period, self.spec_last_reset(period))), 0)
    }

    /// Returns the tip volume received by a creator during the current period.
    pub fn get_creator_period_volume(&self, creator: Address, period: LeaderboardPeriod) -> (r: i128)
        requires
            self.wf(),
        ensures
            r == self.spec_period_volume(creator, period),
    {
        let start_at = self.get_last_leaderboard_reset(period);
        match self.creator_period_volume.get(&(creator, period, start_at)) {
            Some(v) => *v,
            None => 0,
        }
    }

    /// Adds `amount` (saturating) to a creator's volume for the current
    /// period and returns the new volume.
    pub fn add_creator_period_volume(&mut self, creator: Address, period: LeaderboardPeriod, amount: i128) -> (r: i128)
        requires
            old(self).wf(),
        ensures
            final(self).wf(),
            r == sat_add(old(self).spec_period_volume(creator, period), amount),
            *final(self) == (Tipz { creator_period_volume: final(self).creator_period_volume, ..*old(self) }),
            final(self).creator_period_volume@ == old(self).creator_period_volume@.insert(
                (creator, period, old(self).spec_last_reset(period)),
                r,
            ),
    {
        let start_at = self.get_last_leaderboard_reset(period);
        let current = self.get_creator_period_volume(creator, period);
        let next = saturating_add_i128(current, amount);
        self.creator_period_volume.insert((creator, period, start_at), next);
        next
    }

    /// The cached period volumes of a creator, if any.
    pub fn get_creator_period_volumes(&self, creator: Address) -> (r: Option<CreatorPeriodVolumes>)
        requires
            self.wf(),
        ensures
            r == self.creator_period_volumes@.get(creator),
    {
        match self.creator_period_volumes.get(&creator) {
            Some(v) => Some(*v),
            None => None,
        }
    }

    /// Stores the cached period volumes of a creator and the matching
    /// individual monthly and weekly entries.
    pub fn set_creator_period_volumes(&mut self, creator: Address, volumes: CreatorPeriodVolumes)
        requires
            old(self).wf(),
        ensures
            final(self).wf(),
            *final(self) == (Tipz {
                creator_period_volumes: final(self).creator_period_volumes,
                creator_period_volume: final(self).creator_period_volume,
                ..*old(self)
            }),
            final(self).creator_period_volumes@ == old(self).creator_period_volumes@.insert(creator, volumes),
            final(self).creator_period_volume@ == old(self).creator_period_volume@.insert(
                (creator, LeaderboardPeriod::Monthly, volumes.monthly_start_at),
                volumes.monthly,
            ).insert((creator, LeaderboardPeriod::Weekly, volumes.weekly_start_at), volumes.weekly),
    {
        self.creator_period_volumes.insert(creator, volumes);
        self.creator_period_volume.insert((creator, LeaderboardPeriod::Monthly, volumes.monthly_start_at), volumes.monthly);
        self.creator_period_volume.insert((creator, LeaderboardPeriod::Weekly, volumes.weekly_start_at), volumes.weekly);
    }

    /// Removes a creator's volume entry for the current period.
    pub fn reset_creator_period_volume(&mut self, creator: Address, period: LeaderboardPeriod)
        requires
            old(self).wf(),
        ensures
            final(self).wf(),
            *final(self) == (Tipz { creator_period_volume: final(self).creator_period_volume, ..*old(self) }),
            final(self).creator_period_volume@ == old(self).creator_period_volume@.remove(
                (creator, period, old(self).spec_last_reset(period)),
            ),
    {
        let start_at = self.get_last_leaderboard_reset(period);
        self.creator_period_volume.remove(&(creator, period, start_at));
    }
}

/// Cached volumes after adding `amount` in periods that started at
/// `monthly_start_at` and `weekly_start_at`: a volume whose period started at
/// another time starts again from 0; additions saturate.
pub open spec fn rolled_volumes(
    cached: Option<CreatorPeriodVolumes>,
    monthly_start_at: u64,
    weekly_start_at: u64,
    amount: i128,
) -> CreatorPeriodVolumes {
    let v = or_default(
        cached,
        CreatorPeriodVolumes { monthly_start_at, monthly: 0, weekly_start_at, weekly: 0 },
    );
    let monthly = if v.monthly_start_at != monthly_start_at { 0 } else { v.monthly };
    let weekly = if v.weekly_start_at != weekly_start_at { 0 } else { v.weekly };
    CreatorPeriodVolumes {
        monthly_start_at,
        monthly: sat_add(monthly, amount),
        weekly_start_at,
        weekly: sat_add(weekly, amount),
    }
}

impl Tipz {
    /// Adds `amount` to a creator's monthly and weekly volumes (starting a
    /// period again from 0 when its start time changed) and returns both.
    pub fn add_creator_period_volumes(
        &mut self,
        creator: Address,
        monthly_start_at: u64,
        weekly_start_at: u64,
        amount: i128,
    ) -> (r: (i128, i128))
        requires
            old(self).wf(),
        ensures
            final(self).wf(),
            ({
                let v = rolled_volumes(
                    old(self).creator_period_volumes@.get(creator),
                    monthly_start_at,
                    weekly_start_at,
                    amount,
                );
                &&& r == (v.monthly, v.weekly)
                &&& *final(self) == (Tipz {
                    creator_period_volumes: final(self).creator_period_volumes,
                    creator_period_volume: final(self).creator_period_volume,
                    ..*old(self)
                })
                &&& final(self).creator_period_volumes@ == old(self).creator_period_volumes@.insert(creator, v)
                &&& final(self).creator_period_volume@ == old(self).creator_period_volume@.insert(
                    (creator, LeaderboardPeriod::Monthly, monthly_start_at),
                    v.monthly,
                ).insert((creator, LeaderboardPeriod::Weekly, weekly_start_at), v.weekly)
            }),
    {
        let mut volumes = match self.get_creator_period_volumes(creator) {
            Some(v) => v,
            None => CreatorPeriodVolumes { monthly_start_at, monthly: 0, weekly_start_at, weekly: 0 },
        };
        if volumes.monthly_start_at != monthly_start_at {
            volumes.monthly_start_at = monthly_start_at;
            volumes.monthly = 0;
        }
        if volumes.weekly_start_at != weekly_start_at {
            volumes.weekly_start_at = weekly_start_at;
            volumes.weekly = 0;
        }
        volumes.monthly = saturating_add_i128(volumes.monthly, amount);
        volumes.weekly = saturating_add_i128(volumes.weekly, amount);
        let monthly = volumes.monthly;
        let weekly = volumes.weekly;
        self.set_creator_period_volumes(creator, volumes);
        (monthly, weekly)
    }
}


/// Law: a period's volume counts only tips of that period. When the cached
/// volumes (if any) belong to another monthly or weekly period than the
/// current one, the volume after a tip of `amount` is exactly `amount`;
/// within the same period the tip is added to the volume so far (saturating).
/// The returned volumes are stamped with the current periods' start times.
pub proof fn lemma_period_volume_restarts(
    cached: Option<CreatorPeriodVolumes>,
    monthly_start_at: u64,
    weekly_start_at: u64,
    amount: i128,
)
    ensures
        ({
            let v = rolled_volumes(cached, monthly_start_at, weekly_start_at, amount);
            &&& v.monthly_start_at == monthly_start_at
            &&& v.weekly_start_at == weekly_start_at
            &&& (cached is None || cached->0.monthly_start_at != monthly_start_at) ==> v.monthly == amount
            &&& (cached is None || cached->0.weekly_start_at != weekly_start_at) ==> v.weekly == amount
            &&& cached is Some && cached->0.monthly_start_at == monthly_start_at ==> {
                let sum = cached->0.monthly + amount;
                (v.monthly as int) == (if sum > i128::MAX { i128::MAX as int } else if sum < i128::MIN {
                    i128::MIN as int
                } else {
                    sum
                })
            }
            &&& cached is Some && cached->0.weekly_start_at == weekly_start_at ==> {
                let sum = cached->0.weekly + amount;
                (v.weekly as int) == (if sum > i128::MAX { i128::MAX as int } else if sum < i128::MIN {
                    i128::MIN as int
                } else {
                    sum
                })
            }
        }),
{
}

/// Law: a creator's own minimum tip, when set, is the minimum that applies
/// to them, whatever the global minimum is; without one, the global minimum
/// applies.
pub proof fn lemma_own_min_tip_applies(state: Tipz, creator: Address)
    requires
        state.profiles@.contains_key(creator),
    ensures
        state.profiles@[creator].custom_min_tip matches Some(m) ==> state.spec_effective_min_tip(creator) == m,
        state.profiles@[creator].custom_min_tip is None ==> state.spec_effective_min_tip(creator)
            == state.spec_min_tip_amount(),
        state.spec_min_tip_override(creator) == state.profiles@[creator].custom_min_tip,
{
}

} // verus!
