//! Data types of the Tipz ledger.
//!
//! Text fields hold their UTF-8 bytes (`Vec<u8>`); an on-chain account or
//! contract is identified by an [`Address`].

use vstd::prelude::*;

verus! {

/// An account or contract on the ledger, identified by a number.
#[derive(Clone, Copy, Debug, PartialEq, Eq, Structural, PartialOrd, Ord, Hash)]
pub struct Address {
    pub id: u64,
}

impl View for Address {
    type V = Address;

    open spec fn view(&self) -> Address {
        *self
    }
}

/// Verification type for creator profiles.
///
/// `Unverified` is the default state.
#[derive(Clone, Copy, Debug, PartialEq, Eq, Structural)]
pub enum VerificationType {
    Unverified,
    Identity,
    SocialMedia,
    Community,
}

/// Period for leaderboard tracking.
#[derive(Clone, Copy, Debug, PartialEq, Eq, Structural)]
pub enum LeaderboardPeriod {
    AllTime,
    Monthly,
    Weekly,
}

impl View for LeaderboardPeriod {
    type V = LeaderboardPeriod;

    open spec fn view(&self) -> LeaderboardPeriod {
        *self
    }
}

/// Verification status for a creator profile.
#[derive(Clone, Copy, Debug, PartialEq, Eq, Structural)]
pub struct VerificationStatus {
    /// Whether the creator is verified
    pub is_verified: bool,
    /// Verification type (Unverified when not yet verified)
    pub verification_type: VerificationType,
    /// Timestamp when verification was granted
    pub verified_at: Option<u64>,
    /// Timestamp when verification was revoked
    pub revoked_at: Option<u64>,
}

impl VerificationStatus {
    /// The status of a profile that was never verified.
    pub fn unverified() -> (r: Self)
        ensures
            r == (VerificationStatus {
                is_verified: false,
                verification_type: VerificationType::Unverified,
                verified_at: None,
                revoked_at: None,
            }),
    {
        VerificationStatus {
            is_verified: false,
            verification_type: VerificationType::Unverified,
            verified_at: None,
            revoked_at: None,
        }
    }
}

/// Creator profile.
#[derive(Clone, Debug)]
pub struct Profile {
    /// Address of the creator
    pub owner: Address,
    /// Unique username (lowercase, alphanumeric + underscore, 3-32 chars)
    pub username: Vec<u8>,
    /// Display name (1-64 chars)
    pub display_name: Vec<u8>,
    /// Short bio
    pub bio: Vec<u8>,
    /// Website URL
    pub website: Vec<u8>,
    /// Profile image URL or IPFS CID (0-256 chars)
    pub image_url: Vec<u8>,
    /// Social platforms and their handles
    pub social_links: Vec<(Vec<u8>, Vec<u8>)>,
    /// X (Twitter) handle
    pub x_handle: Vec<u8>,
    /// X follower count (set by admin)
    pub x_followers: u32,
    /// Average X engagement per post (set by admin)
    pub x_engagement_avg: u32,
    /// Credit score (0-100)
    pub credit_score: u32,
    /// Lifetime tips received (in stroops)
    pub total_tips_received: i128,
    /// Number of tips received
    pub total_tips_count: u32,
    /// Current withdrawable balance (in stroops)
    pub balance: i128,
    /// Timestamp of registration
    pub registered_at: u64,
    /// Last profile update timestamp
    pub updated_at: u64,
    /// Verification status
    pub verification: VerificationStatus,
    /// Domain claimed for stellar.toml verification (empty = not set)
    pub domain: Vec<u8>,
    /// Whether the domain ownership has been verified by admin
    pub domain_verified: bool,
    /// Timestamp when domain was last verified
    pub domain_verified_at: Option<u64>,
    /// Creator-specific minimum tip override in stroops (None = use global minimum)
    pub custom_min_tip: Option<i128>,
}

/// What a profile says, with its text fields as sequences of bytes.
pub ghost struct ProfileView {
    pub owner: Address,
    pub username: Seq<u8>,
    pub display_name: Seq<u8>,
    pub bio: Seq<u8>,
    pub website: Seq<u8>,
    pub image_url: Seq<u8>,
    pub social_links: Seq<(Seq<u8>, Seq<u8>)>,
    pub x_handle: Seq<u8>,
    pub x_followers: u32,
    pub x_engagement_avg: u32,
    pub credit_score: u32,
    pub total_tips_received: i128,
    pub total_tips_count: u32,
    pub balance: i128,
    pub registered_at: u64,
    pub updated_at: u64,
    pub verification: VerificationStatus,
    pub domain: Seq<u8>,
    pub domain_verified: bool,
    pub domain_verified_at: Option<u64>,
    pub custom_min_tip: Option<i128>,
}

/// A social link as a pair of byte sequences.
pub open spec fn link_view(l: (Vec<u8>, Vec<u8>)) -> (Seq<u8>, Seq<u8>) {
    (l.0@, l.1@)
}

impl View for Profile {
    type V = ProfileView;

    open spec fn view(&self) -> ProfileView {
        ProfileView {
            owner: self.owner,
            username: self.username@,
            display_name: self.display_name@,
            bio: self.bio@,
            website: self.website@,
            image_url: self.image_url@,
            social_links: self.social_links@.map_values(|l: (Vec<u8>, Vec<u8>)| link_view(l)),
            x_handle: self.x_handle@,
            x_followers: self.x_followers,
            x_engagement_avg: self.x_engagement_avg,
            credit_score: self.credit_score,
            total_tips_received: self.total_tips_received,
            total_tips_count: self.total_tips_count,
            balance: self.balance,
            registered_at: self.registered_at,
            updated_at: self.updated_at,
            verification: self.verification,
            domain: self.domain@,
            domain_verified: self.domain_verified,
            domain_verified_at: self.domain_verified_at,
            custom_min_tip: self.custom_min_tip,
        }
    }
}

/// Profile plus deactivation state for queries.
#[derive(Clone, Debug)]
pub struct ProfileWithDeactivation {
    pub profile: Profile,
    pub is_deactivated: bool,
    /// Set when the profile is deactivated (hidden from leaderboard, tips disabled).
    pub deactivated_at: Option<u64>,
}

/// Pending time-locked admin rotation.
#[derive(Clone, Copy, Debug, PartialEq, Eq, Structural)]
pub struct AdminChangeProposal {
    pub new_admin: Address,
    /// Unix timestamp after which the change may be confirmed.
    pub confirmable_after: u64,
}

/// One recorded completed admin handoff.
#[derive(Clone, Copy, Debug, PartialEq, Eq, Structural)]
pub struct AdminChangeHistoryEntry {
    pub old_admin: Address,
    pub new_admin: Address,
    pub confirmed_at: u64,
}

/// Recurring tip subscription record.
#[derive(Clone, Copy, Debug, PartialEq, Eq, Structural)]
pub struct Subscription {
    /// Address of the supporter
    pub subscriber: Address,
    /// Address of the creator
    pub creator: Address,
    /// Amount to tip per interval
    pub amount: i128,
    /// Interval in days
    pub interval_days: u32,
    /// Timestamp of next execution
    pub next_due: u64,
    /// Whether the subscription is currently active
    pub active: bool,
}

/// Pending withdrawal for security cooldown.
#[derive(Clone, Copy, Debug, PartialEq, Eq, Structural)]
pub struct PendingWithdrawal {
    /// Unique withdrawal ID
    pub id: u32,
    /// Creator address
    pub creator: Address,
    /// Amount to withdraw
    pub amount: i128,
    /// Execution timestamp (after cooldown)
    pub unlock_at: u64,
}

/// Individual tip record.
#[derive(Clone, Debug)]
pub struct Tip {
    /// Unique tip ID (monotonically increasing global counter)
    pub id: u32,
    /// Address that actually sent the funds
    pub sender: Address,
    /// Address that gets the credit (on behalf of). Same as sender for normal tips.
    pub benefactor: Option<Address>,
    /// Address of the creator who received the tip
    pub creator: Address,
    /// Tip amount in stroops
    pub amount: i128,
    /// Optional message (0-280 chars)
    pub message: Vec<u8>,
    /// Timestamp at the time the tip was sent
    pub timestamp: u64,
    /// Whether this tip is anonymous
    pub is_anonymous: bool,
}

/// Supporter/creator streak record.
#[derive(Clone, Copy, Debug, PartialEq, Eq, Structural)]
pub struct Streak {
    /// Address of the supporter.
    pub supporter: Address,
    /// Address of the creator being tipped.
    pub creator: Address,
    /// Current consecutive streak count.
    pub current: u32,
    /// Longest streak observed for this pair.
    pub longest: u32,
    /// Day index of the last qualifying tip.
    pub last_tip_day: Option<u64>,
    /// Lifetime bonus points earned from this streak.
    pub bonus_points: u32,
}

/// Leaderboard entry for top creators.
#[derive(Clone, Debug)]
pub struct LeaderboardEntry {
    /// Creator's address
    pub address: Address,
    /// Creator's username
    pub username: Vec<u8>,
    /// Tips received during the period
    pub amount: i128,
    /// Current credit score
    pub credit_score: u32,
}

/// Credit tier derived from a creator's credit score (0–100).
///
/// | Tier    | Score range |
/// |---------|-------------|
/// | New     | 0 – 19      |
/// | Bronze  | 20 – 39     |
/// | Silver  | 40 – 59     |
/// | Gold    | 60 – 79     |
/// | Diamond | 80 – 100    |
#[derive(Clone, Copy, Debug, PartialEq, Eq, Structural)]
pub enum CreditTier {
    New,
    Bronze,
    Silver,
    Gold,
    Diamond,
}

/// Component-level breakdown of a profile credit score.
#[derive(Clone, Copy, Debug, PartialEq, Eq, Structural)]
pub struct CreditBreakdown {
    /// Fixed score every registered profile receives.
    pub base: u32,
    /// Weighted contribution from lifetime tips.
    pub tip_score: u32,
    /// Weighted contribution from X metrics.
    pub x_score: u32,
    /// Weighted contribution from account age.
    pub age_score: u32,
    /// Weighted contribution from supporter streaks.
    pub streak_score: u32,
    /// Final score after summing all components (capped at 100).
    pub total: u32,
}

/// A single skipped entry from a batch X-metrics update, including the reason.
///
/// Reason code: 0 = not registered, 1 = invalid metrics
#[derive(Clone, Copy, Debug, PartialEq, Eq, Structural)]
pub struct BatchSkip {
    /// The address that was skipped
    pub address: Address,
    /// Reason code: 0 = not registered, 1 = invalid metrics
    pub reason: u32,
}

/// Global contract statistics.
#[derive(Clone, Copy, Debug, PartialEq, Eq, Structural)]
pub struct ContractStats {
    /// Total registered creators
    pub total_creators: u32,
    /// Total tips sent (count)
    pub total_tips_count: u32,
    /// Total tip volume in stroops
    pub total_tips_volume: i128,
    /// Total fees collected in stroops
    pub total_fees_collected: i128,
    /// Current fee in basis points
    pub fee_bps: u32,
}

/// Full contract configuration (superset of ContractStats).
#[derive(Clone, Copy, Debug, PartialEq, Eq, Structural)]
pub struct ContractConfig {
    /// Contract admin address
    pub admin: Address,
    /// Address that receives fees
    pub fee_collector: Address,
    /// Withdrawal fee in basis points
    pub fee_bps: u32,
    /// Native XLM token contract address
    pub native_token: Address,
    /// Total registered creators
    pub total_creators: u32,
    /// Total tips sent (count)
    pub total_tips_count: u32,
    /// Total tip volume in stroops
    pub total_tips_volume: i128,
    /// Total fees collected in stroops
    pub total_fees_collected: i128,
    /// Flag indicating contract is initialized
    pub is_initialized: bool,
    /// Contract version
    pub version: u32,
}

/// Donation page configuration for a creator
#[derive(Clone, Debug)]
pub struct DonationPageConfig {
    /// Custom welcome message (0-500 chars)
    pub welcome_message: Vec<u8>,
    /// Suggested tip amounts (up to 6 presets)
    pub suggested_amounts: Vec<i128>,
    /// Theme color (hex format, e.g., "#ff6b6b")
    pub theme_color: Vec<u8>,
    /// Header image URI (IPFS CID or URL, 0-256 chars)
    pub header_image_uri: Vec<u8>,
    /// Whether this is the default config
    pub is_default: bool,
}

/// What a donation page says, with its text fields as sequences of bytes.
pub ghost struct PageView {
    pub welcome_message: Seq<u8>,
    pub suggested_amounts: Seq<i128>,
    pub theme_color: Seq<u8>,
    pub header_image_uri: Seq<u8>,
    pub is_default: bool,
}

impl View for DonationPageConfig {
    type V = PageView;

    open spec fn view(&self) -> PageView {
        PageView {
            welcome_message: self.welcome_message@,
            suggested_amounts: self.suggested_amounts@,
            theme_color: self.theme_color@,
            header_image_uri: self.header_image_uri@,
            is_default: self.is_default,
        }
    }
}

/// Rate limit configuration.
#[derive(Clone, Copy, Debug, PartialEq, Eq, Structural)]
pub struct RateLimitConfig {
    /// Max operations per window
    pub max_ops: u32,
    /// Window duration in seconds (e.g., 3600 for 1 hour)
    pub window_secs: u64,
}

/// Rate limit tracking for an address.
#[derive(Clone, Copy, Debug, PartialEq, Eq, Structural)]
pub struct RateLimitStatus {
    /// Number of operations performed in the current window
    pub count: u32,
    /// Timestamp when the current window started
    pub last_op_time: u64,
}

/// Goal tracking for creators
#[derive(Clone, Debug)]
pub struct Goal {
    /// Creator address
    pub creator: Address,
    /// Target amount to raise
    pub target: i128,
    /// Amount raised so far
    pub raised: i128,
    /// Goal description (max 500 chars)
    pub description: Vec<u8>,
    /// Deadline timestamp (0 = no deadline)
    pub deadline: u64,
    /// Whether the goal is currently active
    pub active: bool,
    /// Timestamp when goal was created
    pub created_at: u64,
    /// Timestamp when goal was reached (None = not reached yet)
    pub reached_at: Option<u64>,
}

/// Accepted token configuration for multi-token tipping
#[derive(Clone, Copy, Debug, PartialEq, Eq, Structural)]
pub struct AcceptedToken {
    /// Token contract address
    pub token_address: Address,
    /// Oracle address for price conversion (optional)
    pub oracle_address: Option<Address>,
    /// Whether the token is currently enabled
    pub enabled: bool,
    /// Timestamp when token was added
    pub added_at: u64,
}

/// Token balance for a creator
#[derive(Clone, Copy, Debug, PartialEq, Eq, Structural)]
pub struct TokenBalance {
    /// Token contract address
    pub token_address: Address,
    /// Balance amount
    pub amount: i128,
}

/// Scheduled tip for future delivery
#[derive(Clone, Debug)]
pub struct ScheduledTip {
    /// Unique scheduled tip ID
    pub id: u32,
    /// Address of the sender
    pub sender: Address,
    /// Address of the creator recipient
    pub creator: Address,
    /// Tip amount in stroops
    pub amount: i128,
    /// Optional message (0-280 chars)
    pub message: Vec<u8>,
    /// Timestamp when the tip should be delivered
    pub deliver_at: u64,
    /// Whether the tip has been delivered
    pub delivered: bool,
    /// Timestamp when the tip was actually delivered (None = not delivered)
    pub delivered_at: Option<u64>,
    /// Whether the tip has been cancelled
    pub cancelled: bool,
    /// Timestamp when the tip was cancelled (None = not cancelled)
    pub cancelled_at: Option<u64>,
    /// Timestamp when the scheduled tip was created
    pub created_at: u64,
}

/// Refund request status
#[derive(Clone, Copy, Debug, PartialEq, Eq, Structural)]
pub enum RefundStatus {
    /// Refund has been requested and is pending creator response
    Pending,
    /// Creator approved the refund
    Approved,
    /// Creator rejected the refund
    Rejected,
    /// Refund was auto-approved after timeout
    AutoApproved,
}

/// Refund request for a tip
#[derive(Clone, Copy, Debug, PartialEq, Eq, Structural)]
pub struct RefundRequest {
    /// Tip ID being refunded
    pub tip_id: u32,
    /// Address of the tipper requesting refund
    pub tipper: Address,
    /// Address of the creator who received the tip
    pub creator: Address,
    /// Amount of the tip
    pub amount: i128,
    /// Timestamp when refund was requested
    pub requested_at: u64,
    /// Current status of the refund
    pub status: RefundStatus,
    /// Timestamp when refund was processed (approved/rejected/auto-approved)
    pub processed_at: Option<u64>,
    /// Net refund amount (amount minus non-refundable fee)
    pub refund_amount: i128,
    /// Non-refundable platform fee
    pub non_refundable_fee: i128,
}

/// Refund configuration
#[derive(Clone, Copy, Debug, PartialEq, Eq, Structural)]
pub struct RefundConfig {
    /// Time window in seconds for requesting refunds (default 24 hours = 86400)
    pub request_window_secs: u64,
    /// Time window in seconds for creator to respond before auto-approval (default 48 hours = 172800)
    pub response_window_secs: u64,
    /// Non-refundable fee percentage in basis points (default 200 = 2%)
    pub non_refundable_fee_bps: u32,
}

} // verus!
