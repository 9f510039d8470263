//! Input validation of the Tipz ledger.
//!
//! Every check is a function of the bytes it is given; its contract states
//! exactly which inputs pass and which error the others get.

use vstd::prelude::*;

use crate::errors::ContractError;
use crate::storage::{or_default, Tipz};
use crate::types::{Address, RateLimitConfig, RateLimitStatus};

verus! {

pub const LOWER_A: u8 = 0x61;
pub const LOWER_Z: u8 = 0x7a;
pub const UPPER_A: u8 = 0x41;
pub const UPPER_Z: u8 = 0x5a;
pub const DIGIT_0: u8 = 0x30;
pub const DIGIT_9: u8 = 0x39;
pub const UNDERSCORE: u8 = 0x5f;
pub const SPACE: u8 = 0x20;
pub const TAB: u8 = 0x09;
pub const NEWLINE: u8 = 0x0a;
pub const CARRIAGE_RETURN: u8 = 0x0d;
pub const DOT: u8 = 0x2e;
pub const HYPHEN: u8 = 0x2d;
pub const AT_SIGN: u8 = 0x40;

/// `c` is an ASCII lowercase letter.
pub open spec fn is_lower(c: u8) -> bool {
    LOWER_A <= c <= LOWER_Z
}

/// `c` is an ASCII uppercase letter.
pub open spec fn is_upper(c: u8) -> bool {
    UPPER_A <= c <= UPPER_Z
}

/// `c` is an ASCII digit.
pub open spec fn is_digit(c: u8) -> bool {
    DIGIT_0 <= c <= DIGIT_9
}

/// `c` may appear in a username.
pub open spec fn is_username_char(c: u8) -> bool {
    is_lower(c) || is_digit(c) || c == UNDERSCORE
}

/// A username has 3 to 32 characters out of `[a-z0-9_]`, starts with a
/// letter, has no two underscores in a row, does not end with an underscore
/// and holds at least one letter.
pub open spec fn username_valid(s: Seq<u8>) -> bool {
    &&& 3 <= s.len() <= 32
    &&& is_lower(s[0])
    &&& s[s.len() - 1] != UNDERSCORE
    &&& forall|i: int| 0 <= i < s.len() ==> #[trigger] is_username_char(s[i])
    &&& forall|i: int| 0 <= i < s.len() - 1 ==> !(#[trigger] s[i] == UNDERSCORE && s[i + 1] == UNDERSCORE)
    &&& exists|i: int| 0 <= i < s.len() && #[trigger] is_lower(s[i])
}

/// `c` is one of the whitespace bytes space, tab, newline, carriage return.
pub open spec fn is_whitespace(c: u8) -> bool {
    c == SPACE || c == TAB || c == NEWLINE || c == CARRIAGE_RETURN
}

/// A display name has 1 to 64 bytes, not all of them whitespace.
pub open spec fn display_name_valid(s: Seq<u8>) -> bool {
    &&& 1 <= s.len() <= 64
    &&& exists|i: int| 0 <= i < s.len() && !#[trigger] is_whitespace(s[i])
}

/// `c` is a control byte other than newline, tab and carriage return.
pub open spec fn is_forbidden_control(c: u8) -> bool {
    c < 0x20 && c != NEWLINE && c != TAB && c != CARRIAGE_RETURN
}

/// `c` may appear in a domain name (dots, letters, digits and hyphens).
pub open spec fn is_domain_char(c: u8) -> bool {
    c == DOT || is_lower(c) || is_upper(c) || is_digit(c) || c == HYPHEN
}

/// A domain has 1 to 253 domain characters, at least one of them a dot.
pub open spec fn domain_valid(s: Seq<u8>) -> bool {
    &&& 1 <= s.len() <= 253
    &&& forall|i: int| 0 <= i < s.len() ==> #[trigger] is_domain_char(s[i])
    &&& exists|i: int| 0 <= i < s.len() && #[trigger] s[i] == DOT
}

/// `c` may appear in an X handle.
pub open spec fn is_handle_char(c: u8) -> bool {
    is_lower(c) || is_upper(c) || is_digit(c) || c == UNDERSCORE
}

/// The handle without its optional leading `@`.
pub open spec fn x_handle_body(s: Seq<u8>) -> Seq<u8> {
    if s.len() > 0 && s[0] == AT_SIGN {
        s.skip(1)
    } else {
        s
    }
}

/// An X handle is an optional `@` followed by 1 to 15 letters, digits or
/// underscores.
pub open spec fn x_handle_valid(s: Seq<u8>) -> bool {
    let body = x_handle_body(s);
    &&& s.len() > 0
    &&& 1 <= body.len() <= 15
    &&& forall|i: int| 0 <= i < body.len() ==> #[trigger] is_handle_char(body[i])
}

/// Validate a username format.
/// - 3 to 32 characters
/// - lowercase alphanumeric and underscores
/// - must start with a letter
/// - no consecutive underscores
/// - cannot end with an underscore
pub fn validate_username(username: &Vec<u8>) -> (r: Result<(), ContractError>)
    ensures
        r is Ok <==> username_valid(username@),
        r is Err ==> r == Err::<(), ContractError>(ContractError::InvalidUsername),
{
    let len = username.len();
    if len < 3 || len > 32 {
        return Err(ContractError::InvalidUsername);
    }
    let ghost s = username@;
    // Must start with a letter [a-z]
    if username[0] < LOWER_A || username[0] > LOWER_Z {
        return Err(ContractError::InvalidUsername);
    }
    // Cannot end with an underscore
    if username[len - 1] == UNDERSCORE {
        return Err(ContractError::InvalidUsername);
    }
    let mut prev_is_underscore = false;
    let mut has_letter = false;
    let mut i: usize = 0;
    while i < len
        invariant
            len == s.len(),
            s == username@,
            i <= len,
            prev_is_underscore == (i > 0 && s[i - 1] == UNDERSCORE),
            has_letter == (exists|j: int| 0 <= j < i && #[trigger] is_lower(s[j])),
            forall|j: int| 0 <= j < i ==> #[trigger] is_username_char(s[j]),
            forall|j: int| 0 <= j < i - 1 ==> !(#[trigger] s[j] == UNDERSCORE && s[j + 1] == UNDERSCORE),
        decreases len - i,
    {
        let c = username[i];
        if (c >= LOWER_A && c <= LOWER_Z) || (c >= DIGIT_0 && c <= DIGIT_9) || c == UNDERSCORE {
            if c == UNDERSCORE {
                if prev_is_underscore {
                    assert(s[i - 1] == UNDERSCORE && s[i as int] == UNDERSCORE);
                    return Err(ContractError::InvalidUsername);
                }
                prev_is_underscore = true;
            } else {
                prev_is_underscore = false;
                if c >= LOWER_A && c <= LOWER_Z {
                    has_letter = true;
                }
            }
            assert((exists|j: int| 0 <= j < i + 1 && #[trigger] is_lower(s[j])) == (
                (exists|j: int| 0 <= j < i && #[trigger] is_lower(s[j])) || is_lower(s[i as int])));
        } else {
            assert(!is_username_char(s[i as int]));
            return Err(ContractError::InvalidUsername);
        }
        i = i + 1;
    }
    if !has_letter {
        return Err(ContractError::InvalidUsername);
    }
    Ok(())
}

/// Validate a display name (1-64 chars, not just whitespace).
pub fn validate_display_name(display_name: &Vec<u8>) -> (r: Result<(), ContractError>)
    ensures
        r is Ok <==> display_name_valid(display_name@),
        r is Err ==> r == Err::<(), ContractError>(ContractError::InvalidDisplayName),
{
    let len = display_name.len();
    if len == 0 || len > 64 {
        return Err(ContractError::InvalidDisplayName);
    }
    let mut i: usize = 0;
    while i < len
        invariant
            len == display_name@.len(),
            1 <= len <= 64,
            i <= len,
            forall|j: int| 0 <= j < i ==> #[trigger] is_whitespace(display_name@[j]),
        decreases len - i,
    {
        let c = display_name[i];
        if c != SPACE && c != TAB && c != NEWLINE && c != CARRIAGE_RETURN {
            assert(!is_whitespace(display_name@[i as int]));
            return Ok(());
        }
        i = i + 1;
    }
    // Only whitespace
    Err(ContractError::InvalidDisplayName)
}

/// Validate a bio (max 280 chars).
pub fn validate_bio(bio: &Vec<u8>) -> (r: Result<(), ContractError>)
    ensures
        r is Ok <==> bio@.len() <= 280,
        r is Err ==> r == Err::<(), ContractError>(ContractError::MessageTooLong),
{
    if bio.len() > 280 {
        return Err(ContractError::MessageTooLong);
    }
    Ok(())
}

/// Validate a message (max 280 chars, no control characters other than
/// newline, tab and carriage return).
pub fn validate_message(message: &Vec<u8>) -> (r: Result<(), ContractError>)
    ensures
        message@.len() > 280 ==> r == Err::<(), ContractError>(ContractError::MessageTooLong),
        message@.len() <= 280 && (exists|i: int| 0 <= i < message@.len() && #[trigger] is_forbidden_control(message@[i]))
            ==> r == Err::<(), ContractError>(ContractError::InvalidMessage),
        message@.len() <= 280 && (forall|i: int| 0 <= i < message@.len() ==> !#[trigger] is_forbidden_control(message@[i]))
            ==> r is Ok,
{
    if message.len() > 280 {
        return Err(ContractError::MessageTooLong);
    }
    let n = message.len();
    let mut i: usize = 0;
    while i < n
        invariant
            n == message@.len(),
            n <= 280,
            i <= n,
            forall|j: int| 0 <= j < i ==> !#[trigger] is_forbidden_control(message@[j]),
        decreases n - i,
    {
        let b = message[i];
        if b < 0x20 && b != NEWLINE && b != TAB && b != CARRIAGE_RETURN {
            assert(is_forbidden_control(message@[i as int]));
            return Err(ContractError::InvalidMessage);
        }
        i = i + 1;
    }
    Ok(())
}

/// Validate an image URL (max 256 chars).
pub fn validate_image_url(url: &Vec<u8>) -> (r: Result<(), ContractError>)
    ensures
        r is Ok <==> url@.len() <= 256,
        r is Err ==> r == Err::<(), ContractError>(ContractError::InvalidImageUrl),
{
    if url.len() > 256 {
        return Err(ContractError::InvalidImageUrl);
    }
    Ok(())
}

/// Validate a tip amount against a single minimum threshold.
pub fn validate_tip_amount(amount: i128, min_amount: i128) -> (r: Result<(), ContractError>)
    ensures
        r is Ok <==> amount >= min_amount,
        r is Err ==> r == Err::<(), ContractError>(ContractError::TipBelowMinimum),
{
    if amount < min_amount {
        return Err(ContractError::TipBelowMinimum);
    }
    Ok(())
}

/// Validate a domain name for stellar.toml verification (basic format check).
pub fn validate_domain(domain: &Vec<u8>) -> (r: Result<(), ContractError>)
    ensures
        r is Ok <==> domain_valid(domain@),
        r is Err ==> r == Err::<(), ContractError>(ContractError::InvalidDomain),
{
    let len = domain.len();
    if len == 0 || len > 253 {
        return Err(ContractError::InvalidDomain);
    }
    let mut has_dot = false;
    let mut i: usize = 0;
    while i < len
        invariant
            len == domain@.len(),
            i <= len,
            has_dot == (exists|j: int| 0 <= j < i && #[trigger] domain@[j] == DOT),
            forall|j: int| 0 <= j < i ==> #[trigger] is_domain_char(domain@[j]),
        decreases len - i,
    {
        let c = domain[i];
        if c == DOT {
            has_dot = true;
        } else if !((c >= LOWER_A && c <= LOWER_Z) || (c >= UPPER_A && c <= UPPER_Z) || (c >= DIGIT_0 && c <= DIGIT_9)
            || c == HYPHEN) {
            assert(!is_domain_char(domain@[i as int]));
            return Err(ContractError::InvalidDomain);
        }
        i = i + 1;
    }
    if !has_dot {
        return Err(ContractError::InvalidDomain);
    }
    Ok(())
}

/// Validate an X handle (alphanumeric + underscores, max 15 chars after @).
pub fn validate_x_handle(handle: &Vec<u8>) -> (r: Result<(), ContractError>)
    ensures
        r is Ok <==> x_handle_valid(handle@),
        r is Err ==> r == Err::<(), ContractError>(ContractError::InvalidUsername),
{
    let len = handle.len();
    if len == 0 {
        return Err(ContractError::InvalidUsername);
    }
    if len > 16 {
        assert(x_handle_body(handle@).len() >= 16);
        return Err(ContractError::InvalidUsername);
    }
    let start: usize = if handle[0] == AT_SIGN { 1 } else { 0 };
    let handle_len = len - start;
    let ghost body = x_handle_body(handle@);
    assert(body.len() == handle_len);
    assert(forall|j: int| 0 <= j < body.len() ==> body[j] == handle@[j + start]);
    if handle_len == 0 || handle_len > 15 {
        return Err(ContractError::InvalidUsername);
    }
    let mut i: usize = start;
    while i < len
        invariant
            len == handle@.len(),
            start <= i <= len,
            start == len - body.len(),
            body == x_handle_body(handle@),
            forall|j: int| 0 <= j < body.len() ==> body[j] == handle@[j + start],
            forall|j: int| 0 <= j < i - start ==> #[trigger] is_handle_char(body[j]),
        decreases len - i,
    {
        let c = handle[i];
        if !((c >= LOWER_A && c <= LOWER_Z) || (c >= UPPER_A && c <= UPPER_Z) || (c >= DIGIT_0 && c <= DIGIT_9)
            || c == UNDERSCORE) {
            assert(!is_handle_char(body[i - start]));
            return Err(ContractError::InvalidUsername);
        }
        i = i + 1;
    }
    Ok(())
}

/// Validate a tip amount against the creator's effective minimum.
///
/// Uses the creator's custom minimum when set, otherwise the global minimum.
/// Returns [`ContractError::BelowCreatorMinimum`] when below a custom minimum,
/// and [`ContractError::TipBelowMinimum`] when below the global default.
pub fn validate_tip_for_creator(state: &Tipz, creator: Address, amount: i128) -> (r: Result<(), ContractError>)
    requires
        state.wf(),
    ensures
        r is Ok <==> amount >= state.spec_effective_min_tip(creator),
        r is Err ==> r == Err::<(), ContractError>(
            if state.spec_min_tip_override(creator) is Some {
                ContractError::BelowCreatorMinimum
            } else {
                ContractError::TipBelowMinimum
            },
        ),
{
    let effective_min = state.get_effective_creator_min_tip(creator);
    if amount >= effective_min {
        return Ok(());
    }
    if state.get_creator_min_tip_override(creator).is_some() {
        Err(ContractError::BelowCreatorMinimum)
    } else {
        Err(ContractError::TipBelowMinimum)
    }
}

/// The time the window of `s` runs out (saturating at the largest time).
pub open spec fn window_end(s: RateLimitStatus, config: RateLimitConfig) -> int {
    if s.last_op_time + config.window_secs > u64::MAX {
        u64::MAX as int
    } else {
        s.last_op_time + config.window_secs
    }
}

/// The window of an address that has made no operation yet.
pub open spec fn fresh_status() -> RateLimitStatus {
    RateLimitStatus { count: 0, last_op_time: 0 }
}

/// One rate-limited operation at time `now` for an address whose window is
/// `status` (`None`: no operation yet): a window that has run out starts
/// again with this operation; otherwise the operation is counted, unless
/// the window already holds `max_ops` operations.
pub open spec fn rate_limit_step(status: Option<RateLimitStatus>, config: RateLimitConfig, now: u64) -> Result<RateLimitStatus, ContractError> {
    let s = or_default(status, fresh_status());
    if now >= window_end(s, config) {
        Ok(RateLimitStatus { count: 1, last_op_time: now })
    } else if s.count >= config.max_ops {
        Err(ContractError::RateLimitExceeded)
    } else {
        Ok(RateLimitStatus { count: (s.count + 1) as u32, last_op_time: s.last_op_time })
    }
}

/// The window after one rate-limited operation at time `now`, or the refusal.
pub fn rate_limit_next(status: Option<RateLimitStatus>, config: RateLimitConfig, now: u64) -> (r: Result<RateLimitStatus, ContractError>)
    ensures
        r == rate_limit_step(status, config, now),
{
    let mut status = match status {
        Some(s) => s,
        None => RateLimitStatus { count: 0, last_op_time: 0 },
    };
    if now >= status.last_op_time.saturating_add(config.window_secs) {
        // Reset window
        status.count = 1;
        status.last_op_time = now;
    } else {
        if status.count >= config.max_ops {
            return Err(ContractError::RateLimitExceeded);
        }
        status.count = status.count + 1;
    }
    Ok(status)
}

/// Applies one rate-limited operation of a non-exempt address.
fn apply_rate_limit(state: &mut Tipz, address: Address, config: RateLimitConfig, now: u64) -> (r: Result<(), ContractError>)
    requires
        old(state).wf(),
    ensures
        final(state).wf(),
        match rate_limit_step(old(state).rate_limits@.get(address), config, now) {
            Ok(st) => r is Ok && *final(state) == (Tipz { rate_limits: final(state).rate_limits, ..*old(state) })
                && final(state).rate_limits@ == old(state).rate_limits@.insert(address, st),
            Err(e) => r == Err::<(), ContractError>(e) && *final(state) == *old(state),
        },
{
    let status = rate_limit_next(state.get_rate_limit_status(address), config, now)?;
    state.set_rate_limit_status(address, status);
    Ok(())
}

/// Check (and count) a rate-limited operation of `address` at time `now`.
/// The admin of an initialised ledger is exempt.
pub fn check_rate_limit(state: &mut Tipz, address: Address, now: u64) -> (r: Result<(), ContractError>)
    requires
        old(state).wf(),
        old(state).initialized ==> old(state).spec_admin() is Some,
    ensures
        final(state).wf(),
        if old(state).initialized && old(state).spec_admin() == Some(address) {
            r is Ok && *final(state) == *old(state)
        } else {
            match rate_limit_step(old(state).rate_limits@.get(address), old(state).spec_rate_limit_config(), now) {
                Ok(st) => r is Ok && *final(state) == (Tipz { rate_limits: final(state).rate_limits, ..*old(state) })
                    && final(state).rate_limits@ == old(state).rate_limits@.insert(address, st),
                Err(e) => r == Err::<(), ContractError>(e) && *final(state) == *old(state),
            }
        },
{
    // Admin is exempt
    if state.is_initialized() && address.id == state.get_admin().id {
        return Ok(());
    }
    let config = state.get_rate_limit_config();
    apply_rate_limit(state, address, config, now)
}

/// Check (and count) a rate-limited operation of `address` at time `now`
/// with a given admin and configuration; the admin is exempt.
pub fn check_rate_limit_with_config(
    state: &mut Tipz,
    address: Address,
    admin: Address,
    config: RateLimitConfig,
    now: u64,
) -> (r: Result<(), ContractError>)
    requires
        old(state).wf(),
    ensures
        final(state).wf(),
        if address == admin {
            r is Ok && *final(state) == *old(state)
        } else {
            match rate_limit_step(old(state).rate_limits@.get(address), config, now) {
                Ok(st) => r is Ok && *final(state) == (Tipz { rate_limits: final(state).rate_limits, ..*old(state) })
                    && final(state).rate_limits@ == old(state).rate_limits@.insert(address, st),
                Err(e) => r == Err::<(), ContractError>(e) && *final(state) == *old(state),
            }
        },
{
    if address.id == admin.id {
        return Ok(());
    }
    apply_rate_limit(state, address, config, now)
}

/// Law: within one window no address gets more than `max_ops` operations
/// accepted. An accepted operation either opens a new window at `now` with a
/// count of 1 (only once the old window has run out), or stays in the
/// current window with a count one higher and at most `max_ops`; an address
/// whose window is full is refused until the window has run out.
pub proof fn lemma_rate_limit_window(status: Option<RateLimitStatus>, config: RateLimitConfig, now: u64)
    ensures
        ({
            let s = or_default(status, fresh_status());
            &&& rate_limit_step(status, config, now) matches Ok(st) ==> {
                ||| st == RateLimitStatus { count: 1, last_op_time: now } && now >= window_end(s, config)
                ||| {
                    &&& st.last_op_time == s.last_op_time
                    &&& st.count == s.count + 1
                    &&& st.count <= config.max_ops
                    &&& now < window_end(s, config)
                }
            }
            &&& s.count >= config.max_ops && now < window_end(s, config) ==> rate_limit_step(status, config, now)
                == Err::<RateLimitStatus, ContractError>(ContractError::RateLimitExceeded)
        }),
{
}

} // verus!
