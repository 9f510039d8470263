//! Creator profiles: registration, updates, deactivation, removal, donation
//! pages, per-creator minimum tips and domain verification.
//!
//! Every operation checks everything it can refuse before it writes, so an
//! operation that returns an error leaves the stored state as it was.

use vstd::prelude::*;

use crate::admin::{require_admin, require_not_paused};
use crate::bytes::copy_bytes;
use crate::errors::ContractError;
use crate::leaderboard::{
    boards_after_tip, entry_of, only_boards_changed, remove_from_all_leaderboards, update_all_leaderboards,
    without_address,
};
use crate::storage::{copy_vec, or_default, Tipz};
use crate::tips::{min_tip_refusal, send_tip_on_behalf_refusal, send_tip_refusal};
use crate::types::{
    Address, DonationPageConfig, LeaderboardPeriod, PageView, Profile, ProfileView, ProfileWithDeactivation,
    VerificationStatus, VerificationType, link_view,
};
use crate::validation::{
    display_name_valid, username_valid, validate_bio, validate_display_name, validate_domain, validate_image_url,
    validate_username, validate_x_handle, x_handle_valid, domain_valid, AT_SIGN,
};

verus! {

/// Credit score a creator starts with.
pub const BASE_CREDIT_SCORE: u32 = 40;

/// Longest accepted donation-page welcome message, in bytes.
pub const MAX_WELCOME_MESSAGE_LEN: usize = 500;

/// Most suggested amounts on a donation page.
pub const MAX_SUGGESTED_AMOUNTS: usize = 6;

/// Longest accepted donation-page header image URI, in bytes.
pub const MAX_HEADER_IMAGE_URI_LEN: usize = 256;

/// Length of a `#rrggbb` theme colour.
pub const THEME_COLOR_LEN: usize = 7;

// ── X handles ──

/// An X handle as stored: with a leading `@`, added when missing (an empty
/// handle stays empty).
pub open spec fn normalized_x_handle(h: Seq<u8>) -> Seq<u8> {
    if h.len() == 0 || h[0] == AT_SIGN {
        h
    } else {
        seq![AT_SIGN] + h
    }
}

/// The handle with a leading `@`, added when missing.
pub fn normalize_x_handle(handle: &Vec<u8>) -> (r: Vec<u8>)
    ensures
        r@ == normalized_x_handle(handle@),
{
    if handle.len() == 0 || handle[0] == AT_SIGN {
        return copy_bytes(handle);
    }
    let mut r: Vec<u8> = Vec::new();
    r.push(AT_SIGN);
    let mut i: usize = 0;
    while i < handle.len()
        invariant
            i <= handle@.len(),
            r@ == seq![AT_SIGN] + handle@.take(i as int),
        decreases handle@.len() - i,
    {
        r.push(handle[i]);
        i = i + 1;
        assert(r@ =~= seq![AT_SIGN] + handle@.take(i as int));
    }
    assert(handle@.take(handle@.len() as int) =~= handle@);
    r
}

// ── copies ──

/// A copy of a profile's social links.
fn copy_links(v: &Vec<(Vec<u8>, Vec<u8>)>) -> (r: Vec<(Vec<u8>, Vec<u8>)>)
    ensures
        r@.map_values(|l: (Vec<u8>, Vec<u8>)| link_view(l)) == v@.map_values(|l: (Vec<u8>, Vec<u8>)| link_view(l)),
{
    let mut r: Vec<(Vec<u8>, Vec<u8>)> = Vec::new();
    let mut i: usize = 0;
    while i < v.len()
        invariant
            i <= v@.len(),
            r@.len() == i,
            forall|j: int| 0 <= j < i ==> #[trigger] link_view(r@[j]) == link_view(v@[j]),
        decreases v@.len() - i,
    {
        let link = (copy_bytes(&v[i].0), copy_bytes(&v[i].1));
        r.push(link);
        i = i + 1;
    }
    assert(r@.map_values(|l: (Vec<u8>, Vec<u8>)| link_view(l)) =~= v@.map_values(|l: (Vec<u8>, Vec<u8>)| link_view(l)));
    r
}

/// A copy of a profile.
pub fn copy_profile(p: &Profile) -> (r: Profile)
    ensures
        r@ == p@,
{
    Profile {
        owner: p.owner,
        username: copy_bytes(&p.username),
        display_name: copy_bytes(&p.display_name),
        bio: copy_bytes(&p.bio),
        website: copy_bytes(&p.website),
        image_url: copy_bytes(&p.image_url),
        social_links: copy_links(&p.social_links),
        x_handle: copy_bytes(&p.x_handle),
        x_followers: p.x_followers,
        x_engagement_avg: p.x_engagement_avg,
        credit_score: p.credit_score,
        total_tips_received: p.total_tips_received,
        total_tips_count: p.total_tips_count,
        balance: p.balance,
        registered_at: p.registered_at,
        updated_at: p.updated_at,
        verification: p.verification,
        domain: copy_bytes(&p.domain),
        domain_verified: p.domain_verified,
        domain_verified_at: p.domain_verified_at,
        custom_min_tip: p.custom_min_tip,
    }
}

/// A copy of a donation page.
pub fn copy_page(c: &DonationPageConfig) -> (r: DonationPageConfig)
    ensures
        r@ == c@,
{
    DonationPageConfig {
        welcome_message: copy_bytes(&c.welcome_message),
        suggested_amounts: copy_vec(&c.suggested_amounts),
        theme_color: copy_bytes(&c.theme_color),
        header_image_uri: copy_bytes(&c.header_image_uri),
        is_default: c.is_default,
    }
}

/// Entries built from profiles with equal views are equal.
proof fn lemma_entry_of_view(p: Profile, q: Profile, amount: i128)
    requires
        p@ == q@,
    ensures
        entry_of(p, amount) == entry_of(q, amount),
{
    assert(p.username@ == q.username@);
}

// ── registration ──

/// Why [`register_profile`] refuses, if it does.
pub open spec fn registration_refusal(
    state: Tipz,
    caller: Address,
    username: Seq<u8>,
    display_name: Seq<u8>,
    bio: Seq<u8>,
    image_url: Seq<u8>,
    x_handle: Seq<u8>,
) -> Option<ContractError> {
    if state.spec_paused() {
        Some(ContractError::ContractPaused)
    } else if !state.initialized {
        Some(ContractError::NotInitialized)
    } else if !username_valid(username) {
        Some(ContractError::InvalidUsername)
    } else if !display_name_valid(display_name) {
        Some(ContractError::InvalidDisplayName)
    } else if bio.len() > 280 {
        Some(ContractError::MessageTooLong)
    } else if image_url.len() > 256 {
        Some(ContractError::InvalidImageUrl)
    } else if x_handle.len() > 0 && !x_handle_valid(x_handle) {
        Some(ContractError::InvalidUsername)
    } else if state.profiles@.contains_key(caller) {
        Some(ContractError::AlreadyRegistered)
    } else if state.usernames@.contains_key(username) {
        Some(ContractError::UsernameTaken)
    } else {
        None
    }
}

/// The profile a registration creates.
pub open spec fn new_profile_view(
    caller: Address,
    username: Seq<u8>,
    display_name: Seq<u8>,
    bio: Seq<u8>,
    image_url: Seq<u8>,
    x_handle: Seq<u8>,
    now: u64,
) -> ProfileView {
    ProfileView {
        owner: caller,
        username,
        display_name,
        bio,
        website: Seq::empty(),
        image_url,
        social_links: Seq::empty(),
        x_handle: normalized_x_handle(x_handle),
        x_followers: 0,
        x_engagement_avg: 0,
        credit_score: BASE_CREDIT_SCORE,
        total_tips_received: 0,
        total_tips_count: 0,
        balance: 0,
        registered_at: now,
        updated_at: now,
        verification: VerificationStatus {
            is_verified: false,
            verification_type: VerificationType::Unverified,
            verified_at: None,
            revoked_at: None,
        },
        domain: Seq::empty(),
        domain_verified: false,
        domain_verified_at: None,
        custom_min_tip: None,
    }
}

/// Register a new creator profile for `caller` at time `now`.
///
/// Errors, in this order: `ContractPaused`; `NotInitialized`;
/// `InvalidUsername` (3-32 chars of `[a-z0-9_]`, starting with a letter);
/// `InvalidDisplayName`; `MessageTooLong` (bio over 280 bytes);
/// `InvalidImageUrl` (over 256 bytes); `InvalidUsername` (a non-empty X
/// handle that is not valid); `AlreadyRegistered`; `UsernameTaken`.
///
/// On success the profile is stored under `caller` with its X handle
/// prefixed by `@`, the username is reserved for `caller`, the creator count
/// grows by one, and a copy of the profile is returned.
pub fn register_profile(
    state: &mut Tipz,
    caller: Address,
    username: Vec<u8>,
    display_name: Vec<u8>,
    bio: Vec<u8>,
    image_url: Vec<u8>,
    x_handle: Vec<u8>,
    now: u64,
) -> (r: Result<Profile, ContractError>)
    requires
        old(state).wf(),
        registration_refusal(*old(state), caller, username@, display_name@, bio@, image_url@, x_handle@) is None
            ==> or_default(old(state).total_creators, 0) < u32::MAX,
    ensures
        final(state).wf(),
        match registration_refusal(*old(state), caller, username@, display_name@, bio@, image_url@, x_handle@) {
            Some(e) => r == Err::<Profile, ContractError>(e) && *final(state) == *old(state),
            None => {
                let v = new_profile_view(caller, username@, display_name@, bio@, image_url@, x_handle@, now);
                &&& r is Ok && r->Ok_0@ == v
                &&& final(state).profiles@ == old(state).profiles@.insert(caller, final(state).profiles@[caller])
                &&& final(state).profiles@[caller]@ == v
                &&& final(state).usernames@ == old(state).usernames@.insert(username@, caller)
                &&& *final(state) == (Tipz {
                    profiles: final(state).profiles,
                    usernames: final(state).usernames,
                    total_creators: Some((or_default(old(state).total_creators, 0) + 1) as u32),
                    ..*old(state)
                })
            },
        },
{
    require_not_paused(state)?;
    if !state.is_initialized() {
        return Err(ContractError::NotInitialized);
    }
    validate_username(&username)?;
    validate_display_name(&display_name)?;
    validate_bio(&bio)?;
    validate_image_url(&image_url)?;
    // The X handle is optional: only a non-empty one is validated.
    if x_handle.len() > 0 {
        validate_x_handle(&x_handle)?;
    }
    let normalized_x = normalize_x_handle(&x_handle);
    // Each address may only register once, and each username is unique.
    if state.has_profile(caller) {
        return Err(ContractError::AlreadyRegistered);
    }
    if state.get_username_address(&username).is_some() {
        return Err(ContractError::UsernameTaken);
    }
    let profile = Profile {
        owner: caller,
        username: copy_bytes(&username),
        display_name,
        bio,
        website: Vec::new(),
        image_url,
        social_links: Vec::new(),
        x_handle: normalized_x,
        x_followers: 0,
        x_engagement_avg: 0,
        credit_score: BASE_CREDIT_SCORE,
        total_tips_received: 0,
        total_tips_count: 0,
        balance: 0,
        registered_at: now,
        updated_at: now,
        verification: VerificationStatus::unverified(),
        domain: Vec::new(),
        domain_verified: false,
        domain_verified_at: None,
        custom_min_tip: None,
    };
    let created = copy_profile(&profile);
    let ghost pv = profile@;
    proof {
        assert(profile.social_links@.map_values(|l: (Vec<u8>, Vec<u8>)| link_view(l)) =~= Seq::<(Seq<u8>, Seq<u8>)>::empty());
    }
    state.set_profile(profile);
    state.set_username_address(&username, caller);
    state.increment_total_creators();
    assert(state.profiles@ =~= old(state).profiles@.insert(caller, state.profiles@[caller]));
    Ok(created)
}

// ── updates ──

/// The bytes of an optional text, if given.
pub open spec fn opt_bytes(o: Option<Vec<u8>>) -> Option<Seq<u8>> {
    match o {
        Some(v) => Some(v@),
        None => None,
    }
}

/// Why [`update_profile`] refuses, if it does.
pub open spec fn update_refusal(
    state: Tipz,
    caller: Address,
    display_name: Option<Seq<u8>>,
    bio: Option<Seq<u8>>,
    image_url: Option<Seq<u8>>,
    x_handle: Option<Seq<u8>>,
) -> Option<ContractError> {
    if state.spec_paused() {
        Some(ContractError::ContractPaused)
    } else if !state.profiles@.contains_key(caller) {
        Some(ContractError::NotRegistered)
    } else if display_name matches Some(d) && (d.len() == 0 || d.len() > 64) {
        Some(ContractError::InvalidDisplayName)
    } else if bio matches Some(b) && b.len() > 280 {
        Some(ContractError::MessageTooLong)
    } else if image_url matches Some(u) && u.len() > 256 {
        Some(ContractError::InvalidImageUrl)
    } else if x_handle matches Some(h) && !x_handle_valid(h) {
        Some(ContractError::InvalidUsername)
    } else {
        None
    }
}

/// A profile after an update at `now`: each given field replaced (the X
/// handle prefixed by `@`), the others kept.
pub open spec fn updated_view(
    p: ProfileView,
    display_name: Option<Seq<u8>>,
    bio: Option<Seq<u8>>,
    image_url: Option<Seq<u8>>,
    x_handle: Option<Seq<u8>>,
    now: u64,
) -> ProfileView {
    ProfileView {
        display_name: or_default(display_name, p.display_name),
        bio: or_default(bio, p.bio),
        image_url: or_default(image_url, p.image_url),
        x_handle: match x_handle {
            Some(h) => normalized_x_handle(h),
            None => p.x_handle,
        },
        updated_at: now,
        ..p
    }
}

/// Update the caller's profile at time `now`; each field given as `Some`
/// replaces the stored one.
///
/// Errors, in this order: `ContractPaused`; `NotRegistered`;
/// `InvalidDisplayName` (empty or over 64 bytes); `MessageTooLong` (bio over
/// 280 bytes); `InvalidImageUrl` (over 256 bytes); `InvalidUsername` (an X
/// handle that is not valid).
pub fn update_profile(
    state: &mut Tipz,
    caller: Address,
    display_name: Option<Vec<u8>>,
    bio: Option<Vec<u8>>,
    image_url: Option<Vec<u8>>,
    x_handle: Option<Vec<u8>>,
    now: u64,
) -> (r: Result<(), ContractError>)
    requires
        old(state).wf(),
    ensures
        final(state).wf(),
        match update_refusal(
            *old(state),
            caller,
            opt_bytes(display_name),
            opt_bytes(bio),
            opt_bytes(image_url),
            opt_bytes(x_handle),
        ) {
            Some(e) => r == Err::<(), ContractError>(e) && *final(state) == *old(state),
            None => {
                &&& r is Ok
                &&& *final(state) == (Tipz { profiles: final(state).profiles, ..*old(state) })
                &&& final(state).profiles@ == old(state).profiles@.insert(caller, final(state).profiles@[caller])
                &&& final(state).profiles@[caller]@ == updated_view(
                    old(state).profiles@[caller]@,
                    opt_bytes(display_name),
                    opt_bytes(bio),
                    opt_bytes(image_url),
                    opt_bytes(x_handle),
                    now,
                )
            },
        },
{
    require_not_paused(state)?;
    if !state.has_profile(caller) {
        return Err(ContractError::NotRegistered);
    }
    if let Some(dn) = &display_name {
        let len = dn.len();
        if len == 0 || len > 64 {
            return Err(ContractError::InvalidDisplayName);
        }
    }
    if let Some(b) = &bio {
        if b.len() > 280 {
            return Err(ContractError::MessageTooLong);
        }
    }
    if let Some(url) = &image_url {
        if url.len() > 256 {
            return Err(ContractError::InvalidImageUrl);
        }
    }
    let new_handle = match &x_handle {
        Some(handle) => {
            validate_x_handle(handle)?;
            Some(normalize_x_handle(handle))
        },
        None => None,
    };
    let mut profile = state.profiles.remove(&caller).unwrap();
    let ghost before = profile@;
    if let Some(dn) = display_name {
        profile.display_name = dn;
    }
    if let Some(b) = bio {
        profile.bio = b;
    }
    if let Some(url) = image_url {
        profile.image_url = url;
    }
    if let Some(h) = new_handle {
        profile.x_handle = h;
    }
    profile.updated_at = now;
    let ghost after = profile;
    state.set_profile(profile);
    assert(state.profiles@ =~= old(state).profiles@.insert(caller, after));
    Ok(())
}

// ── domain verification ──

/// The verified domain of `creator` has gone unconfirmed for longer than
/// the re-verification interval at `now`.
pub open spec fn domain_lapsed(state: Tipz, creator: Address, now: u64) -> bool {
    &&& state.profiles@.contains_key(creator)
    &&& state.profiles@[creator].domain_verified
    &&& state.profiles@[creator].domain_verified_at matches Some(at)
        && now > at + state.spec_domain_reverification_interval()
}

/// A profile whose domain verification lapsed at `now`: the domain and the
/// profile's verification are revoked.
pub open spec fn lapsed_profile(p: Profile, now: u64) -> Profile {
    Profile {
        domain_verified: false,
        domain_verified_at: None,
        verification: VerificationStatus {
            is_verified: false,
            verification_type: VerificationType::Unverified,
            verified_at: None,
            revoked_at: Some(now),
        },
        updated_at: now,
        ..p
    }
}

/// Invalidate domain verification when the re-verification interval has
/// elapsed; otherwise change nothing.
pub fn refresh_domain_verification_status(state: &mut Tipz, creator: Address, now: u64)
    requires
        old(state).wf(),
    ensures
        final(state).wf(),
        domain_lapsed(*old(state), creator, now) ==> {
            &&& *final(state) == (Tipz { profiles: final(state).profiles, ..*old(state) })
            &&& final(state).profiles@ == old(state).profiles@.insert(creator, lapsed_profile(old(state).profiles@[creator], now))
        },
        !domain_lapsed(*old(state), creator, now) ==> *final(state) == *old(state),
{
    let verified_at = match state.get_profile_opt(creator) {
        None => {
            return;
        },
        Some(profile) => {
            if !profile.domain_verified {
                return;
            }
            match profile.domain_verified_at {
                None => {
                    return;
                },
                Some(at) => at,
            }
        },
    };
    let interval = state.get_domain_reverification_interval();
    if now <= verified_at.saturating_add(interval) {
        return;
    }
    let mut profile = state.profiles.remove(&creator).unwrap();
    profile.domain_verified = false;
    profile.domain_verified_at = None;
    profile.verification = VerificationStatus {
        is_verified: false,
        verification_type: VerificationType::Unverified,
        verified_at: None,
        revoked_at: Some(now),
    };
    profile.updated_at = now;
    let ghost after = profile;
    state.set_profile(profile);
    assert(state.profiles@ =~= old(state).profiles@.insert(creator, after));
}

/// Load a profile together with its deactivation state, after lapsing an
/// expired domain verification at `now`.
///
/// Error: `NotRegistered` when `address` has no profile.
pub fn get_profile_with_deactivation(state: &mut Tipz, address: Address, now: u64) -> (r: Result<
    ProfileWithDeactivation,
    ContractError,
>)
    requires
        old(state).wf(),
    ensures
        final(state).wf(),
        domain_lapsed(*old(state), address, now) ==> {
            &&& *final(state) == (Tipz { profiles: final(state).profiles, ..*old(state) })
            &&& final(state).profiles@ == old(state).profiles@.insert(address, lapsed_profile(old(state).profiles@[address], now))
        },
        !domain_lapsed(*old(state), address, now) ==> *final(state) == *old(state),
        !old(state).profiles@.contains_key(address) ==> r == Err::<ProfileWithDeactivation, ContractError>(
            ContractError::NotRegistered,
        ),
        old(state).profiles@.contains_key(address) ==> {
            &&& r is Ok
            &&& r->Ok_0.profile@ == final(state).profiles@[address]@
            &&& r->Ok_0.is_deactivated == old(state).deactivated_at@.contains_key(address)
            &&& r->Ok_0.deactivated_at == old(state).deactivated_at@.get(address)
        },
{
    refresh_domain_verification_status(state, address, now);
    let profile = match state.get_profile_opt(address) {
        Some(p) => copy_profile(p),
        None => {
            return Err(ContractError::NotRegistered);
        },
    };
    let deactivated_at = state.get_profile_deactivated_at(address);
    let is_deactivated = deactivated_at.is_some();
    Ok(ProfileWithDeactivation { profile, is_deactivated, deactivated_at })
}

/// Set the domain to verify via stellar.toml; verification becomes pending.
///
/// Errors, in this order: `ContractPaused`; `NotRegistered`; `InvalidDomain`.
pub fn set_domain(state: &mut Tipz, creator: Address, domain: Vec<u8>, now: u64) -> (r: Result<(), ContractError>)
    requires
        old(state).wf(),
    ensures
        final(state).wf(),
        old(state).spec_paused() ==> r == Err::<(), ContractError>(ContractError::ContractPaused) && *final(state) == *old(state),
        !old(state).spec_paused() && !old(state).profiles@.contains_key(creator) ==> r == Err::<(), ContractError>(
            ContractError::NotRegistered,
        ) && *final(state) == *old(state),
        !old(state).spec_paused() && old(state).profiles@.contains_key(creator) && !domain_valid(domain@) ==> r == Err::<
            (),
            ContractError,
        >(ContractError::InvalidDomain) && *final(state) == *old(state),
        !old(state).spec_paused() && old(state).profiles@.contains_key(creator) && domain_valid(domain@) ==> {
            &&& r is Ok
            &&& *final(state) == (Tipz { profiles: final(state).profiles, ..*old(state) })
            &&& final(state).profiles@ == old(state).profiles@.insert(
                creator,
                Profile {
                    domain,
                    domain_verified: false,
                    domain_verified_at: None,
                    updated_at: now,
                    ..old(state).profiles@[creator]
                },
            )
        },
{
    require_not_paused(state)?;
    if !state.has_profile(creator) {
        return Err(ContractError::NotRegistered);
    }
    validate_domain(&domain)?;
    let mut profile = state.profiles.remove(&creator).unwrap();
    profile.domain = domain;
    profile.domain_verified = false;
    profile.domain_verified_at = None;
    profile.updated_at = now;
    let ghost after = profile;
    state.set_profile(profile);
    assert(state.profiles@ =~= old(state).profiles@.insert(creator, after));
    Ok(())
}

// ── minimum tips ──

/// Set a custom minimum tip amount for the creator's profile at `now`;
/// `0` resets it to the global minimum.
///
/// Errors, in this order: `ContractPaused`; `NotRegistered`; `InvalidAmount`
/// (a negative amount).
pub fn set_min_tip(state: &mut Tipz, creator: Address, min_amount: i128, now: u64) -> (r: Result<(), ContractError>)
    requires
        old(state).wf(),
    ensures
        final(state).wf(),
        old(state).spec_paused() ==> r == Err::<(), ContractError>(ContractError::ContractPaused) && *final(state) == *old(state),
        !old(state).spec_paused() && !old(state).profiles@.contains_key(creator) ==> r == Err::<(), ContractError>(
            ContractError::NotRegistered,
        ) && *final(state) == *old(state),
        !old(state).spec_paused() && old(state).profiles@.contains_key(creator) && min_amount < 0 ==> r == Err::<
            (),
            ContractError,
        >(ContractError::InvalidAmount) && *final(state) == *old(state),
        !old(state).spec_paused() && old(state).profiles@.contains_key(creator) && min_amount >= 0 ==> {
            &&& r is Ok
            &&& *final(state) == (Tipz { profiles: final(state).profiles, ..*old(state) })
            &&& final(state).profiles@ == old(state).profiles@.insert(
                creator,
                Profile {
                    custom_min_tip: if min_amount == 0 { None } else { Some(min_amount) },
                    updated_at: now,
                    ..old(state).profiles@[creator]
                },
            )
        },
{
    require_not_paused(state)?;
    if !state.has_profile(creator) {
        return Err(ContractError::NotRegistered);
    }
    if min_amount < 0 {
        return Err(ContractError::InvalidAmount);
    }
    let mut profile = state.profiles.remove(&creator).unwrap();
    profile.custom_min_tip = if min_amount == 0 { None } else { Some(min_amount) };
    profile.updated_at = now;
    let ghost after = profile;
    state.set_profile(profile);
    assert(state.profiles@ =~= old(state).profiles@.insert(creator, after));
    Ok(())
}

/// The minimum tip a creator accepts: their own minimum when set, else the
/// global one.
///
/// Error: `NotRegistered` when the creator has no profile.
pub fn get_creator_min_tip(state: &Tipz, creator: Address) -> (r: Result<i128, ContractError>)
    requires
        state.wf(),
    ensures
        !state.profiles@.contains_key(creator) ==> r == Err::<i128, ContractError>(ContractError::NotRegistered),
        state.profiles@.contains_key(creator) ==> r == Ok::<i128, ContractError>(state.spec_effective_min_tip(creator)),
{
    if !state.has_profile(creator) {
        return Err(ContractError::NotRegistered);
    }
    Ok(state.get_effective_creator_min_tip(creator))
}


// ── deactivation ──

/// Why a change of `creator`'s activation by `caller` is refused before its
/// current state is looked at: the owner may act on their own profile, the
/// admin on any.
pub open spec fn moderation_refusal(state: Tipz, caller: Address, creator: Address) -> Option<ContractError> {
    if state.spec_paused() {
        Some(ContractError::ContractPaused)
    } else if !state.profiles@.contains_key(creator) {
        Some(ContractError::NotRegistered)
    } else if caller != creator && state.spec_admin() is None {
        Some(ContractError::NotInitialized)
    } else if caller != creator && state.spec_admin() != Some(caller) {
        Some(ContractError::NotAuthorized)
    } else {
        None
    }
}

/// The leaderboards of `new` are those of `old` without `address`; the
/// period volumes and the monthly and weekly reset times are kept.
pub open spec fn boards_without(new: Tipz, old: Tipz, address: Address) -> bool {
    &&& forall|p: LeaderboardPeriod| #[trigger] new.spec_leaderboard(p) == without_address(old.spec_leaderboard(p), address)
    &&& new.creator_period_volume@ == old.creator_period_volume@
    &&& new.creator_period_volumes@ == old.creator_period_volumes@
    &&& new.spec_last_reset(LeaderboardPeriod::Monthly) == old.spec_last_reset(LeaderboardPeriod::Monthly)
    &&& new.spec_last_reset(LeaderboardPeriod::Weekly) == old.spec_last_reset(LeaderboardPeriod::Weekly)
}

/// Checks shared by deactivation and reactivation.
fn check_moderation(state: &Tipz, caller: Address, creator: Address) -> (r: Result<(), ContractError>)
    requires
        state.wf(),
    ensures
        match moderation_refusal(*state, caller, creator) {
            Some(e) => r == Err::<(), ContractError>(e),
            None => r is Ok,
        },
{
    require_not_paused(state)?;
    if !state.has_profile(creator) {
        return Err(ContractError::NotRegistered);
    }
    if caller.id != creator.id {
        require_admin(state, caller)?;
    }
    Ok(())
}

/// Temporarily deactivate a creator profile at `now` (by its owner or the
/// admin): it leaves every leaderboard and takes no tips; its data and
/// balance stay.
///
/// Errors, in this order: `ContractPaused`; `NotRegistered`;
/// `NotInitialized` or `NotAuthorized` (another caller than the owner who is
/// not the admin); `AlreadyDeactivated`.
pub fn deactivate_profile(state: &mut Tipz, caller: Address, creator: Address, now: u64) -> (r: Result<
    (),
    ContractError,
>)
    requires
        old(state).wf(),
    ensures
        final(state).wf(),
        moderation_refusal(*old(state), caller, creator) matches Some(e) ==> r == Err::<(), ContractError>(e)
            && *final(state) == *old(state),
        moderation_refusal(*old(state), caller, creator) is None && old(state).deactivated_at@.contains_key(creator)
            ==> r == Err::<(), ContractError>(ContractError::AlreadyDeactivated) && *final(state) == *old(state),
        moderation_refusal(*old(state), caller, creator) is None && !old(state).deactivated_at@.contains_key(creator) ==> {
            &&& r is Ok
            &&& only_boards_changed(*final(state), Tipz { deactivated_at: final(state).deactivated_at, ..*old(state) })
            &&& final(state).deactivated_at@ == old(state).deactivated_at@.insert(creator, now)
            &&& boards_without(*final(state), *old(state), creator)
        },
{
    check_moderation(state, caller, creator)?;
    if state.is_profile_deactivated(creator) {
        return Err(ContractError::AlreadyDeactivated);
    }
    state.set_profile_deactivated_at(creator, now);
    let ghost mid = *state;
    remove_from_all_leaderboards(state, creator);
    assert forall|p: LeaderboardPeriod| #[trigger] state.spec_leaderboard(p) == without_address(
        old(state).spec_leaderboard(p),
        creator,
    ) by {
        assert(mid.spec_leaderboard(p) == old(state).spec_leaderboard(p));
    }
    Ok(())
}

/// Restore a deactivated profile (by its owner or the admin): it is active
/// again and its entries on the leaderboards are refreshed.
///
/// Errors, in this order: `ContractPaused`; `NotRegistered`;
/// `NotInitialized` or `NotAuthorized`; `ProfileNotDeactivated`.
pub fn reactivate_profile(state: &mut Tipz, caller: Address, creator: Address) -> (r: Result<(), ContractError>)
    requires
        old(state).wf(),
    ensures
        final(state).wf(),
        moderation_refusal(*old(state), caller, creator) matches Some(e) ==> r == Err::<(), ContractError>(e)
            && *final(state) == *old(state),
        moderation_refusal(*old(state), caller, creator) is None && !old(state).deactivated_at@.contains_key(creator)
            ==> r == Err::<(), ContractError>(ContractError::ProfileNotDeactivated) && *final(state) == *old(state),
        moderation_refusal(*old(state), caller, creator) is None && old(state).deactivated_at@.contains_key(creator) ==> {
            let mid = Tipz { deactivated_at: final(state).deactivated_at, ..*old(state) };
            &&& r is Ok
            &&& final(state).deactivated_at@ == old(state).deactivated_at@.remove(creator)
            &&& only_boards_changed(*final(state), mid)
            &&& boards_after_tip(*final(state), mid, old(state).profiles@[creator], 0)
        },
{
    check_moderation(state, caller, creator)?;
    if !state.is_profile_deactivated(creator) {
        return Err(ContractError::ProfileNotDeactivated);
    }
    state.clear_profile_deactivation(creator);
    let profile = copy_profile(state.get_profile(creator));
    let ghost mid = *state;
    update_all_leaderboards(state, &profile, 0);
    proof {
        let stored = old(state).profiles@[creator];
        lemma_entry_of_view(profile, stored, stored.total_tips_received);
        assert(profile.owner == stored.owner);
        assert(profile.total_tips_received == stored.total_tips_received);
        let v = crate::storage::rolled_volumes(
            mid.creator_period_volumes@.get(creator),
            mid.spec_last_reset(LeaderboardPeriod::Monthly),
            mid.spec_last_reset(LeaderboardPeriod::Weekly),
            0,
        );
        lemma_entry_of_view(profile, stored, v.monthly);
        lemma_entry_of_view(profile, stored, v.weekly);
    }
    Ok(())
}

// ── removal ──

/// Why [`deregister_profile`] refuses, if it does.
pub open spec fn deregister_refusal(state: Tipz, caller: Address) -> Option<ContractError> {
    if state.spec_paused() {
        Some(ContractError::ContractPaused)
    } else if !state.profiles@.contains_key(caller) {
        Some(ContractError::NotRegistered)
    } else if state.profiles@[caller].balance > 0 {
        Some(ContractError::BalanceNotZero)
    } else {
        None
    }
}

/// Deregister the caller's profile, removing it from the platform: the
/// profile, its username reservation, its deactivation mark, its
/// leaderboard entries and its tip indexes (as creator and as tipper) go,
/// and the creator count drops by one (not below zero).
///
/// Errors, in this order: `ContractPaused`; `NotRegistered`;
/// `BalanceNotZero` (tips not withdrawn yet).
pub fn deregister_profile(state: &mut Tipz, caller: Address) -> (r: Result<(), ContractError>)
    requires
        old(state).wf(),
    ensures
        final(state).wf(),
        deregister_refusal(*old(state), caller) matches Some(e) ==> r == Err::<(), ContractError>(e)
            && *final(state) == *old(state),
        deregister_refusal(*old(state), caller) is None ==> {
            let creators = or_default(old(state).total_creators, 0);
            &&& r is Ok
            &&& final(state).profiles@ == old(state).profiles@.remove(caller)
            &&& final(state).usernames@ == old(state).usernames@.remove(old(state).profiles@[caller].username@)
            &&& final(state).deactivated_at@ == old(state).deactivated_at@.remove(caller)
            &&& final(state).total_creators == (if creators > 0 {
                Some((creators - 1) as u32)
            } else {
                old(state).total_creators
            })
            &&& boards_without(*final(state), *old(state), caller)
            &&& final(state).creator_tips@ == old(state).creator_tips@.remove_keys(
                Set::new(|k: (Address, u32)| k.0 == caller && k.1 < old(state).spec_creator_tip_count(caller)),
            )
            &&& final(state).creator_tip_count@ == old(state).creator_tip_count@.remove(caller)
            &&& final(state).tipper_tips@ == old(state).tipper_tips@.remove_keys(
                Set::new(|k: (Address, u32)| k.0 == caller && k.1 < old(state).spec_tipper_tip_count(caller)),
            )
            &&& final(state).tipper_tip_count@ == old(state).tipper_tip_count@.remove(caller)
            &&& *final(state) == (Tipz {
                profiles: final(state).profiles,
                usernames: final(state).usernames,
                deactivated_at: final(state).deactivated_at,
                total_creators: final(state).total_creators,
                leaderboard_set: final(state).leaderboard_set,
                leaderboard_all_time: final(state).leaderboard_all_time,
                leaderboard_monthly: final(state).leaderboard_monthly,
                leaderboard_weekly: final(state).leaderboard_weekly,
                last_reset_all_time: final(state).last_reset_all_time,
                last_reset_monthly: final(state).last_reset_monthly,
                last_reset_weekly: final(state).last_reset_weekly,
                creator_period_volumes: final(state).creator_period_volumes,
                creator_period_volume: final(state).creator_period_volume,
                creator_tips: final(state).creator_tips,
                creator_tip_count: final(state).creator_tip_count,
                tipper_tips: final(state).tipper_tips,
                tipper_tip_count: final(state).tipper_tip_count,
                ..*old(state)
            })
        },
{
    require_not_paused(state)?;
    let (username, balance) = match state.get_profile_opt(caller) {
        Some(p) => (copy_bytes(&p.username), p.balance),
        None => {
            return Err(ContractError::NotRegistered);
        },
    };
    if balance > 0 {
        return Err(ContractError::BalanceNotZero);
    }
    let ghost s0 = *state;
    state.clear_profile_deactivation(caller);
    state.remove_profile(caller);
    state.remove_username_address(&username);
    state.decrement_total_creators();
    let ghost s1 = *state;
    remove_from_all_leaderboards(state, caller);
    let ghost s2 = *state;
    state.reset_creator_tip_index(caller);
    state.reset_tipper_tip_index(caller);
    assert forall|p: LeaderboardPeriod| #[trigger] state.spec_leaderboard(p) == without_address(
        old(state).spec_leaderboard(p),
        caller,
    ) by {
        assert(s1.spec_leaderboard(p) == old(state).spec_leaderboard(p));
        assert(state.spec_leaderboard(p) == s2.spec_leaderboard(p));
    }
    Ok(())
}

// ── donation pages ──

/// Why [`set_donation_page`] refuses, if it does.
pub open spec fn page_refusal(state: Tipz, creator: Address, config: PageView) -> Option<ContractError> {
    if state.spec_paused() {
        Some(ContractError::ContractPaused)
    } else if !state.profiles@.contains_key(creator) {
        Some(ContractError::NotRegistered)
    } else if config.welcome_message.len() > MAX_WELCOME_MESSAGE_LEN {
        Some(ContractError::MessageTooLong)
    } else if config.suggested_amounts.len() > MAX_SUGGESTED_AMOUNTS {
        Some(ContractError::InvalidAmount)
    } else if config.header_image_uri.len() > MAX_HEADER_IMAGE_URI_LEN {
        Some(ContractError::InvalidImageUrl)
    } else if config.theme_color.len() != 0 && config.theme_color.len() != THEME_COLOR_LEN {
        Some(ContractError::InvalidAmount)
    } else {
        None
    }
}

/// Set a custom donation page for a creator.
///
/// Errors, in this order: `ContractPaused`; `NotRegistered`;
/// `MessageTooLong` (welcome message over 500 bytes); `InvalidAmount` (more
/// than 6 suggested amounts); `InvalidImageUrl` (header image URI over 256
/// bytes); `InvalidAmount` (a theme colour that is neither empty nor 7 bytes
/// long).
pub fn set_donation_page(state: &mut Tipz, creator: Address, config: DonationPageConfig) -> (r: Result<
    (),
    ContractError,
>)
    requires
        old(state).wf(),
    ensures
        final(state).wf(),
        match page_refusal(*old(state), creator, config@) {
            Some(e) => r == Err::<(), ContractError>(e) && *final(state) == *old(state),
            None => {
                &&& r is Ok
                &&& *final(state) == (Tipz { donation_pages: final(state).donation_pages, ..*old(state) })
                &&& final(state).donation_pages@ == old(state).donation_pages@.insert(creator, config)
            },
        },
{
    require_not_paused(state)?;
    if !state.has_profile(creator) {
        return Err(ContractError::NotRegistered);
    }
    if config.welcome_message.len() > MAX_WELCOME_MESSAGE_LEN {
        return Err(ContractError::MessageTooLong);
    }
    if config.suggested_amounts.len() > MAX_SUGGESTED_AMOUNTS {
        return Err(ContractError::InvalidAmount);
    }
    if config.header_image_uri.len() > MAX_HEADER_IMAGE_URI_LEN {
        return Err(ContractError::InvalidImageUrl);
    }
    // A theme colour is `#rrggbb`.
    if config.theme_color.len() != 0 && config.theme_color.len() != THEME_COLOR_LEN {
        return Err(ContractError::InvalidAmount);
    }
    state.set_donation_page(creator, config);
    Ok(())
}

/// The page shown for a creator who has not set one: the welcome message
/// "Support my work!", suggested amounts of 5, 10, 25 and 50 XLM (in
/// stroops), the theme colour "#3b82f6" and no header image.
pub open spec fn default_page_view() -> PageView {
    PageView {
        welcome_message: seq![
            0x53u8, 0x75u8, 0x70u8, 0x70u8, 0x6fu8, 0x72u8, 0x74u8, 0x20u8,
            0x6du8, 0x79u8, 0x20u8, 0x77u8, 0x6fu8, 0x72u8, 0x6bu8, 0x21u8,
        ],
        suggested_amounts: seq![5_000_000i128, 10_000_000i128, 25_000_000i128, 50_000_000i128],
        theme_color: seq![0x23u8, 0x33u8, 0x62u8, 0x38u8, 0x32u8, 0x66u8, 0x36u8],
        header_image_uri: Seq::empty(),
        is_default: true,
    }
}

/// The default donation page.
pub fn default_page() -> (r: DonationPageConfig)
    ensures
        r@ == default_page_view(),
{
    // "Support my work!"
    let welcome_message: Vec<u8> = vec![
        0x53u8, 0x75u8, 0x70u8, 0x70u8, 0x6fu8, 0x72u8, 0x74u8, 0x20u8,
        0x6du8, 0x79u8, 0x20u8, 0x77u8, 0x6fu8, 0x72u8, 0x6bu8, 0x21u8,
    ];
    // 5, 10, 25 and 50 XLM
    let suggested_amounts: Vec<i128> = vec![5_000_000i128, 10_000_000i128, 25_000_000i128, 50_000_000i128];
    // "#3b82f6"
    let theme_color: Vec<u8> = vec![0x23u8, 0x33u8, 0x62u8, 0x38u8, 0x32u8, 0x66u8, 0x36u8];
    let r = DonationPageConfig {
        welcome_message,
        suggested_amounts,
        theme_color,
        header_image_uri: Vec::new(),
        is_default: true,
    };
    assert(r@.welcome_message =~= default_page_view().welcome_message);
    assert(r@.suggested_amounts =~= default_page_view().suggested_amounts);
    assert(r@.theme_color =~= default_page_view().theme_color);
    assert(r@.header_image_uri =~= default_page_view().header_image_uri);
    r
}

/// The donation page of a creator: the one they set, else the default.
///
/// Error: `NotRegistered` when the creator has no profile.
pub fn get_donation_page(state: &Tipz, creator: Address) -> (r: Result<DonationPageConfig, ContractError>)
    requires
        state.wf(),
    ensures
        !state.profiles@.contains_key(creator) ==> r == Err::<DonationPageConfig, ContractError>(
            ContractError::NotRegistered,
        ),
        state.profiles@.contains_key(creator) ==> r is Ok && r->Ok_0@ == (if state.donation_pages@.contains_key(creator) {
            state.donation_pages@[creator]@
        } else {
            default_page_view()
        }),
{
    if !state.has_profile(creator) {
        return Err(ContractError::NotRegistered);
    }
    match state.get_donation_page(creator) {
        Some(config) => Ok(copy_page(config)),
        None => Ok(default_page()),
    }
}


// ── laws ──

/// Law: an address registers at most once and a username belongs to one
/// address: registering an address that has a profile, or a username that
/// is taken, is refused.
pub proof fn lemma_registration_unique(
    state: Tipz,
    caller: Address,
    username: Seq<u8>,
    display_name: Seq<u8>,
    bio: Seq<u8>,
    image_url: Seq<u8>,
    x_handle: Seq<u8>,
)
    requires
        state.profiles@.contains_key(caller) || state.usernames@.contains_key(username),
    ensures
        registration_refusal(state, caller, username, display_name, bio, image_url, x_handle) is Some,
{
}

/// Law: after a profile is deregistered (its profile and username
/// reservation removed, as [`deregister_profile`] does), its owner may
/// register again under the same username: neither `AlreadyRegistered` nor
/// `UsernameTaken` refuses it.
pub proof fn lemma_register_after_deregister(
    before: Tipz,
    after: Tipz,
    caller: Address,
    display_name: Seq<u8>,
    bio: Seq<u8>,
    image_url: Seq<u8>,
    x_handle: Seq<u8>,
)
    requires
        before.profiles@.contains_key(caller),
        after.profiles@ == before.profiles@.remove(caller),
        after.usernames@ == before.usernames@.remove(before.profiles@[caller].username@),
    ensures
        ({
            let refusal = registration_refusal(
                after,
                caller,
                before.profiles@[caller].username@,
                display_name,
                bio,
                image_url,
                x_handle,
            );
            &&& refusal != Some(ContractError::AlreadyRegistered)
            &&& refusal != Some(ContractError::UsernameTaken)
        }),
{
}

/// Law: a deactivated creator takes no tips, sent directly or on behalf of
/// someone else.
pub proof fn lemma_deactivated_takes_no_tips(
    state: Tipz,
    sender: Address,
    on_behalf_of: Address,
    creator: Address,
    amount: i128,
    message: Seq<u8>,
    now: u64,
)
    requires
        state.deactivated_at@.contains_key(creator),
    ensures
        send_tip_refusal(state, sender, creator, amount, message, now) is Some,
        send_tip_on_behalf_refusal(state, sender, on_behalf_of, creator, amount, message, now) is Some,
{
}

/// Law: while a creator is deactivated, a tip changes no leaderboard
/// (the update skips deactivated profiles), and deactivation itself leaves
/// the creator on no leaderboard.
pub proof fn lemma_deactivated_off_boards(before: Tipz, after: Tipz, creator: Address)
    requires
        boards_without(after, before, creator),
    ensures
        forall|p: LeaderboardPeriod, i: int|
            0 <= i < after.spec_leaderboard(p).len() ==> #[trigger] after.spec_leaderboard(p)[i].address != creator,
{
    assert forall|p: LeaderboardPeriod, i: int|
        0 <= i < after.spec_leaderboard(p).len() implies #[trigger] after.spec_leaderboard(p)[i].address != creator by {
        before.spec_leaderboard(p).lemma_filter_pred(crate::leaderboard::not_of(creator), i);
    }
}

/// Law: a creator without a minimum of their own (never set, or reset with
/// 0) accepts the global minimum.
pub proof fn lemma_min_tip_falls_back(state: Tipz, creator: Address)
    requires
        state.profiles@.contains_key(creator),
        state.profiles@[creator].custom_min_tip is None,
    ensures
        state.spec_effective_min_tip(creator) == state.spec_min_tip_amount(),
{
}

/// Law: a freshly registered profile is read back as registered: its
/// domain is not verified, so reading it never revokes anything.
pub proof fn lemma_new_profile_reads_back(
    state: Tipz,
    caller: Address,
    username: Seq<u8>,
    display_name: Seq<u8>,
    bio: Seq<u8>,
    image_url: Seq<u8>,
    x_handle: Seq<u8>,
    registered: u64,
    now: u64,
)
    requires
        state.profiles@.contains_key(caller),
        state.profiles@[caller]@ == new_profile_view(caller, username, display_name, bio, image_url, x_handle, registered),
    ensures
        !domain_lapsed(state, caller, now),
{
}


/// Law: a creator's own minimum decides their tips, whatever the global
/// minimum is: a tip of at least that minimum passes the minimum check, and
/// a smaller one is refused as `BelowCreatorMinimum`.
pub proof fn lemma_own_min_tip_decides(state: Tipz, creator: Address, min: i128, amount: i128)
    requires
        state.profiles@.contains_key(creator),
        state.profiles@[creator].custom_min_tip == Some(min),
    ensures
        amount >= min ==> min_tip_refusal(state, creator, amount) is None,
        amount < min ==> min_tip_refusal(state, creator, amount) == Some(ContractError::BelowCreatorMinimum),
{
}

/// Law: an update stores every field given as `Some` exactly as given (the
/// X handle with a leading `@` added when it has none), keeps every field
/// given as `None` and every field an update cannot touch, and stamps the
/// update time.
pub proof fn lemma_update_stores_given_fields(
    p: ProfileView,
    display_name: Option<Seq<u8>>,
    bio: Option<Seq<u8>>,
    image_url: Option<Seq<u8>>,
    x_handle: Option<Seq<u8>>,
    now: u64,
)
    ensures
        ({
            let v = updated_view(p, display_name, bio, image_url, x_handle, now);
            &&& v.display_name == (match display_name { Some(d) => d, None => p.display_name })
            &&& v.bio == (match bio { Some(b) => b, None => p.bio })
            &&& v.image_url == (match image_url { Some(u) => u, None => p.image_url })
            &&& x_handle is None ==> v.x_handle == p.x_handle
            &&& (x_handle is Some && x_handle->0.len() > 0 && x_handle->0[0] == AT_SIGN) ==> v.x_handle == x_handle->0
            &&& (x_handle is Some && x_handle->0.len() > 0 && x_handle->0[0] != AT_SIGN) ==> {
                &&& v.x_handle.len() == x_handle->0.len() + 1
                &&& v.x_handle[0] == AT_SIGN
                &&& v.x_handle.skip(1) == x_handle->0
            }
            &&& v.updated_at == now
            &&& v == (ProfileView {
                display_name: v.display_name,
                bio: v.bio,
                image_url: v.image_url,
                x_handle: v.x_handle,
                updated_at: v.updated_at,
                ..p
            })
        }),
{
    if let Some(h) = x_handle {
        if h.len() > 0 && h[0] != AT_SIGN {
            assert((seq![AT_SIGN] + h).skip(1) =~= h);
        }
    }
}

} // verus!
