//! The claim-code digest and the read-only query surface.
use event_badge::hash_claim_code;
use event_badge::EventBadge;
use event_badge::EventBadgeError;
use event_badge::EventCategory;
use event_badge::QueryRoot;

#[test]
fn digest_of_empty_code_is_zero() {
    assert_eq!(hash_claim_code(""), "0");
}

#[test]
fn digest_of_single_byte_is_its_hex() {
    assert_eq!(hash_claim_code("X"), "58");
}

#[test]
fn digest_of_longer_code() {
    assert_eq!(hash_claim_code("GOLD2024"), "1d7a805bd60");
}

#[test]
fn digest_wraps_modulo_two_to_the_sixty_four() {
    assert_eq!(hash_claim_code("abcdefghijklmnop"), "116b9da68331f108");
}

#[test]
fn digest_of_non_ascii_code_uses_utf8_bytes() {
    assert_eq!(hash_claim_code("n\u{e9}"), "1b534");
}

#[test]
fn digest_matches_reference_fold() {
    let code = "any code at all";
    let expected = format!(
        "{:x}",
        code.bytes().fold(0u64, |acc, b| acc.wrapping_mul(31).wrapping_add(b as u64))
    );
    assert_eq!(hash_claim_code(code), expected);
}

fn sample_state() -> EventBadge {
    let mut state = EventBadge::new();
    state
        .create_event(
            "Meetup Night".to_string(),
            "monthly".to_string(),
            99,
            "Oslo".to_string(),
            EventCategory::Meetup,
            "ipfs://art".to_string(),
            3,
            "org".to_string(),
        )
        .unwrap();
    state
        .add_claim_codes(&vec!["alpha".to_string(), "beta".to_string()], &Some("org".to_string()))
        .unwrap();
    state
}

#[test]
fn event_info_snapshot_reflects_state() {
    let state = sample_state();
    let info = QueryRoot.event_info(&state);
    assert_eq!(info.event_name, "Meetup Night");
    assert_eq!(info.organizer, "org");
    assert_eq!(info.description, "monthly");
    assert_eq!(info.event_date, 99);
    assert_eq!(info.location, "Oslo");
    assert_eq!(info.category, EventCategory::Meetup);
    assert_eq!(info.badge_metadata_uri, "ipfs://art");
    assert_eq!(info.max_supply, 3);
    assert_eq!(info.minted_count, 0);
    assert!(info.is_active);
}

#[test]
fn badge_query_returns_owned_badge_only() {
    let mut state = sample_state();
    assert!(QueryRoot.badge(&state, "alice".to_string()).is_none());
    state.claim_badge(&"alpha".to_string(), &Some("alice".to_string())).unwrap();
    let badge = QueryRoot.badge(&state, "alice".to_string()).unwrap();
    assert_eq!(badge.token_id, 0);
    assert_eq!(badge.owner, "alice");
    assert_eq!(badge.event_name, "Meetup Night");
    assert_eq!(badge.claimed_at, 99);
    assert_eq!(badge.image_uri, "ipfs://art");
    assert_eq!(badge.category, EventCategory::Meetup);
    assert!(QueryRoot.badge(&state, "bob".to_string()).is_none());
}

#[test]
fn claim_code_validity_tracks_ledger() {
    let mut state = sample_state();
    assert!(QueryRoot.is_claim_code_valid(&state, "alpha".to_string()));
    assert!(QueryRoot.is_claim_code_valid(&state, "beta".to_string()));
    assert!(!QueryRoot.is_claim_code_valid(&state, "gamma".to_string()));
    state.claim_badge(&"alpha".to_string(), &Some("alice".to_string())).unwrap();
    assert!(!QueryRoot.is_claim_code_valid(&state, "alpha".to_string()));
    assert!(QueryRoot.is_claim_code_valid(&state, "beta".to_string()));
}

#[test]
fn total_minted_and_is_active_follow_operations() {
    let mut state = sample_state();
    assert_eq!(QueryRoot.total_minted(&state), 0);
    assert!(QueryRoot.is_active(&state));
    state.claim_badge(&"alpha".to_string(), &Some("alice".to_string())).unwrap();
    assert_eq!(QueryRoot.total_minted(&state), 1);
    state.set_event_active(false, &Some("org".to_string())).unwrap();
    assert!(!QueryRoot.is_active(&state));
    assert_eq!(QueryRoot.total_minted(&state), 1);
}

#[test]
fn error_messages_are_the_documented_texts() {
    assert_eq!(
        EventBadgeError::NotAuthorized.message(),
        "Not authorized: only the organizer can perform this action"
    );
    assert_eq!(EventBadgeError::EventNotActive.message(), "Event is not active for claiming");
    assert_eq!(EventBadgeError::InvalidClaimCode.message(), "Invalid claim code");
    assert_eq!(EventBadgeError::ClaimCodeUsed.message(), "Claim code already used");
    assert_eq!(
        EventBadgeError::AlreadyClaimed.message(),
        "Badge already claimed by this attendee"
    );
    assert_eq!(EventBadgeError::MaxSupplyReached.message(), "Maximum supply reached");
    assert_eq!(EventBadgeError::BadgeNotFound.message(), "Badge not found");
    assert_eq!(EventBadgeError::EventNotInitialized.message(), "Event not initialized");
    assert_eq!(EventBadgeError::AlreadyInitialized.message(), "Event already initialized");
}

#[test]
fn default_category_is_meetup() {
    assert_eq!(EventCategory::default(), EventCategory::Meetup);
}
