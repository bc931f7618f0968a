//! End-to-end exercises of the issuance state machine through the
//! dispatcher and the direct operation handlers.
use event_badge::EventBadge;
use event_badge::QueryRoot;
use event_badge::EventBadgeError;
use event_badge::EventCategory;
use event_badge::Message;
use event_badge::Operation;
use event_badge::OperationResponse;

fn created(max_supply: u64) -> EventBadge {
    let mut state = EventBadge::new();
    let r = state.create_event(
        "RustConf".to_string(),
        "A conference".to_string(),
        1_700_000_000,
        "Berlin".to_string(),
        EventCategory::Conference,
        "ipfs://badge".to_string(),
        max_supply,
        "org".to_string(),
    );
    assert!(r.is_ok());
    state
}

fn armed(max_supply: u64, codes: &[&str]) -> EventBadge {
    let mut state = created(max_supply);
    let codes: Vec<String> = codes.iter().map(|c| c.to_string()).collect();
    let r = state.add_claim_codes(&codes, &Some("org".to_string()));
    assert!(r.is_ok());
    state
}

#[test]
fn create_event_initializes_record() {
    let state = created(10);
    assert_eq!(state.event_name, "RustConf");
    assert_eq!(state.organizer, "org");
    assert_eq!(state.description, "A conference");
    assert_eq!(state.event_date, 1_700_000_000);
    assert_eq!(state.location, "Berlin");
    assert_eq!(state.category, EventCategory::Conference);
    assert_eq!(state.badge_metadata_uri, "ipfs://badge");
    assert_eq!(state.max_supply, 10);
    assert_eq!(state.minted_count, 0);
    assert!(state.is_active);
}

#[test]
fn create_event_twice_fails_and_alters_nothing() {
    let mut state = created(10);
    let before = state.clone();
    let r = state.create_event(
        "Other".to_string(),
        "other".to_string(),
        1,
        "elsewhere".to_string(),
        EventCategory::Meetup,
        "uri".to_string(),
        99,
        "intruder".to_string(),
    );
    assert_eq!(r, Err(EventBadgeError::AlreadyInitialized));
    assert_eq!(state.event_name, before.event_name);
    assert_eq!(state.organizer, before.organizer);
    assert_eq!(state.description, before.description);
    assert_eq!(state.event_date, before.event_date);
    assert_eq!(state.location, before.location);
    assert_eq!(state.category, before.category);
    assert_eq!(state.badge_metadata_uri, before.badge_metadata_uri);
    assert_eq!(state.max_supply, before.max_supply);
    assert_eq!(state.minted_count, before.minted_count);
    assert_eq!(state.is_active, before.is_active);
}

#[test]
fn operations_before_create_fail_not_initialized() {
    let mut state = EventBadge::new();
    let caller = Some("alice".to_string());
    assert_eq!(
        state.claim_badge(&"X".to_string(), &caller),
        Err(EventBadgeError::EventNotInitialized)
    );
    assert_eq!(
        state.add_claim_codes(&vec!["X".to_string()], &caller),
        Err(EventBadgeError::EventNotInitialized)
    );
    assert_eq!(
        state.set_event_active(true, &caller),
        Err(EventBadgeError::EventNotInitialized)
    );
    assert_eq!(
        state.transfer_badge(0, "bob".to_string(), &caller),
        Err(EventBadgeError::EventNotInitialized)
    );
    assert_eq!(state.minted_count, 0);
}

#[test]
fn successful_claim_mints_and_notifies() {
    let mut state = armed(10, &["X"]);
    let minted_before = state.minted_count;
    let (resp, msg) = state.execute_operation(
        Operation::ClaimBadge { claim_code: "X".to_string() },
        Some("attendee".to_string()),
    );
    assert_eq!(resp, OperationResponse::BadgeClaimed { token_id: minted_before });
    assert_eq!(
        msg,
        Some(Message::BadgeMinted {
            token_id: minted_before,
            owner: "attendee".to_string(),
            event_name: "RustConf".to_string(),
        })
    );
    assert_eq!(state.minted_count, minted_before + 1);
    assert!(state.verify_badge(minted_before, &"attendee".to_string()));
}

#[test]
fn token_ids_start_at_zero_and_increase() {
    let mut state = armed(10, &["a", "b", "c"]);
    let one = Some("u1".to_string());
    let two = Some("u2".to_string());
    let three = Some("u3".to_string());
    assert_eq!(state.claim_badge(&"a".to_string(), &one), Ok(0));
    assert_eq!(state.claim_badge(&"b".to_string(), &two), Ok(1));
    assert_eq!(state.claim_badge(&"c".to_string(), &three), Ok(2));
    assert_eq!(state.minted_count, 3);
}

#[test]
fn claim_with_unknown_code_fails_invalid() {
    let mut state = armed(10, &["X"]);
    let before_minted = state.minted_count;
    let r = state.claim_badge(&"WRONG".to_string(), &Some("alice".to_string()));
    assert_eq!(r, Err(EventBadgeError::InvalidClaimCode));
    assert_eq!(state.minted_count, before_minted);
    assert!(QueryRoot.badge(&state, "alice".to_string()).is_none());
}

#[test]
fn claim_with_consumed_code_fails_used() {
    let mut state = armed(10, &["X"]);
    assert!(state.claim_badge(&"X".to_string(), &Some("alice".to_string())).is_ok());
    let r = state.claim_badge(&"X".to_string(), &Some("bob".to_string()));
    assert_eq!(r, Err(EventBadgeError::ClaimCodeUsed));
    assert_eq!(state.minted_count, 1);
    assert!(QueryRoot.badge(&state, "bob".to_string()).is_none());
}

#[test]
fn second_claim_by_same_owner_fails_already_claimed() {
    let mut state = armed(10, &["a", "b"]);
    let alice = Some("alice".to_string());
    assert!(state.claim_badge(&"a".to_string(), &alice).is_ok());
    let r = state.claim_badge(&"b".to_string(), &alice);
    assert_eq!(r, Err(EventBadgeError::AlreadyClaimed));
    assert_eq!(state.minted_count, 1);
}

#[test]
fn claim_beyond_max_supply_fails() {
    let mut state = armed(1, &["a", "b"]);
    assert!(state.claim_badge(&"a".to_string(), &Some("alice".to_string())).is_ok());
    let r = state.claim_badge(&"b".to_string(), &Some("bob".to_string()));
    assert_eq!(r, Err(EventBadgeError::MaxSupplyReached));
    assert_eq!(state.minted_count, 1);
    assert!(state.minted_count <= state.max_supply);
}

#[test]
fn claim_while_inactive_fails() {
    let mut state = armed(10, &["a"]);
    assert!(state.set_event_active(false, &Some("org".to_string())).is_ok());
    let r = state.claim_badge(&"a".to_string(), &Some("alice".to_string()));
    assert_eq!(r, Err(EventBadgeError::EventNotActive));
}

#[test]
fn claim_with_unresolved_caller_fails() {
    let mut state = armed(10, &["a"]);
    let r = state.claim_badge(&"a".to_string(), &None);
    assert_eq!(r, Err(EventBadgeError::NotAuthorized));
}

#[test]
fn add_claim_codes_by_non_organizer_fails() {
    let mut state = created(10);
    let r = state.add_claim_codes(&vec!["a".to_string()], &Some("mallory".to_string()));
    assert_eq!(r, Err(EventBadgeError::NotAuthorized));
    let r = state.add_claim_codes(&vec!["a".to_string()], &None);
    assert_eq!(r, Err(EventBadgeError::NotAuthorized));
}

#[test]
fn re_adding_a_used_code_re_arms_it() {
    let mut state = armed(10, &["X"]);
    assert!(state.claim_badge(&"X".to_string(), &Some("alice".to_string())).is_ok());
    assert!(state.add_claim_codes(&vec!["X".to_string()], &Some("org".to_string())).is_ok());
    let r = state.claim_badge(&"X".to_string(), &Some("bob".to_string()));
    assert_eq!(r, Ok(1));
}

#[test]
fn set_event_active_by_non_organizer_fails_and_changes_nothing() {
    let mut state = created(10);
    let active_before = state.is_active;
    let (resp, msg) = state.execute_operation(
        Operation::SetEventActive { is_active: false },
        Some("mallory".to_string()),
    );
    assert_eq!(
        resp,
        OperationResponse::Error(
            "Not authorized: only the organizer can perform this action".to_string()
        )
    );
    assert_eq!(msg, None);
    assert_eq!(state.is_active, active_before);
}

#[test]
fn set_event_active_toggles_gate() {
    let mut state = created(10);
    let org = Some("org".to_string());
    assert!(state.set_event_active(false, &org).is_ok());
    assert!(!state.is_active);
    assert!(state.set_event_active(true, &org).is_ok());
    assert!(state.is_active);
}

#[test]
fn transfer_moves_token_five_to_new_owner() {
    let codes = ["c0", "c1", "c2", "c3", "c4", "c5"];
    let mut state = armed(10, &codes);
    for (i, code) in codes.iter().enumerate() {
        let owner = Some(format!("owner{}", i));
        assert_eq!(state.claim_badge(&code.to_string(), &owner), Ok(i as u64));
    }
    let minted_before = state.minted_count;
    let r = state.transfer_badge(5, "newbie".to_string(), &Some("owner5".to_string()));
    assert_eq!(r, Ok(()));
    assert_eq!(QueryRoot.badge(&state, "newbie".to_string()).map(|b| b.token_id), Some(5));
    assert!(QueryRoot.badge(&state, "owner5".to_string()).is_none());
    assert_eq!(state.minted_count, minted_before);
}

#[test]
fn transfer_of_unowned_or_mismatched_token_fails() {
    let mut state = armed(10, &["a"]);
    assert_eq!(state.claim_badge(&"a".to_string(), &Some("alice".to_string())), Ok(0));
    let r = state.transfer_badge(0, "bob".to_string(), &Some("carol".to_string()));
    assert_eq!(r, Err(EventBadgeError::BadgeNotFound));
    let r = state.transfer_badge(7, "bob".to_string(), &Some("alice".to_string()));
    assert_eq!(r, Err(EventBadgeError::BadgeNotFound));
    let r = state.transfer_badge(0, "bob".to_string(), &None);
    assert_eq!(r, Err(EventBadgeError::NotAuthorized));
    assert_eq!(QueryRoot.badge(&state, "alice".to_string()).map(|b| b.token_id), Some(0));
}

#[test]
fn dispatcher_runs_full_lifecycle() {
    let mut state = EventBadge::new();
    let org = Some("org".to_string());
    let (resp, msg) = state.execute_operation(
        Operation::CreateEvent {
            event_name: "Hack Night".to_string(),
            description: "an evening".to_string(),
            event_date: 42,
            location: "Lisbon".to_string(),
            category: EventCategory::Hackathon,
            badge_metadata_uri: "uri".to_string(),
            max_supply: 2,
        },
        org.clone(),
    );
    assert_eq!(resp, OperationResponse::Success);
    assert_eq!(msg, None);

    let (resp, msg) = state.execute_operation(
        Operation::AddClaimCodes { codes: vec!["k1".to_string(), "k2".to_string()] },
        org.clone(),
    );
    assert_eq!(resp, OperationResponse::Success);
    assert_eq!(msg, None);

    let (resp, msg) = state.execute_operation(
        Operation::ClaimBadge { claim_code: "k1".to_string() },
        Some("guest".to_string()),
    );
    assert_eq!(resp, OperationResponse::BadgeClaimed { token_id: 0 });
    assert!(msg.is_some());

    let (resp, msg) = state.execute_operation(
        Operation::TransferBadge { token_id: 0, new_owner: "friend".to_string() },
        Some("guest".to_string()),
    );
    assert_eq!(resp, OperationResponse::Success);
    assert_eq!(msg, None);
    assert!(state.verify_badge(0, &"friend".to_string()));

    let (resp, msg) = state.execute_operation(
        Operation::ClaimBadge { claim_code: "k1".to_string() },
        Some("late".to_string()),
    );
    assert_eq!(resp, OperationResponse::Error("Claim code already used".to_string()));
    assert_eq!(msg, None);
}

#[test]
fn verify_badge_checks_exact_binding() {
    let mut state = armed(10, &["a"]);
    assert_eq!(state.claim_badge(&"a".to_string(), &Some("alice".to_string())), Ok(0));
    assert!(state.verify_badge(0, &"alice".to_string()));
    assert!(!state.verify_badge(1, &"alice".to_string()));
    assert!(!state.verify_badge(0, &"bob".to_string()));
}
