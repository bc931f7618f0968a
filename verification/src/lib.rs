//! Event badge issuance: a single-event ledger that mints non-fungible
//! attendance badges to callers who redeem a one-time claim code, under
//! supply and authorization constraints set by the event organizer.
//!
//! The library is the badge-issuance state machine: the operations that
//! mutate event, claim-code and ownership state, the invariants they
//! preserve, and the outgoing notification produced by a mint. A host
//! runtime owns persistence and transport; it resolves the caller's
//! identity, hands each operation to [`EventBadge::execute_operation`],
//! and persists the resulting state.
use vstd::prelude::*;

mod hash;
mod machine;
mod queries;
mod state;

pub use hash::code_digest;
pub use hash::hash_claim_code;
pub use queries::QueryRoot;
pub use state::EventBadge;

verus! {

/// Application binary interface marker. The host runtime ties this to its
/// transport layer; the library only names it.
pub struct EventBadgeAbi;

/// Event categories.
#[derive(Clone, Copy, Debug, PartialEq, Eq)]
pub enum EventCategory {
    Conference,
    Hackathon,
    Meetup,
    Workshop,
}

impl Default for EventCategory {
    fn default() -> (r: Self)
        ensures
            r == EventCategory::Meetup,
    {
        EventCategory::Meetup
    }
}

/// Badge metadata snapshot handed to off-chain consumers.
#[derive(Clone, Debug, PartialEq)]
pub struct BadgeMetadata {
    pub token_id: u64,
    pub event_name: String,
    pub owner: String,
    pub claimed_at: u64,
    pub image_uri: String,
    pub category: EventCategory,
}

/// Response from operations.
#[derive(Clone, Debug, PartialEq)]
pub enum OperationResponse {
    Success,
    BadgeClaimed { token_id: u64 },
    Error(String),
}

/// Operations that can be performed on the event badge application.
#[derive(Clone, Debug, PartialEq)]
pub enum Operation {
    /// Initialize a new event (called by the organizer).
    CreateEvent {
        event_name: String,
        description: String,
        event_date: u64,
        location: String,
        category: EventCategory,
        badge_metadata_uri: String,
        max_supply: u64,
    },
    /// Claim a badge using a claim code.
    ClaimBadge { claim_code: String },
    /// Add claim codes to the event (organizer only).
    AddClaimCodes { codes: Vec<String> },
    /// Activate or deactivate the event for claiming.
    SetEventActive { is_active: bool },
    /// Transfer a badge to another owner.
    TransferBadge { token_id: u64, new_owner: String },
}

/// Event descriptor snapshot for the query surface.
#[derive(Clone, Debug, PartialEq)]
pub struct EventInfo {
    pub event_name: String,
    pub organizer: String,
    pub description: String,
    pub event_date: u64,
    pub location: String,
    pub category: EventCategory,
    pub badge_metadata_uri: String,
    pub max_supply: u64,
    pub minted_count: u64,
    pub is_active: bool,
}

/// Badge snapshot for the query surface.
#[derive(Clone, Debug, PartialEq)]
pub struct BadgeInfo {
    pub token_id: u64,
    pub owner: String,
    pub event_name: String,
    pub claimed_at: u64,
    pub image_uri: String,
    pub category: EventCategory,
}

/// Outcome summary of a claim attempt, for callers that want a plain record.
#[derive(Clone, Debug, PartialEq)]
pub struct ClaimResult {
    pub success: bool,
    pub token_id: Option<u64>,
    pub message: String,
}

/// Error kinds. Every operation failure is one of these typed values;
/// no operation is fatal and a failed operation mutates nothing.
#[derive(Clone, Copy, Debug, PartialEq, Eq)]
pub enum EventBadgeError {
    NotAuthorized,
    EventNotActive,
    InvalidClaimCode,
    ClaimCodeUsed,
    AlreadyClaimed,
    MaxSupplyReached,
    BadgeNotFound,
    EventNotInitialized,
    AlreadyInitialized,
}

/// The caller-facing text of each error kind.
pub open spec fn error_text(e: EventBadgeError) -> Seq<char> {
    match e {
        EventBadgeError::NotAuthorized => "Not authorized: only the organizer can perform this action"@,
        EventBadgeError::EventNotActive => "Event is not active for claiming"@,
        EventBadgeError::InvalidClaimCode => "Invalid claim code"@,
        EventBadgeError::ClaimCodeUsed => "Claim code already used"@,
        EventBadgeError::AlreadyClaimed => "Badge already claimed by this attendee"@,
        EventBadgeError::MaxSupplyReached => "Maximum supply reached"@,
        EventBadgeError::BadgeNotFound => "Badge not found"@,
        EventBadgeError::EventNotInitialized => "Event not initialized"@,
        EventBadgeError::AlreadyInitialized => "Event already initialized"@,
    }
}

impl EventBadgeError {
    /// The message the host surfaces verbatim to the caller.
    pub fn message(&self) -> (r: String)
        ensures
            r@ == error_text(*self),
    {
        match self {
            EventBadgeError::NotAuthorized => "Not authorized: only the organizer can perform this action".to_owned(),
            EventBadgeError::EventNotActive => "Event is not active for claiming".to_owned(),
            EventBadgeError::InvalidClaimCode => "Invalid claim code".to_owned(),
            EventBadgeError::ClaimCodeUsed => "Claim code already used".to_owned(),
            EventBadgeError::AlreadyClaimed => "Badge already claimed by this attendee".to_owned(),
            EventBadgeError::MaxSupplyReached => "Maximum supply reached".to_owned(),
            EventBadgeError::BadgeNotFound => "Badge not found".to_owned(),
            EventBadgeError::EventNotInitialized => "Event not initialized".to_owned(),
            EventBadgeError::AlreadyInitialized => "Event already initialized".to_owned(),
        }
    }
}

/// Cross-chain notification emitted by a successful mint.
#[derive(Clone, Debug, PartialEq)]
pub enum Message {
    /// Notify other chains that a badge was minted.
    BadgeMinted { token_id: u64, owner: String, event_name: String },
}

} // verus!
