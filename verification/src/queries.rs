//! The read-only query surface: snapshots of a fully-settled state.
//! None of these mutate the stores; the issuance state machine in
//! `machine` is the only writer.
use vstd::prelude::*;

use crate::hash::code_digest;
use crate::hash::hash_claim_code;
use crate::state::lookup;
use crate::state::EventBadge;
use crate::BadgeInfo;
use crate::EventInfo;

verus! {

/// Root of the read-only query surface.
pub struct QueryRoot;

impl QueryRoot {
    /// The event descriptor snapshot.
    pub fn event_info(&self, state: &EventBadge) -> (r: EventInfo)
        ensures
            r.event_name == state.event_name,
            r.organizer == state.organizer,
            r.description == state.description,
            r.event_date == state.event_date,
            r.location == state.location,
            r.category == state.category,
            r.badge_metadata_uri == state.badge_metadata_uri,
            r.max_supply == state.max_supply,
            r.minted_count == state.minted_count,
            r.is_active == state.is_active,
    {
        EventInfo {
            event_name: state.event_name.clone(),
            organizer: state.organizer.clone(),
            description: state.description.clone(),
            event_date: state.event_date,
            location: state.location.clone(),
            category: state.category,
            badge_metadata_uri: state.badge_metadata_uri.clone(),
            max_supply: state.max_supply,
            minted_count: state.minted_count,
            is_active: state.is_active,
        }
    }

    /// The badge held by `owner`, if any.
    pub fn badge(&self, state: &EventBadge, owner: String) -> (r: Option<BadgeInfo>)
        requires
            state.wf(),
        ensures
            match r {
                Some(b) => {
                    &&& state.badges().contains_key(owner@)
                    &&& b.token_id == state.badges()[owner@]
                    &&& b.owner == owner
                    &&& b.event_name == state.event_name
                    &&& b.claimed_at == state.event_date
                    &&& b.image_uri == state.badge_metadata_uri
                    &&& b.category == state.category
                },
                None => !state.badges().contains_key(owner@),
            },
    {
        match lookup(&state.claimed_badges, &owner) {
            Some(token_id) => Some(
                BadgeInfo {
                    token_id,
                    owner,
                    event_name: state.event_name.clone(),
                    claimed_at: state.event_date,
                    image_uri: state.badge_metadata_uri.clone(),
                    category: state.category,
                },
            ),
            None => None,
        }
    }

    /// Whether a claim code is known to the ledger and still unused.
    pub fn is_claim_code_valid(&self, state: &EventBadge, claim_code: String) -> (r: bool)
        requires
            state.wf(),
        ensures
            r == (state.codes().contains_key(code_digest(claim_code@)) && !state.codes()[
                code_digest(claim_code@)
            ]),
    {
        let digest = hash_claim_code(claim_code.as_str());
        match lookup(&state.claim_codes, &digest) {
            Some(used) => !used,
            None => false,
        }
    }

    /// Total badges minted so far.
    pub fn total_minted(&self, state: &EventBadge) -> (r: u64)
        ensures
            r == state.minted_count,
    {
        state.minted_count
    }

    /// Whether the event currently accepts claims.
    pub fn is_active(&self, state: &EventBadge) -> (r: bool)
        ensures
            r == state.is_active,
    {
        state.is_active
    }
}

} // verus!
