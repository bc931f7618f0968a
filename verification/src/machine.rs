//! The issuance state machine: validates and applies the five operations
//! against the event record, badge registry and claim-code ledger,
//! producing either a new state or a typed rejection, plus at most one
//! outgoing notification. Every operation is all-or-nothing: the first
//! failing check wins and a rejected operation mutates nothing.
use vstd::prelude::*;

use crate::hash::code_digest;
use crate::hash::hash_claim_code;
use crate::state::lookup;
use crate::state::unique_keys;
use crate::state::remove_entry;
use crate::state::upsert;
use crate::state::EventBadge;
use crate::error_text;
use crate::EventBadgeError;
use crate::EventCategory;
use crate::Message;
use crate::Operation;
use crate::OperationResponse;

verus! {

/// The caller identity as specifications see it: `None` when the host
/// could not resolve a signer.
pub open spec fn caller_view(caller: Option<String>) -> Option<Seq<char>> {
    match caller {
        Some(c) => Some(c@),
        None => None,
    }
}

/// The outcome `CreateEvent` owes: it fails exactly when the event
/// already exists.
pub open spec fn create_event_outcome(pre: EventBadge) -> Result<(), EventBadgeError> {
    if pre.is_created() {
        Err(EventBadgeError::AlreadyInitialized)
    } else {
        Ok(())
    }
}

/// The outcome `ClaimBadge` owes, checks in order: the event must exist,
/// be active, the caller must be resolved, hold no badge yet, supply must
/// remain, and the code's digest must be present and unused. On success
/// the new badge's token id is the minted count before the claim.
pub open spec fn claim_badge_outcome(
    pre: EventBadge,
    digest: Seq<char>,
    caller: Option<Seq<char>>,
) -> Result<u64, EventBadgeError> {
    if !pre.is_created() {
        Err(EventBadgeError::EventNotInitialized)
    } else if !pre.is_active {
        Err(EventBadgeError::EventNotActive)
    } else {
        match caller {
            None => Err(EventBadgeError::NotAuthorized),
            Some(owner) => {
                if pre.badges().contains_key(owner) {
                    Err(EventBadgeError::AlreadyClaimed)
                } else if pre.minted_count >= pre.max_supply {
                    Err(EventBadgeError::MaxSupplyReached)
                } else if !pre.codes().contains_key(digest) {
                    Err(EventBadgeError::InvalidClaimCode)
                } else if pre.codes()[digest] {
                    Err(EventBadgeError::ClaimCodeUsed)
                } else {
                    Ok(pre.minted_count)
                }
            },
        }
    }
}

/// The outcome an organizer-gated operation (`AddClaimCodes`,
/// `SetEventActive`) owes: the event must exist and the caller must be
/// the organizer.
pub open spec fn organizer_gated_outcome(pre: EventBadge, caller: Option<Seq<char>>) -> Result<
    (),
    EventBadgeError,
> {
    if !pre.is_created() {
        Err(EventBadgeError::EventNotInitialized)
    } else {
        match caller {
            None => Err(EventBadgeError::NotAuthorized),
            Some(c) => {
                if c != pre.organizer@ {
                    Err(EventBadgeError::NotAuthorized)
                } else {
                    Ok(())
                }
            },
        }
    }
}

/// The outcome `TransferBadge` owes: the event must exist, the caller
/// must be resolved and must hold exactly the supplied token.
pub open spec fn transfer_badge_outcome(
    pre: EventBadge,
    token_id: u64,
    caller: Option<Seq<char>>,
) -> Result<(), EventBadgeError> {
    if !pre.is_created() {
        Err(EventBadgeError::EventNotInitialized)
    } else {
        match caller {
            None => Err(EventBadgeError::NotAuthorized),
            Some(from) => {
                if !pre.badges().contains_key(from) || pre.badges()[from] != token_id {
                    Err(EventBadgeError::BadgeNotFound)
                } else {
                    Ok(())
                }
            },
        }
    }
}

/// The event-record fields no operation but `CreateEvent` may touch.
pub open spec fn event_fields_unchanged(pre: EventBadge, post: EventBadge) -> bool {
    &&& post.event_name == pre.event_name
    &&& post.organizer == pre.organizer
    &&& post.description == pre.description
    &&& post.event_date == pre.event_date
    &&& post.location == pre.location
    &&& post.category == pre.category
    &&& post.badge_metadata_uri == pre.badge_metadata_uri
    &&& post.max_supply == pre.max_supply
}

/// What a successful `CreateEvent` does: every event-record field is set
/// from the arguments, the caller becomes the organizer, nothing is
/// minted and the event opens for claims; the registries are untouched.
pub open spec fn create_applied(
    pre: EventBadge,
    post: EventBadge,
    event_name: String,
    description: String,
    event_date: u64,
    location: String,
    category: EventCategory,
    badge_metadata_uri: String,
    max_supply: u64,
    organizer: String,
) -> bool {
    &&& post.event_name == event_name
    &&& post.organizer == organizer
    &&& post.description == description
    &&& post.event_date == event_date
    &&& post.location == location
    &&& post.category == category
    &&& post.badge_metadata_uri == badge_metadata_uri
    &&& post.max_supply == max_supply
    &&& post.minted_count == 0
    &&& post.is_active
    &&& post.claimed_badges == pre.claimed_badges
    &&& post.claim_codes == pre.claim_codes
}

/// What a successful `ClaimBadge` does: the presented digest is marked
/// used, the caller is registered as owner of the next token id, the
/// minted count grows by one, and nothing else changes.
pub open spec fn claim_applied(
    pre: EventBadge,
    post: EventBadge,
    caller: Option<Seq<char>>,
    digest: Seq<char>,
) -> bool {
    match caller {
        None => false,
        Some(owner) => {
            &&& event_fields_unchanged(pre, post)
            &&& post.is_active == pre.is_active
            &&& post.minted_count == pre.minted_count + 1
            &&& post.badges() == pre.badges().insert(owner, pre.minted_count)
            &&& post.codes() == pre.codes().insert(digest, true)
        },
    }
}

/// The ledger after arming a batch of claim codes: each code's digest is
/// present and unused, earlier entries for the same digest overwritten.
pub open spec fn armed_codes(ledger: Map<Seq<char>, bool>, codes: Seq<String>) -> Map<
    Seq<char>,
    bool,
>
    decreases codes.len(),
{
    if codes.len() == 0 {
        ledger
    } else {
        armed_codes(ledger, codes.drop_last()).insert(code_digest(codes.last()@), false)
    }
}

/// What a successful `AddClaimCodes` does: the ledger is re-armed with
/// every presented code and nothing else changes. Re-adding a known
/// digest resets it to unused: this re-arms a consumed code, an explicit
/// policy of the ledger.
pub open spec fn add_codes_applied(pre: EventBadge, post: EventBadge, codes: Seq<String>) -> bool {
    &&& event_fields_unchanged(pre, post)
    &&& post.is_active == pre.is_active
    &&& post.minted_count == pre.minted_count
    &&& post.claimed_badges == pre.claimed_badges
    &&& post.codes() == armed_codes(pre.codes(), codes)
}

/// What a successful `SetEventActive` does: the activation gate takes the
/// given value and nothing else changes.
pub open spec fn set_active_applied(pre: EventBadge, post: EventBadge, is_active: bool) -> bool {
    &&& event_fields_unchanged(pre, post)
    &&& post.is_active == is_active
    &&& post.minted_count == pre.minted_count
    &&& post.claimed_badges == pre.claimed_badges
    &&& post.claim_codes == pre.claim_codes
}

/// What a successful `TransferBadge` does: ownership of the same token
/// moves from the caller to the new owner; no token is minted or
/// destroyed and the ledger is untouched.
pub open spec fn transfer_applied(
    pre: EventBadge,
    post: EventBadge,
    caller: Option<Seq<char>>,
    new_owner: Seq<char>,
    token_id: u64,
) -> bool {
    match caller {
        None => false,
        Some(from) => {
            &&& event_fields_unchanged(pre, post)
            &&& post.is_active == pre.is_active
            &&& post.minted_count == pre.minted_count
            &&& post.claim_codes == pre.claim_codes
            &&& post.badges() == pre.badges().remove(from).insert(new_owner, token_id)
        },
    }
}

/// The whole contract of `execute_operation`: for each operation, the
/// response carries the outcome its spec function owes (errors as their
/// caller-facing text), a rejected operation leaves the state untouched,
/// a successful one applies exactly its `*_applied` change, and a
/// `BadgeMinted` notification goes out for a successful claim and for
/// nothing else.
pub open spec fn dispatch_ok(
    pre: EventBadge,
    post: EventBadge,
    operation: Operation,
    caller: Option<String>,
    resp: OperationResponse,
    msg: Option<Message>,
) -> bool {
    match operation {
        Operation::CreateEvent {
            event_name,
            description,
            event_date,
            location,
            category,
            badge_metadata_uri,
            max_supply,
        } => {
            &&& msg is None
            &&& match caller {
                None => false,
                Some(organizer) => match create_event_outcome(pre) {
                    Ok(()) => {
                        &&& resp == OperationResponse::Success
                        &&& create_applied(
                            pre,
                            post,
                            event_name,
                            description,
                            event_date,
                            location,
                            category,
                            badge_metadata_uri,
                            max_supply,
                            organizer,
                        )
                    },
                    Err(e) => {
                        &&& resp matches OperationResponse::Error(m) && m@ == error_text(e)
                        &&& post == pre
                    },
                },
            }
        },
        Operation::ClaimBadge { claim_code } => {
            match claim_badge_outcome(pre, code_digest(claim_code@), caller_view(caller)) {
                Ok(token_id) => {
                    &&& resp == (OperationResponse::BadgeClaimed { token_id })
                    &&& claim_applied(pre, post, caller_view(caller), code_digest(claim_code@))
                    &&& msg matches Some(Message::BadgeMinted {
                        token_id: minted_token,
                        owner,
                        event_name,
                    }) && minted_token == token_id && Some(owner@) == caller_view(caller)
                        && event_name@ == pre.event_name@
                },
                Err(e) => {
                    &&& resp matches OperationResponse::Error(m) && m@ == error_text(e)
                    &&& post == pre
                    &&& msg is None
                },
            }
        },
        Operation::AddClaimCodes { codes } => {
            &&& msg is None
            &&& match organizer_gated_outcome(pre, caller_view(caller)) {
                Ok(()) => {
                    &&& resp == OperationResponse::Success
                    &&& add_codes_applied(pre, post, codes@)
                },
                Err(e) => {
                    &&& resp matches OperationResponse::Error(m) && m@ == error_text(e)
                    &&& post == pre
                },
            }
        },
        Operation::SetEventActive { is_active } => {
            &&& msg is None
            &&& match organizer_gated_outcome(pre, caller_view(caller)) {
                Ok(()) => {
                    &&& resp == OperationResponse::Success
                    &&& set_active_applied(pre, post, is_active)
                },
                Err(e) => {
                    &&& resp matches OperationResponse::Error(m) && m@ == error_text(e)
                    &&& post == pre
                },
            }
        },
        Operation::TransferBadge { token_id, new_owner } => {
            &&& msg is None
            &&& match transfer_badge_outcome(pre, token_id, caller_view(caller)) {
                Ok(()) => {
                    &&& resp == OperationResponse::Success
                    &&& transfer_applied(pre, post, caller_view(caller), new_owner@, token_id)
                },
                Err(e) => {
                    &&& resp matches OperationResponse::Error(m) && m@ == error_text(e)
                    &&& post == pre
                },
            }
        },
    }
}

/// Law: arming a batch leaves every presented code present and unused in
/// the ledger, whether or not it was known — or even consumed — before.
pub proof fn lemma_armed_code_present(ledger: Map<Seq<char>, bool>, codes: Seq<String>, i: int)
    requires
        0 <= i < codes.len(),
    ensures
        armed_codes(ledger, codes).contains_key(code_digest(codes[i]@)),
        !armed_codes(ledger, codes)[code_digest(codes[i]@)],
    decreases codes.len(),
{
    if i < codes.len() - 1 {
        lemma_armed_code_present(ledger, codes.drop_last(), i);
        assert(codes.drop_last()[i] == codes[i]);
    }
}

/// Law: arming a batch touches no digest outside the batch — any other
/// digest's presence and flag survive unchanged.
pub proof fn lemma_armed_codes_frame(
    ledger: Map<Seq<char>, bool>,
    codes: Seq<String>,
    other: Seq<char>,
)
    requires
        forall|j: int| 0 <= j < codes.len() ==> code_digest((#[trigger] codes[j])@) != other,
    ensures
        armed_codes(ledger, codes).contains_key(other) == ledger.contains_key(other),
        ledger.contains_key(other) ==> armed_codes(ledger, codes)[other] == ledger[other],
    decreases codes.len(),
{
    if codes.len() > 0 {
        assert(forall|j: int|
            0 <= j < codes.drop_last().len() ==> #[trigger] codes.drop_last()[j] == codes[j]);
        lemma_armed_codes_frame(ledger, codes.drop_last(), other);
    }
}

/// Law: an armed code is claimable. Once the organizer has armed a code,
/// a claim presenting that code succeeds with the next token id, for any
/// resolved caller who holds no badge, while the event is active and
/// supply remains.
pub proof fn lemma_armed_code_claimable(
    pre: EventBadge,
    post: EventBadge,
    codes: Seq<String>,
    i: int,
    u: Seq<char>,
)
    requires
        add_codes_applied(pre, post, codes),
        0 <= i < codes.len(),
        post.is_created(),
        post.is_active,
        !post.badges().contains_key(u),
        post.minted_count < post.max_supply,
    ensures
        claim_badge_outcome(post, code_digest(codes[i]@), Some(u)) == Ok::<u64, EventBadgeError>(
            post.minted_count,
        ),
{
    lemma_armed_code_present(pre.codes(), codes, i);
}

/// Law: one badge per owner. After a successful claim by `owner`, any
/// further claim by the same owner is rejected with `AlreadyClaimed`,
/// whatever code it presents.
pub proof fn lemma_claim_then_claim_again(
    pre: EventBadge,
    post: EventBadge,
    owner: Seq<char>,
    digest: Seq<char>,
    digest2: Seq<char>,
)
    requires
        pre.wf(),
        claim_badge_outcome(pre, digest, Some(owner)) is Ok,
        claim_applied(pre, post, Some(owner), digest),
    ensures
        claim_badge_outcome(post, digest2, Some(owner)) == Err::<u64, EventBadgeError>(
            EventBadgeError::AlreadyClaimed,
        ),
{
}

/// Law: a claim code is single-use. A successful claim flips exactly the
/// presented digest's flag from unused to used — every other digest's
/// presence and flag are untouched — and afterwards the same code is
/// rejected with `ClaimCodeUsed` for every caller that passes the earlier
/// checks.
pub proof fn lemma_claim_code_single_use(
    pre: EventBadge,
    post: EventBadge,
    owner: Seq<char>,
    digest: Seq<char>,
    other: Seq<char>,
)
    requires
        pre.wf(),
        claim_badge_outcome(pre, digest, Some(owner)) is Ok,
        claim_applied(pre, post, Some(owner), digest),
    ensures
        pre.codes().contains_key(digest) && !pre.codes()[digest],
        post.codes().contains_key(digest) && post.codes()[digest],
        other != digest ==> post.codes().contains_key(other) == pre.codes().contains_key(other),
        other != digest && pre.codes().contains_key(other) ==> post.codes()[other]
            == pre.codes()[other],
        forall|u: Seq<char>|
            !post.badges().contains_key(u) && post.minted_count < post.max_supply
                ==> claim_badge_outcome(post, digest, Some(u)) == Err::<u64, EventBadgeError>(
                EventBadgeError::ClaimCodeUsed,
            ),
{
}

impl EventBadge {
    /// Creates the event. Fails with `AlreadyInitialized` exactly when an
    /// event already exists, and then alters nothing.
    pub fn create_event(
        &mut self,
        event_name: String,
        description: String,
        event_date: u64,
        location: String,
        category: EventCategory,
        badge_metadata_uri: String,
        max_supply: u64,
        organizer: String,
    ) -> (r: Result<(), EventBadgeError>)
        requires
            old(self).wf(),
        ensures
            final (self).wf(),
            r == create_event_outcome(*old(self)),
            r is Ok ==> create_applied(
                *old(self),
                *final (self),
                event_name,
                description,
                event_date,
                location,
                category,
                badge_metadata_uri,
                max_supply,
                organizer,
            ),
            r is Err ==> *final (self) == *old(self),
            final (self).minted_count >= old(self).minted_count,
    {
        if !self.event_name.as_str().is_empty() {
            return Err(EventBadgeError::AlreadyInitialized);
        }
        self.event_name = event_name;
        self.organizer = organizer;
        self.description = description;
        self.event_date = event_date;
        self.location = location;
        self.category = category;
        self.badge_metadata_uri = badge_metadata_uri;
        self.max_supply = max_supply;
        self.minted_count = 0;
        self.is_active = true;
        Ok(())
    }

    /// Claims a badge with a one-time code. The checks run in the order
    /// the outcome spells out; the first failure wins and leaves the
    /// state untouched. On success the code's digest is consumed and the
    /// caller receives the next token id.
    pub fn claim_badge(&mut self, claim_code: &String, caller: &Option<String>) -> (r: Result<
        u64,
        EventBadgeError,
    >)
        requires
            old(self).wf(),
        ensures
            final (self).wf(),
            r == claim_badge_outcome(
                *old(self),
                code_digest(claim_code@),
                caller_view(*caller),
            ),
            r is Ok ==> claim_applied(
                *old(self),
                *final (self),
                caller_view(*caller),
                code_digest(claim_code@),
            ),
            r is Err ==> *final (self) == *old(self),
            final (self).minted_count >= old(self).minted_count,
    {
        if self.event_name.as_str().is_empty() {
            return Err(EventBadgeError::EventNotInitialized);
        }
        if !self.is_active {
            return Err(EventBadgeError::EventNotActive);
        }
        let owner = match caller {
            Some(owner) => owner,
            None => {
                return Err(EventBadgeError::NotAuthorized);
            },
        };
        if lookup(&self.claimed_badges, owner).is_some() {
            return Err(EventBadgeError::AlreadyClaimed);
        }
        if self.minted_count >= self.max_supply {
            return Err(EventBadgeError::MaxSupplyReached);
        }
        let digest = hash_claim_code(claim_code.as_str());
        let used = match lookup(&self.claim_codes, &digest) {
            Some(used) => used,
            None => {
                return Err(EventBadgeError::InvalidClaimCode);
            },
        };
        if used {
            return Err(EventBadgeError::ClaimCodeUsed);
        }
        upsert(&mut self.claim_codes, &digest, true);
        let token_id = self.minted_count;
        upsert(&mut self.claimed_badges, owner, token_id);
        self.minted_count = token_id + 1;
        proof {
            let pre = *old(self);
            let post = *self;
            assert forall|k: Seq<char>| post.badges().contains_key(k) implies #[trigger] post.badges()[k]
                < post.minted_count by {
                if k != owner@ {
                    assert(pre.badges().contains_key(k));
                }
            }
            assert forall|a: Seq<char>, b: Seq<char>|
                a != b && post.badges().contains_key(a) && post.badges().contains_key(
                    b,
                ) implies #[trigger] post.badges()[a] != #[trigger] post.badges()[b] by {
                if a != owner@ && b != owner@ {
                    assert(pre.badges().contains_key(a));
                    assert(pre.badges().contains_key(b));
                } else if a == owner@ {
                    assert(pre.badges().contains_key(b));
                } else {
                    assert(pre.badges().contains_key(a));
                }
            }
        }
        Ok(token_id)
    }

    /// Arms a batch of claim codes. Organizer only. Each code's digest is
    /// inserted unused; re-adding a digest re-arms it.
    pub fn add_claim_codes(&mut self, codes: &Vec<String>, caller: &Option<String>) -> (r: Result<
        (),
        EventBadgeError,
    >)
        requires
            old(self).wf(),
        ensures
            final (self).wf(),
            r == organizer_gated_outcome(*old(self), caller_view(*caller)),
            r is Ok ==> add_codes_applied(*old(self), *final (self), codes@),
            r is Err ==> *final (self) == *old(self),
            final (self).minted_count == old(self).minted_count,
    {
        if self.event_name.as_str().is_empty() {
            return Err(EventBadgeError::EventNotInitialized);
        }
        let org = match caller {
            Some(c) => c,
            None => {
                return Err(EventBadgeError::NotAuthorized);
            },
        };
        if !(*org == self.organizer) {
            return Err(EventBadgeError::NotAuthorized);
        }
        let mut i: usize = 0;
        proof {
            assert(codes@.take(0) =~= Seq::<String>::empty());
        }
        while i < codes.len()
            invariant
                old(self).wf(),
                i <= codes@.len(),
                unique_keys(self.claim_codes@),
                self.codes() == armed_codes(old(self).codes(), codes@.take(i as int)),
                self.event_name == old(self).event_name,
                self.organizer == old(self).organizer,
                self.description == old(self).description,
                self.event_date == old(self).event_date,
                self.location == old(self).location,
                self.category == old(self).category,
                self.badge_metadata_uri == old(self).badge_metadata_uri,
                self.max_supply == old(self).max_supply,
                self.minted_count == old(self).minted_count,
                self.is_active == old(self).is_active,
                self.claimed_badges == old(self).claimed_badges,
            decreases codes@.len() - i,
        {
            let digest = hash_claim_code(codes[i].as_str());
            upsert(&mut self.claim_codes, &digest, false);
            proof {
                assert(codes@.take(i + 1).drop_last() =~= codes@.take(i as int));
                assert(codes@.take(i + 1).last() == codes@[i as int]);
            }
            i = i + 1;
        }
        proof {
            assert(codes@.take(codes@.len() as int) =~= codes@);
            assert(self.badges() == old(self).badges());
        }
        Ok(())
    }

    /// Opens or closes the event for claiming. Organizer only.
    pub fn set_event_active(&mut self, is_active: bool, caller: &Option<String>) -> (r: Result<
        (),
        EventBadgeError,
    >)
        requires
            old(self).wf(),
        ensures
            final (self).wf(),
            r == organizer_gated_outcome(*old(self), caller_view(*caller)),
            r is Ok ==> set_active_applied(*old(self), *final (self), is_active),
            r is Err ==> *final (self) == *old(self),
            final (self).minted_count == old(self).minted_count,
    {
        if self.event_name.as_str().is_empty() {
            return Err(EventBadgeError::EventNotInitialized);
        }
        let org = match caller {
            Some(c) => c,
            None => {
                return Err(EventBadgeError::NotAuthorized);
            },
        };
        if !(*org == self.organizer) {
            return Err(EventBadgeError::NotAuthorized);
        }
        self.is_active = is_active;
        proof {
            assert(self.badges() == old(self).badges());
        }
        Ok(())
    }

    /// Moves the caller's badge to a new owner. The same token id moves;
    /// the minted count and the ledger are unaffected.
    pub fn transfer_badge(
        &mut self,
        token_id: u64,
        new_owner: String,
        caller: &Option<String>,
    ) -> (r: Result<(), EventBadgeError>)
        requires
            old(self).wf(),
        ensures
            final (self).wf(),
            r == transfer_badge_outcome(*old(self), token_id, caller_view(*caller)),
            r is Ok ==> transfer_applied(
                *old(self),
                *final (self),
                caller_view(*caller),
                new_owner@,
                token_id,
            ),
            r is Err ==> *final (self) == *old(self),
            final (self).minted_count == old(self).minted_count,
    {
        if self.event_name.as_str().is_empty() {
            return Err(EventBadgeError::EventNotInitialized);
        }
        let from = match caller {
            Some(c) => c,
            None => {
                return Err(EventBadgeError::NotAuthorized);
            },
        };
        let tid = match lookup(&self.claimed_badges, from) {
            Some(t) => t,
            None => {
                return Err(EventBadgeError::BadgeNotFound);
            },
        };
        if tid != token_id {
            return Err(EventBadgeError::BadgeNotFound);
        }
        remove_entry(&mut self.claimed_badges, from);
        upsert(&mut self.claimed_badges, &new_owner, token_id);
        proof {
            let pre = *old(self);
            let post = *self;
            assert forall|k: Seq<char>| post.badges().contains_key(k) implies #[trigger] post.badges()[k]
                < post.minted_count by {
                if k != new_owner@ {
                    assert(pre.badges().contains_key(k));
                }
            }
            assert forall|a: Seq<char>, b: Seq<char>|
                a != b && post.badges().contains_key(a) && post.badges().contains_key(
                    b,
                ) implies #[trigger] post.badges()[a] != #[trigger] post.badges()[b] by {
                if a != new_owner@ && b != new_owner@ {
                    assert(pre.badges().contains_key(a));
                    assert(pre.badges().contains_key(b));
                } else if a == new_owner@ {
                    assert(post.badges()[a] == token_id);
                    assert(pre.badges().contains_key(b) && b != from@);
                    assert(pre.badges()[b] != pre.badges()[from@]);
                } else {
                    assert(post.badges()[b] == token_id);
                    assert(pre.badges().contains_key(a) && a != from@);
                    assert(pre.badges()[a] != pre.badges()[from@]);
                }
            }
        }
        Ok(())
    }

    /// Validates and applies one operation: the single entry point the
    /// host hands caller-submitted operations to. Returns the response to
    /// surface to the caller and at most one outgoing notification — a
    /// `BadgeMinted` message exactly when a claim succeeds. The host must
    /// resolve a signer before creating an event; every other operation
    /// answers an unresolved caller with a typed error.
    pub fn execute_operation(&mut self, operation: Operation, caller: Option<String>) -> (r: (
        OperationResponse,
        Option<Message>,
    ))
        requires
            old(self).wf(),
            operation is CreateEvent ==> caller is Some,
        ensures
            final (self).wf(),
            dispatch_ok(*old(self), *final (self), operation, caller, r.0, r.1),
            final (self).minted_count >= old(self).minted_count,
            final (self).minted_count <= final (self).max_supply,
    {
        match operation {
            Operation::CreateEvent {
                event_name,
                description,
                event_date,
                location,
                category,
                badge_metadata_uri,
                max_supply,
            } => {
                let organizer = caller.unwrap();
                match self.create_event(
                    event_name,
                    description,
                    event_date,
                    location,
                    category,
                    badge_metadata_uri,
                    max_supply,
                    organizer,
                ) {
                    Ok(()) => (OperationResponse::Success, None),
                    Err(e) => (OperationResponse::Error(e.message()), None),
                }
            },
            Operation::ClaimBadge { claim_code } => {
                match self.claim_badge(&claim_code, &caller) {
                    Ok(token_id) => {
                        let owner = caller.unwrap();
                        let message = Message::BadgeMinted {
                            token_id,
                            owner,
                            event_name: self.event_name.clone(),
                        };
                        (OperationResponse::BadgeClaimed { token_id }, Some(message))
                    },
                    Err(e) => (OperationResponse::Error(e.message()), None),
                }
            },
            Operation::AddClaimCodes { codes } => {
                match self.add_claim_codes(&codes, &caller) {
                    Ok(()) => (OperationResponse::Success, None),
                    Err(e) => (OperationResponse::Error(e.message()), None),
                }
            },
            Operation::SetEventActive { is_active } => {
                match self.set_event_active(is_active, &caller) {
                    Ok(()) => (OperationResponse::Success, None),
                    Err(e) => (OperationResponse::Error(e.message()), None),
                }
            },
            Operation::TransferBadge { token_id, new_owner } => {
                match self.transfer_badge(token_id, new_owner, &caller) {
                    Ok(()) => (OperationResponse::Success, None),
                    Err(e) => (OperationResponse::Error(e.message()), None),
                }
            },
        }
    }

    /// The read-only check behind an incoming `VerifyBadge` notification:
    /// whether `owner` holds exactly `token_id`. Mutates nothing.
    pub fn verify_badge(&self, token_id: u64, owner: &String) -> (r: bool)
        requires
            self.wf(),
        ensures
            r == (self.badges().contains_key(owner@) && self.badges()[owner@] == token_id),
    {
        match lookup(&self.claimed_badges, owner) {
            Some(t) => t == token_id,
            None => false,
        }
    }
}

} // verus!
