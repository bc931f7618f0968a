//! The application state: the event record, the badge registry
//! (owner identity -> token id) and the claim-code ledger
//! (code digest -> used flag). The two registries are association
//! lists with unique keys, viewed in specifications as maps keyed
//! by the string's character sequence.
use vstd::prelude::*;

use crate::EventCategory;

verus! {

/// The map a string-keyed association list stands for.
pub open spec fn assoc_map<V>(entries: Seq<(String, V)>) -> Map<Seq<char>, V>
    decreases entries.len(),
{
    if entries.len() == 0 {
        Map::empty()
    } else {
        assoc_map(entries.drop_last()).insert(entries.last().0@, entries.last().1)
    }
}

/// No two entries share a key.
pub open spec fn unique_keys<V>(entries: Seq<(String, V)>) -> bool {
    forall|i: int, j: int|
        0 <= i < j < entries.len() ==> (#[trigger] entries[i]).0@ != (#[trigger] entries[j]).0@
}

proof fn lemma_assoc_map_contains<V>(entries: Seq<(String, V)>, key: Seq<char>)
    ensures
        assoc_map(entries).contains_key(key) <==> exists|i: int|
            0 <= i < entries.len() && (#[trigger] entries[i]).0@ == key,
    decreases entries.len(),
{
    if entries.len() > 0 {
        lemma_assoc_map_contains(entries.drop_last(), key);
        if entries.last().0@ != key {
            if assoc_map(entries).contains_key(key) {
                let i = choose|i: int|
                    0 <= i < entries.drop_last().len() && (#[trigger] entries.drop_last()[i]).0@
                        == key;
                assert(entries[i].0@ == key);
            }
            if exists|i: int| 0 <= i < entries.len() && (#[trigger] entries[i]).0@ == key {
                let i = choose|i: int|
                    0 <= i < entries.len() && (#[trigger] entries[i]).0@ == key;
                assert(entries.drop_last()[i].0@ == key);
            }
        }
    }
}

proof fn lemma_assoc_map_index<V>(entries: Seq<(String, V)>, i: int)
    requires
        unique_keys(entries),
        0 <= i < entries.len(),
    ensures
        assoc_map(entries).contains_key(entries[i].0@),
        assoc_map(entries)[entries[i].0@] == entries[i].1,
    decreases entries.len(),
{
    if i == entries.len() - 1 {
        lemma_assoc_map_contains(entries, entries[i].0@);
    } else {
        assert(unique_keys(entries.drop_last())) by {
            assert(forall|p: int, q: int|
                0 <= p < q < entries.drop_last().len() ==> (#[trigger] entries.drop_last()[p]).0@
                    != (#[trigger] entries.drop_last()[q]).0@) by {
                assert(forall|p: int|
                    0 <= p < entries.drop_last().len() ==> #[trigger] entries.drop_last()[p]
                        == entries[p]);
            }
        }
        lemma_assoc_map_index(entries.drop_last(), i);
        assert(entries.drop_last()[i] == entries[i]);
        assert(entries[i].0@ != entries.last().0@);
    }
}

proof fn lemma_assoc_map_push<V>(entries: Seq<(String, V)>, key: String, value: V)
    requires
        unique_keys(entries),
        forall|i: int| 0 <= i < entries.len() ==> (#[trigger] entries[i]).0@ != key@,
    ensures
        unique_keys(entries.push((key, value))),
        assoc_map(entries.push((key, value))) == assoc_map(entries).insert(key@, value),
{
    let pushed = entries.push((key, value));
    assert(pushed.drop_last() =~= entries);
    assert(forall|i: int| 0 <= i < entries.len() ==> #[trigger] pushed[i] == entries[i]);
}

proof fn lemma_assoc_map_remove<V>(entries: Seq<(String, V)>, i: int)
    requires
        unique_keys(entries),
        0 <= i < entries.len(),
    ensures
        unique_keys(entries.remove(i)),
        assoc_map(entries.remove(i)) == assoc_map(entries).remove(entries[i].0@),
    decreases entries.len(),
{
    let key = entries[i].0@;
    let removed = entries.remove(i);
    assert(forall|p: int| 0 <= p < i ==> #[trigger] removed[p] == entries[p]);
    assert(forall|p: int|
        i <= p < removed.len() ==> #[trigger] removed[p] == entries[p + 1]);
    assert(unique_keys(removed));
    if i == entries.len() - 1 {
        assert(removed =~= entries.drop_last());
        lemma_assoc_map_contains(entries.drop_last(), key);
        assert(!assoc_map(entries.drop_last()).contains_key(key));
        assert(assoc_map(entries.drop_last()).remove(key) =~= assoc_map(entries.drop_last()));
        assert(assoc_map(entries).remove(key) =~= assoc_map(entries.drop_last()).insert(
            key,
            entries.last().1,
        ).remove(key));
        assert(assoc_map(entries.drop_last()).insert(key, entries.last().1).remove(key)
            =~= assoc_map(entries.drop_last()).remove(key));
    } else {
        assert(unique_keys(entries.drop_last())) by {
            assert(forall|p: int|
                0 <= p < entries.drop_last().len() ==> #[trigger] entries.drop_last()[p]
                    == entries[p]);
        }
        lemma_assoc_map_remove(entries.drop_last(), i);
        assert(removed.drop_last() =~= entries.drop_last().remove(i));
        assert(removed.last() == entries.last());
        assert(entries.drop_last()[i] == entries[i]);
        // Removing an inner key and inserting the last entry commute,
        // since the two keys differ.
        assert(entries.last().0@ != key);
        assert(assoc_map(removed) == assoc_map(entries.drop_last()).remove(key).insert(
            entries.last().0@,
            entries.last().1,
        ));
        assert(assoc_map(entries.drop_last()).remove(key).insert(
            entries.last().0@,
            entries.last().1,
        ) =~= assoc_map(entries.drop_last()).insert(entries.last().0@, entries.last().1).remove(
            key,
        ));
    }
}

/// Looks a key up in an association list with unique keys.
pub(crate) fn lookup<V: Copy>(entries: &Vec<(String, V)>, key: &String) -> (r: Option<V>)
    requires
        unique_keys(entries@),
    ensures
        match r {
            Some(v) => assoc_map(entries@).contains_key(key@) && assoc_map(entries@)[key@] == v,
            None => !assoc_map(entries@).contains_key(key@),
        },
{
    let mut i: usize = 0;
    while i < entries.len()
        invariant
            unique_keys(entries@),
            i <= entries@.len(),
            forall|p: int| 0 <= p < i ==> (#[trigger] entries@[p]).0@ != key@,
        decreases entries@.len() - i,
    {
        if entries[i].0 == *key {
            proof {
                lemma_assoc_map_index(entries@, i as int);
            }
            return Some(entries[i].1);
        }
        i = i + 1;
    }
    proof {
        lemma_assoc_map_contains(entries@, key@);
    }
    None
}

/// Removes a key from an association list; leaves it unchanged when the
/// key is absent.
pub(crate) fn remove_entry<V: Copy>(entries: &mut Vec<(String, V)>, key: &String)
    requires
        unique_keys(old(entries)@),
    ensures
        unique_keys(final (entries)@),
        assoc_map(final (entries)@) == assoc_map(old(entries)@).remove(key@),
{
    let mut i: usize = 0;
    while i < entries.len()
        invariant
            unique_keys(entries@),
            *entries == *old(entries),
            i <= entries@.len(),
            forall|p: int| 0 <= p < i ==> (#[trigger] entries@[p]).0@ != key@,
        decreases entries@.len() - i,
    {
        if entries[i].0 == *key {
            proof {
                lemma_assoc_map_remove(entries@, i as int);
            }
            entries.remove(i);
            return ;
        }
        i = i + 1;
    }
    proof {
        lemma_assoc_map_contains(entries@, key@);
        assert(assoc_map(entries@).remove(key@) =~= assoc_map(entries@));
    }
}

/// Inserts a key, overwriting any entry it already has.
pub(crate) fn upsert<V: Copy>(entries: &mut Vec<(String, V)>, key: &String, value: V)
    requires
        unique_keys(old(entries)@),
    ensures
        unique_keys(final (entries)@),
        assoc_map(final (entries)@) == assoc_map(old(entries)@).insert(key@, value),
{
    remove_entry(entries, key);
    let ghost pruned = entries@;
    proof {
        lemma_assoc_map_contains(entries@, key@);
        lemma_assoc_map_push(entries@, *key, value);
    }
    entries.push((key.clone(), value));
    proof {
        assert(entries@ == pruned.push((*key, value)));
        assert(assoc_map(pruned).remove(key@).insert(key@, value) =~= assoc_map(
            pruned,
        ).insert(key@, value));
        assert(assoc_map(old(entries)@).remove(key@).insert(key@, value) =~= assoc_map(
            old(entries)@,
        ).insert(key@, value));
    }
}

/// The full application state: event record, badge registry and
/// claim-code ledger.
#[derive(Clone, Debug)]
pub struct EventBadge {
    /// The name of the event; non-empty exactly when the event has been
    /// created.
    pub event_name: String,
    /// The organizer of the event (as an address string); immutable after
    /// creation, sole authority for organizer-gated operations.
    pub organizer: String,
    /// Description of the event.
    pub description: String,
    /// Event date and time (informational; not enforced by the core).
    pub event_date: u64,
    /// Location of the event.
    pub location: String,
    /// Category of the event.
    pub category: EventCategory,
    /// Metadata pointer (IPFS CID or URL) for the badge image.
    pub badge_metadata_uri: String,
    /// Maximum number of badges that can ever be minted.
    pub max_supply: u64,
    /// Number of badges minted so far.
    pub minted_count: u64,
    /// Badge registry: owner address -> token id, at most one per owner.
    pub claimed_badges: Vec<(String, u64)>,
    /// Claim-code ledger: code digest -> whether the code has been used.
    pub claim_codes: Vec<(String, bool)>,
    /// Whether the event currently accepts claims.
    pub is_active: bool,
}

impl EventBadge {
    /// The badge registry as a map from owner identity to token id.
    pub open spec fn badges(self) -> Map<Seq<char>, u64> {
        assoc_map(self.claimed_badges@)
    }

    /// The claim-code ledger as a map from code digest to used flag.
    pub open spec fn codes(self) -> Map<Seq<char>, bool> {
        assoc_map(self.claim_codes@)
    }

    /// The event exists once `CreateEvent` has set its name.
    pub open spec fn is_created(self) -> bool {
        self.event_name@.len() > 0
    }

    /// Well-formedness, preserved by every operation: registry keys are
    /// unique, the minted count never exceeds the supply bound, every
    /// issued token id lies below the minted count, no token id is held
    /// twice, and nothing is minted before the event exists.
    pub open spec fn wf(self) -> bool {
        &&& unique_keys(self.claimed_badges@)
        &&& unique_keys(self.claim_codes@)
        &&& self.minted_count <= self.max_supply
        &&& forall|owner: Seq<char>|
            self.badges().contains_key(owner) ==> #[trigger] self.badges()[owner]
                < self.minted_count
        &&& forall|a: Seq<char>, b: Seq<char>|
            a != b && self.badges().contains_key(a) && self.badges().contains_key(b)
                ==> #[trigger] self.badges()[a] != #[trigger] self.badges()[b]
        &&& !self.is_created() ==> self.claimed_badges@.len() == 0 && self.minted_count == 0
    }

    /// The state before any operation: no event, nothing minted, inactive.
    pub fn new() -> (r: Self)
        ensures
            r.wf(),
            !r.is_created(),
            r.event_name@ == Seq::<char>::empty(),
            r.organizer@ == Seq::<char>::empty(),
            r.description@ == Seq::<char>::empty(),
            r.event_date == 0,
            r.location@ == Seq::<char>::empty(),
            r.category == EventCategory::Meetup,
            r.badge_metadata_uri@ == Seq::<char>::empty(),
            r.max_supply == 0,
            r.minted_count == 0,
            r.badges() == Map::<Seq<char>, u64>::empty(),
            r.codes() == Map::<Seq<char>, bool>::empty(),
            !r.is_active,
    {
        EventBadge {
            event_name: String::new(),
            organizer: String::new(),
            description: String::new(),
            event_date: 0,
            location: String::new(),
            category: EventCategory::Meetup,
            badge_metadata_uri: String::new(),
            max_supply: 0,
            minted_count: 0,
            claimed_badges: Vec::new(),
            claim_codes: Vec::new(),
            is_active: false,
        }
    }
}

} // verus!
