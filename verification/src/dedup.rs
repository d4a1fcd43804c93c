//! The de-duplication store: a key-value store whose entries expire, with one
//! operation that sets a key only where it is absent and tells what was there.
//!
//! Time is a count of seconds that the caller supplies. An entry that was set at
//! `now` for `ttl` seconds is live at `now`, ..., `now + ttl - 1` and gone from
//! `now + ttl` on.

use vstd::prelude::*;
use vstd::string::*;
use crate::text::same_text;

verus! {

/// For how many seconds a published price keeps equal prices of its key back.
pub const DEDUP_TTL_SECONDS: u64 = 20;

/// What the store holds for one key.
pub struct Entry {
    pub value: Seq<char>,
    pub expires_at: nat,
}

/// What a store answers to a conditional set, or to a read.
#[derive(Clone, Debug, PartialEq, Eq)]
pub enum CacheReply {
    /// No live entry was there. After a conditional set there is one now.
    Absent,
    /// A live entry was there, with this value. A conditional set left it as it was.
    Present(String),
    /// The store could not be asked.
    Failed,
}

/// A `CacheReply` with its text as a sequence of characters.
pub enum Reply {
    Absent,
    Present(Seq<char>),
    Failed,
}

impl View for CacheReply {
    type V = Reply;

    open spec fn view(&self) -> Reply {
        match self {
            CacheReply::Absent => Reply::Absent,
            CacheReply::Present(value) => Reply::Present(value@),
            CacheReply::Failed => Reply::Failed,
        }
    }
}

/// Whether `store` holds an entry for `key` that has not expired at `now`.
pub open spec fn live(store: Map<Seq<char>, Entry>, key: Seq<char>, now: nat) -> bool {
    store.contains_key(key) && now < store[key].expires_at
}

/// What a conditional set of `key` at `now` answers, and a read as well.
pub open spec fn set_reply(store: Map<Seq<char>, Entry>, key: Seq<char>, now: nat) -> Reply {
    if live(store, key, now) {
        Reply::Present(store[key].value)
    } else {
        Reply::Absent
    }
}

/// The store after a conditional set of `key` to `value` at `now`, for `ttl` seconds.
/// A live entry is never overwritten, nor is its expiry moved.
pub open spec fn set_store(
    store: Map<Seq<char>, Entry>,
    key: Seq<char>,
    value: Seq<char>,
    now: nat,
    ttl: nat,
) -> Map<Seq<char>, Entry> {
    if live(store, key, now) {
        store
    } else {
        store.insert(key, Entry { value, expires_at: now + ttl })
    }
}

struct Slot {
    key: String,
    value: String,
    expires_at: u64,
}

/// A de-duplication store in memory.
pub struct DedupCache {
    slots: Vec<Slot>,
}

/// Whether slot `i` of `slots` belongs to `key`.
spec fn slot_of(slots: Seq<Slot>, i: int, key: Seq<char>) -> bool {
    0 <= i < slots.len() && slots[i].key@ == key
}

spec fn entry_of(slot: Slot) -> Entry {
    Entry { value: slot.value@, expires_at: slot.expires_at as nat }
}

spec fn store_of(slots: Seq<Slot>) -> Map<Seq<char>, Entry> {
    Map::new(
        |key: Seq<char>| exists|i: int| slot_of(slots, i, key),
        |key: Seq<char>| entry_of(slots[choose|i: int| slot_of(slots, i, key)]),
    )
}

spec fn distinct_keys(slots: Seq<Slot>) -> bool {
    forall|i: int, j: int|
        0 <= i < slots.len() && 0 <= j < slots.len() && i != j ==> (#[trigger] slots[i]).key@ != (
        #[trigger] slots[j]).key@
}

proof fn lemma_store_of_slot(slots: Seq<Slot>, i: int)
    requires
        distinct_keys(slots),
        0 <= i < slots.len(),
    ensures
        store_of(slots).contains_key(slots[i].key@),
        store_of(slots)[slots[i].key@] == entry_of(slots[i]),
{
    let key = slots[i].key@;
    assert(slot_of(slots, i, key));
    let j = choose|j: int| slot_of(slots, j, key);
    assert(slot_of(slots, j, key));
    assert(i == j);
}

proof fn lemma_store_of_missing(slots: Seq<Slot>, key: Seq<char>)
    requires
        forall|i: int| 0 <= i < slots.len() ==> (#[trigger] slots[i]).key@ != key,
    ensures
        !store_of(slots).contains_key(key),
{
    assert forall|i: int| !slot_of(slots, i, key) by {
        if 0 <= i < slots.len() {
            assert(slots[i].key@ != key);
        }
    }
}

proof fn lemma_store_after_push(slots: Seq<Slot>, slot: Slot)
    requires
        distinct_keys(slots),
        forall|i: int| 0 <= i < slots.len() ==> (#[trigger] slots[i]).key@ != slot.key@,
    ensures
        distinct_keys(slots.push(slot)),
        store_of(slots.push(slot)) == store_of(slots).insert(slot.key@, entry_of(slot)),
{
    let after = slots.push(slot);
    let n = slots.len() as int;
    assert(distinct_keys(after));
    let expected = store_of(slots).insert(slot.key@, entry_of(slot));
    assert forall|key: Seq<char>| store_of(after).contains_key(key) == expected.contains_key(
        key,
    ) by {
        if store_of(after).contains_key(key) {
            let i = choose|i: int| slot_of(after, i, key);
            if i < n {
                assert(slot_of(slots, i, key));
            }
        }
        if expected.contains_key(key) {
            if key == slot.key@ {
                assert(slot_of(after, n, key));
            } else {
                let i = choose|i: int| slot_of(slots, i, key);
                assert(slot_of(after, i, key));
            }
        }
    }
    assert forall|key: Seq<char>| store_of(after).contains_key(key) implies store_of(after)[key]
        == expected[key] by {
        let i = choose|i: int| slot_of(after, i, key);
        lemma_store_of_slot(after, i);
        if i < n {
            lemma_store_of_slot(slots, i);
        }
    }
    assert(store_of(after) =~= expected);
}

proof fn lemma_store_after_update(slots: Seq<Slot>, at: int, slot: Slot)
    requires
        distinct_keys(slots),
        0 <= at < slots.len(),
        slots[at].key@ == slot.key@,
    ensures
        distinct_keys(slots.update(at, slot)),
        store_of(slots.update(at, slot)) == store_of(slots).insert(slot.key@, entry_of(slot)),
{
    let after = slots.update(at, slot);
    assert(distinct_keys(after)) by {
        assert forall|i: int, j: int|
            0 <= i < after.len() && 0 <= j < after.len() && i != j implies (#[trigger] after[i]).key@
            != (#[trigger] after[j]).key@ by {
            assert(after[i].key@ == slots[i].key@);
            assert(after[j].key@ == slots[j].key@);
        }
    }
    let expected = store_of(slots).insert(slot.key@, entry_of(slot));
    assert forall|key: Seq<char>| store_of(after).contains_key(key) == expected.contains_key(
        key,
    ) by {
        if store_of(after).contains_key(key) {
            let i = choose|i: int| slot_of(after, i, key);
            assert(after[i].key@ == slots[i].key@);
            assert(slot_of(slots, i, key));
        }
        if expected.contains_key(key) {
            if key == slot.key@ {
                assert(slot_of(after, at, key));
            } else {
                let i = choose|i: int| slot_of(slots, i, key);
                assert(after[i].key@ == slots[i].key@);
                assert(slot_of(after, i, key));
            }
        }
    }
    assert forall|key: Seq<char>| store_of(after).contains_key(key) implies store_of(after)[key]
        == expected[key] by {
        let i = choose|i: int| slot_of(after, i, key);
        lemma_store_of_slot(after, i);
        if i != at {
            assert(after[i] == slots[i]);
            lemma_store_of_slot(slots, i);
        }
    }
    assert(store_of(after) =~= expected);
}

impl View for DedupCache {
    type V = Map<Seq<char>, Entry>;

    closed spec fn view(&self) -> Map<Seq<char>, Entry> {
        store_of(self.slots@)
    }
}

impl DedupCache {
    #[verifier::type_invariant]
    spec fn well_formed(&self) -> bool {
        distinct_keys(self.slots@)
    }

    /// A store that holds nothing.
    pub fn new() -> (r: DedupCache)
        ensures
            r@ == Map::<Seq<char>, Entry>::empty(),
    {
        let r = DedupCache { slots: Vec::new() };
        proof {
            lemma_store_of_missing_all(r.slots@);
        }
        r
    }

    /// The slot of `key`, or the number of slots where it has none.
    fn find(&self, key: &str) -> (at: usize)
        ensures
            at <= self.slots.len(),
            at < self.slots.len() ==> self.slots[at as int].key@ == key@,
            at == self.slots.len() ==> forall|i: int|
                0 <= i < self.slots.len() ==> (#[trigger] self.slots[i]).key@ != key@,
    {
        let mut i: usize = 0;
        while i < self.slots.len()
            invariant
                i <= self.slots.len(),
                forall|j: int| 0 <= j < i ==> (#[trigger] self.slots[j]).key@ != key@,
            decreases self.slots.len() - i,
        {
            if same_text(self.slots[i].key.as_str(), key) {
                return i;
            }
            i += 1;
        }
        i
    }

    /// Sets `key` to `value` for `ttl` seconds, unless a live entry is there, and
    /// tells what was there before: the single step on which de-duplication rests.
    pub fn check_and_set(&mut self, key: &str, value: &str, now: u64, ttl: u64) -> (r: CacheReply)
        requires
            now + ttl <= u64::MAX,
        ensures
            r@ == set_reply(old(self)@, key@, now as nat),
            final(self)@ == set_store(old(self)@, key@, value@, now as nat, ttl as nat),
    {
        proof {
            use_type_invariant(&*self);
        }
        let at = self.find(key);
        if at < self.slots.len() {
            proof {
                lemma_store_of_slot(self.slots@, at as int);
            }
            if now < self.slots[at].expires_at {
                return CacheReply::Present(self.slots[at].value.clone());
            }
            let slot = Slot {
                key: String::from_str(key),
                value: String::from_str(value),
                expires_at: now + ttl,
            };
            proof {
                lemma_store_after_update(self.slots@, at as int, slot);
            }
            let mut slots: Vec<Slot> = Vec::new();
            core::mem::swap(&mut self.slots, &mut slots);
            slots.set(at, slot);
            self.slots = slots;
            CacheReply::Absent
        } else {
            let slot = Slot {
                key: String::from_str(key),
                value: String::from_str(value),
                expires_at: now + ttl,
            };
            proof {
                lemma_store_of_missing(self.slots@, key@);
                lemma_store_after_push(self.slots@, slot);
            }
            let mut slots: Vec<Slot> = Vec::new();
            core::mem::swap(&mut self.slots, &mut slots);
            slots.push(slot);
            self.slots = slots;
            CacheReply::Absent
        }
    }

    /// Reads the value of `key` at `now`. Nothing is written.
    pub fn get(&self, key: &str, now: u64) -> (r: CacheReply)
        ensures
            r@ == set_reply(self@, key@, now as nat),
    {
        proof {
            use_type_invariant(self);
        }
        let at = self.find(key);
        if at < self.slots.len() {
            proof {
                lemma_store_of_slot(self.slots@, at as int);
            }
            if now < self.slots[at].expires_at {
                return CacheReply::Present(self.slots[at].value.clone());
            }
        } else {
            proof {
                lemma_store_of_missing(self.slots@, key@);
            }
        }
        CacheReply::Absent
    }

    /// The second from which on the entry of `key` is gone, if `key` was ever set.
    pub fn expires_at(&self, key: &str) -> (r: Option<u64>)
        ensures
            r is Some <==> self@.contains_key(key@),
            r matches Some(at) ==> self@[key@].expires_at == at,
    {
        proof {
            use_type_invariant(self);
        }
        let at = self.find(key);
        if at < self.slots.len() {
            proof {
                lemma_store_of_slot(self.slots@, at as int);
            }
            Some(self.slots[at].expires_at)
        } else {
            proof {
                lemma_store_of_missing(self.slots@, key@);
            }
            None
        }
    }
}

proof fn lemma_store_of_missing_all(slots: Seq<Slot>)
    requires
        slots.len() == 0,
    ensures
        store_of(slots) == Map::<Seq<char>, Entry>::empty(),
{
    assert forall|key: Seq<char>| !store_of(slots).contains_key(key) by {
        lemma_store_of_missing(slots, key);
    }
    assert(store_of(slots) =~= Map::<Seq<char>, Entry>::empty());
}

} // verus!
