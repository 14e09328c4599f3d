//! The store of shared resources, one value per key.
use std::collections::HashMap;
use vstd::prelude::*;

verus! {

broadcast use vstd::std_specs::hash::group_hash_axioms;

/// Shared values that every context can read, each found again by its key.
pub struct Resources<V> {
    map: HashMap<u64, V>,
}

impl<V> View for Resources<V> {
    type V = Map<u64, V>;

    closed spec fn view(&self) -> Map<u64, V> {
        self.map@
    }
}

impl<V> Resources<V> {
    /// An empty store.
    pub fn new() -> (r: Self)
        ensures
            r@ == Map::<u64, V>::empty(),
    {
        Resources { map: HashMap::new() }
    }

    /// Stores `value` under `key`, replacing and returning what was there.
    pub fn insert(&mut self, key: u64, value: V) -> (previous: Option<V>)
        ensures
            final(self)@ == old(self)@.insert(key, value),
            previous == (if old(self)@.contains_key(key) {
                Some(old(self)@[key])
            } else {
                None
            }),
    {
        self.map.insert(key, value)
    }

    /// The value stored under `key`, if any.
    pub fn get(&self, key: u64) -> (r: Option<&V>)
        ensures
            r == (if self@.contains_key(key) {
                Some(&self@[key])
            } else {
                None
            }),
    {
        self.map.get(&key)
    }

    /// Whether a value is stored under `key`.
    pub fn contains(&self, key: u64) -> (r: bool)
        ensures
            r == self@.contains_key(key),
    {
        self.map.contains_key(&key)
    }

    /// The number of stored values.
    pub fn len(&self) -> (n: usize)
        ensures
            n == self@.len(),
    {
        self.map.len()
    }
}

/// What is stored under a key is what is read back from it, and storing under one key
/// leaves every other key as it was.
pub proof fn lemma_read_after_write<V>(before: Resources<V>, after: Resources<V>, key: u64, value: V)
    requires
        after@ == before@.insert(key, value),
    ensures
        after@.contains_key(key),
        after@[key] == value,
        forall|other: u64|
            other != key ==> (#[trigger] after@.contains_key(other) == before@.contains_key(other))
                && (before@.contains_key(other) ==> after@[other] == before@[other]),
{
}

/// Storing twice under the same key keeps only the second value.
pub proof fn lemma_last_write_wins<V>(before: Resources<V>, after: Resources<V>, key: u64, first: V, second: V)
    requires
        after@ == before@.insert(key, first).insert(key, second),
    ensures
        after@ == before@.insert(key, second),
{
    assert(after@ =~= before@.insert(key, second));
}

/// `store` after inserting each pair of `writes`, first to last.
pub open spec fn insert_all<V>(store: Map<u64, V>, writes: Seq<(u64, V)>) -> Map<u64, V>
    decreases writes.len(),
{
    if writes.len() == 0 {
        store
    } else {
        insert_all(store, writes.drop_last()).insert(writes.last().0, writes.last().1)
    }
}

/// After a series of writes, the key of a write that no later write touches holds
/// that write's value.
pub proof fn lemma_last_write_to_a_key<V>(store: Map<u64, V>, writes: Seq<(u64, V)>, i: int)
    requires
        0 <= i < writes.len(),
        forall|j: int| i < j < writes.len() ==> writes[j].0 != writes[i].0,
    ensures
        insert_all(store, writes).contains_key(writes[i].0),
        insert_all(store, writes)[writes[i].0] == writes[i].1,
    decreases writes.len(),
{
    if i < writes.len() - 1 {
        let earlier = writes.drop_last();
        assert forall|j: int| i < j < earlier.len() implies earlier[j].0 != earlier[i].0 by {
            assert(earlier[j] == writes[j]);
        }
        lemma_last_write_to_a_key(store, earlier, i);
        assert(writes.last().0 != writes[i].0);
    }
}

/// A key that no write of a series touches holds what it held before.
pub proof fn lemma_untouched_key<V>(store: Map<u64, V>, writes: Seq<(u64, V)>, key: u64)
    requires
        forall|j: int| 0 <= j < writes.len() ==> writes[j].0 != key,
    ensures
        insert_all(store, writes).contains_key(key) == store.contains_key(key),
        store.contains_key(key) ==> insert_all(store, writes)[key] == store[key],
    decreases writes.len(),
{
    if writes.len() > 0 {
        let earlier = writes.drop_last();
        assert forall|j: int| 0 <= j < earlier.len() implies earlier[j].0 != key by {
            assert(earlier[j] == writes[j]);
        }
        lemma_untouched_key(store, earlier, key);
        assert(writes[writes.len() - 1].0 != key);
    }
}

} // verus!
