//! A keyed store: a finite map from keys to records, kept as a list of entries.

use vstd::prelude::*;
use crate::primitives::bytes_eq;

verus! {

/// A key of a [`Store`]: a value that can be told from every other.
pub trait StoreKey: Sized {
    /// Whether `self` and `other` are the same key.
    fn same_key(&self, other: &Self) -> (same: bool)
        ensures
            same == (*self == *other),
    ;
}

impl StoreKey for u32 {
    fn same_key(&self, other: &u32) -> (same: bool) {
        *self == *other
    }
}

impl StoreKey for [u8; 32] {
    fn same_key(&self, other: &[u8; 32]) -> (same: bool) {
        bytes_eq(self, other)
    }
}

/// The map that a list of entries stands for: each key with the record of the
/// first entry that holds it.
pub open spec fn entries_map<K, V>(entries: Seq<(K, V)>) -> Map<K, V>
    decreases entries.len(),
{
    if entries.len() == 0 {
        Map::empty()
    } else {
        let earlier = entries_map(entries.drop_last());
        if earlier.contains_key(entries.last().0) {
            earlier
        } else {
            earlier.insert(entries.last().0, entries.last().1)
        }
    }
}

/// Whether the entry at `index` is the first that holds its key.
pub open spec fn is_first_entry<K, V>(entries: Seq<(K, V)>, index: int) -> bool {
    &&& 0 <= index < entries.len()
    &&& forall|k: int| 0 <= k < index ==> (#[trigger] entries[k]).0 != entries[index].0
}

/// A map from keys to records. A key holds at most one record; setting a key
/// again replaces what it held.
pub struct Store<K, V> {
    entries: Vec<(K, V)>,
}

/// Whether `index` is the first place in `entries` that holds `key`.
spec fn is_first<K, V>(entries: Seq<(K, V)>, key: K, index: int) -> bool {
    &&& 0 <= index < entries.len()
    &&& entries[index].0 == key
    &&& forall|k: int| 0 <= k < index ==> (#[trigger] entries[k]).0 != key
}

/// The first place in `entries` that holds `key`.
spec fn first_index<K, V>(entries: Seq<(K, V)>, key: K) -> int {
    choose|index: int| is_first(entries, key, index)
}

/// Each key with the record at the first place that holds it.
spec fn map_of<K, V>(entries: Seq<(K, V)>) -> Map<K, V> {
    Map::new(
        |key: K| exists|index: int| is_first(entries, key, index),
        |key: K| entries[first_index(entries, key)].1,
    )
}

/// The first place that holds a key is the one place that holds it with no place
/// before it doing so, and the map holds the record of that place.
proof fn lemma_first_index<K, V>(entries: Seq<(K, V)>, key: K, index: int)
    requires
        is_first(entries, key, index),
    ensures
        first_index(entries, key) == index,
        map_of(entries).contains_key(key),
        map_of(entries)[key] == entries[index].1,
{
    let chosen = first_index(entries, key);
    assert(is_first(entries, key, chosen));
    if chosen < index {
        assert(entries[chosen].0 != key);
    }
    if index < chosen {
        assert(entries[index].0 != key);
    }
}

/// A key that some place holds has a first place that holds it.
proof fn lemma_present<K, V>(entries: Seq<(K, V)>, key: K, index: int)
    requires
        0 <= index < entries.len(),
        entries[index].0 == key,
    ensures
        map_of(entries).contains_key(key),
    decreases index,
{
    if exists|k: int| 0 <= k < index && (#[trigger] entries[k]).0 == key {
        let k = choose|k: int| 0 <= k < index && (#[trigger] entries[k]).0 == key;
        lemma_present(entries, key, k);
    } else {
        assert(is_first(entries, key, index));
    }
}

/// Putting a record at the first place that holds its key, or at the end where no
/// place holds it, inserts it into the map.
proof fn lemma_map_insert<K, V>(before: Seq<(K, V)>, after: Seq<(K, V)>, key: K, index: int)
    requires
        0 <= index < after.len(),
        after[index].0 == key,
        forall|k: int| 0 <= k < before.len() && k != index ==> #[trigger] after[k] == before[k],
        forall|k: int| 0 <= k < before.len() && k < index ==> (#[trigger] before[k]).0 != key,
        index < before.len() ==> after.len() == before.len() && before[index].0 == key,
        index >= before.len() ==> after.len() == before.len() + 1,
    ensures
        map_of(after) =~= map_of(before).insert(key, after[index].1),
{
    lemma_first_index(after, key, index);
    assert forall|other: K| other != key && map_of(before).contains_key(other) implies {
        &&& #[trigger] map_of(after).contains_key(other)
        &&& map_of(after)[other] == map_of(before)[other]
    } by {
        let at = first_index(before, other);
        lemma_first_index(after, other, at);
    }
    assert forall|other: K| other != key && map_of(after).contains_key(other) implies
        #[trigger] map_of(before).contains_key(other) by {
        let at = first_index(after, other);
        assert(is_first(after, other, at));
        assert(at != index);
        assert(at < before.len());
        assert(after[at] == before[at]);
        assert forall|k: int| 0 <= k < at implies (#[trigger] before[k]).0 != other by {
            if k != index {
                assert(after[k] == before[k]);
                assert(after[k].0 != other);
            }
        }
        assert(is_first(before, other, at));
        lemma_first_index(before, other, at);
    }
}

/// The entries of a store stand for its map.
proof fn lemma_map_of_is_entries_map<K, V>(entries: Seq<(K, V)>)
    ensures
        map_of(entries) == entries_map(entries),
    decreases entries.len(),
{
    if entries.len() > 0 {
        let earlier = entries.drop_last();
        let key = entries.last().0;
        lemma_map_of_is_entries_map(earlier);
        if map_of(earlier).contains_key(key) {
            let at = first_index(earlier, key);
            assert forall|other: K| map_of(entries).contains_key(other) implies #[trigger] map_of(
                earlier,
            ).contains_key(other) by {
                let first = first_index(entries, other);
                assert(is_first(entries, other, first));
                if first == entries.len() - 1 {
                    assert(entries[at].0 == key);
                }
                assert(earlier[first] == entries[first]);
                lemma_present(earlier, other, first);
            }
            assert forall|other: K| map_of(earlier).contains_key(other) implies #[trigger] map_of(
                entries,
            ).contains_key(other) && map_of(entries)[other] == map_of(earlier)[other] by {
                let first = first_index(earlier, other);
                assert(is_first(earlier, other, first));
                assert(is_first(entries, other, first)) by {
                    assert forall|k: int| 0 <= k < first implies (#[trigger] entries[k]).0
                        != other by {
                        assert(earlier[k].0 != other);
                    }
                }
                lemma_first_index(entries, other, first);
                lemma_first_index(earlier, other, first);
            }
        } else {
            assert forall|k: int| 0 <= k < earlier.len() implies (#[trigger] earlier[k]).0
                != key by {
                if earlier[k].0 == key {
                    lemma_present(earlier, key, k);
                }
            }
            lemma_map_insert(earlier, entries, key, entries.len() - 1);
        }
    }
}

/// The map of a list of entries holds exactly the entries that are the first to
/// hold their key.
pub proof fn lemma_first_entries_are_the_map<K, V>(entries: Seq<(K, V)>)
    ensures
        forall|index: int| #[trigger]
            is_first_entry(entries, index) ==> entries_map(entries).contains_key(entries[index].0)
                && entries_map(entries)[entries[index].0] == entries[index].1,
        forall|key: K| #[trigger]
            entries_map(entries).contains_key(key) ==> exists|index: int|
                is_first_entry(entries, index) && entries[index].0 == key,
{
    lemma_map_of_is_entries_map(entries);
    assert forall|index: int| #[trigger] is_first_entry(entries, index) implies entries_map(
        entries,
    ).contains_key(entries[index].0) && entries_map(entries)[entries[index].0]
        == entries[index].1 by {
        assert(is_first(entries, entries[index].0, index));
        lemma_first_index(entries, entries[index].0, index);
    }
    assert forall|key: K| #[trigger] entries_map(entries).contains_key(key) implies exists|
        index: int,
    |
        is_first_entry(entries, index) && entries[index].0 == key by {
        let index = first_index(entries, key);
        assert(is_first(entries, key, index));
        assert(is_first_entry(entries, index));
    }
}

/// Whether the entry at `index` is the first that holds its key.
pub fn first_to_hold<K: StoreKey, V>(entries: &Vec<(K, V)>, index: usize) -> (first: bool)
    requires
        index < entries.len(),
    ensures
        first == is_first_entry(entries@, index as int),
{
    let mut earlier: usize = 0;
    while earlier < index
        invariant
            earlier <= index < entries.len(),
            forall|k: int| 0 <= k < earlier ==> (#[trigger] entries@[k]).0 != entries@[index as int].0,
        decreases index - earlier,
    {
        if entries[earlier].0.same_key(&entries[index].0) {
            return false;
        }
        earlier += 1;
    }
    true
}

impl<K, V> View for Store<K, V> {
    type V = Map<K, V>;

    closed spec fn view(&self) -> Map<K, V> {
        map_of(self.entries@)
    }
}

impl<K: StoreKey, V> Store<K, V> {
    /// A store that holds nothing.
    pub fn new() -> (store: Store<K, V>)
        ensures
            store@ == Map::<K, V>::empty(),
    {
        Store { entries: Vec::new() }
    }

    /// The store that a list of entries stands for. Where two entries hold one key,
    /// the first counts.
    pub fn from_entries(entries: Vec<(K, V)>) -> (store: Store<K, V>)
        ensures
            store@ == entries_map(entries@),
    {
        let store = Store { entries };
        proof {
            lemma_map_of_is_entries_map(store.entries@);
        }
        store
    }

    /// The entries of the store: a list that stands for its map.
    pub fn into_entries(self) -> (entries: Vec<(K, V)>)
        ensures
            entries_map(entries@) == self@,
    {
        proof {
            lemma_map_of_is_entries_map(self.entries@);
        }
        self.entries
    }

    /// The first place that holds `key`, if one does.
    fn find(&self, key: &K) -> (found: Option<usize>)
        ensures
            found matches Some(index) ==> is_first(self.entries@, *key, index as int),
            found is None ==> forall|k: int|
                0 <= k < self.entries@.len() ==> (#[trigger] self.entries@[k]).0 != *key,
    {
        let mut index: usize = 0;
        while index < self.entries.len()
            invariant
                index <= self.entries.len(),
                forall|k: int| 0 <= k < index ==> (#[trigger] self.entries@[k]).0 != *key,
            decreases self.entries.len() - index,
        {
            if self.entries[index].0.same_key(key) {
                return Some(index);
            }
            index += 1;
        }
        None
    }

    /// Whether `key` holds a record.
    pub fn has(&self, key: &K) -> (held: bool)
        ensures
            held == self@.contains_key(*key),
    {
        self.find(key).is_some()
    }

    /// The record that `key` holds, if it holds one.
    pub fn get(&self, key: &K) -> (record: Option<&V>)
        ensures
            record is Some <==> self@.contains_key(*key),
            record is Some ==> *record->0 == self@[*key],
    {
        match self.find(key) {
            Some(index) => Some(&self.entries[index].1),
            None => None,
        }
    }

    /// Puts `value` under `key`, in place of what the key held.
    pub fn set(&mut self, key: K, value: V)
        ensures
            final(self)@ == old(self)@.insert(key, value),
    {
        match self.find(&key) {
            Some(index) => {
                self.entries[index].1 = value;
                proof {
                    lemma_map_insert(old(self).entries@, self.entries@, key, index as int);
                }
            },
            None => {
                self.entries.push((key, value));
                proof {
                    lemma_map_insert(
                        old(self).entries@,
                        self.entries@,
                        key,
                        old(self).entries@.len() as int,
                    );
                }
            },
        }
    }
}

} // verus!
