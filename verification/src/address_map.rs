//! A map from addresses to values, kept as a list of entries in which no
//! address occurs twice.

use crate::address::AccountId;
use vstd::prelude::*;

verus! {

/// No address occurs twice among the entries.
spec fn distinct_keys<V>(entries: Seq<(AccountId, V)>) -> bool {
    forall|i: int, j: int| 0 <= i < j < entries.len() ==> entries[i].0 != entries[j].0
}

/// The entry at `i` is that of `key`.
spec fn keyed_at<V>(entries: Seq<(AccountId, V)>, i: int, key: AccountId) -> bool {
    0 <= i < entries.len() && entries[i].0 == key
}

/// The map that the entries stand for.
spec fn entries_map<V>(entries: Seq<(AccountId, V)>) -> Map<AccountId, V> {
    Map::new(
        |key: AccountId| exists|i: int| keyed_at(entries, i, key),
        |key: AccountId| entries[choose|i: int| keyed_at(entries, i, key)].1,
    )
}

proof fn lemma_lookup<V>(entries: Seq<(AccountId, V)>, i: int)
    requires
        distinct_keys(entries),
        0 <= i < entries.len(),
    ensures
        entries_map(entries).contains_key(entries[i].0),
        entries_map(entries)[entries[i].0] == entries[i].1,
{
    let key = entries[i].0;
    assert(keyed_at(entries, i, key));
    let j = choose|j: int| keyed_at(entries, j, key);
    assert(j == i);
}

proof fn lemma_push<V>(entries: Seq<(AccountId, V)>, key: AccountId, value: V)
    requires
        distinct_keys(entries),
        !entries_map(entries).contains_key(key),
    ensures
        distinct_keys(entries.push((key, value))),
        entries_map(entries.push((key, value))) == entries_map(entries).insert(key, value),
{
    let grown = entries.push((key, value));
    assert forall|i: int, j: int| 0 <= i < j < grown.len() implies grown[i].0 != grown[j].0 by {
        if j == entries.len() {
            assert(!keyed_at(entries, i, key));
        }
    }
    assert forall|k: AccountId| #[trigger]
        entries_map(grown).contains_key(k) == entries_map(entries).insert(
            key,
            value,
        ).contains_key(k) by {
        if entries_map(grown).contains_key(k) {
            let i = choose|i: int| keyed_at(grown, i, k);
            if i < entries.len() {
                assert(keyed_at(entries, i, k));
            }
        }
        if entries_map(entries).contains_key(k) {
            let i = choose|i: int| keyed_at(entries, i, k);
            assert(keyed_at(grown, i, k));
        }
        if k == key {
            assert(keyed_at(grown, entries.len() as int, k));
        }
    }
    assert forall|k: AccountId| #[trigger]
        entries_map(grown).contains_key(k) implies entries_map(grown)[k] == entries_map(
        entries,
    ).insert(key, value)[k] by {
        let i = choose|i: int| keyed_at(grown, i, k);
        lemma_lookup(grown, i);
        if i < entries.len() {
            assert(keyed_at(entries, i, k));
            lemma_lookup(entries, i);
        }
    }
    assert(entries_map(grown) =~= entries_map(entries).insert(key, value));
}

proof fn lemma_update<V>(entries: Seq<(AccountId, V)>, at: int, value: V)
    requires
        distinct_keys(entries),
        0 <= at < entries.len(),
    ensures
        distinct_keys(entries.update(at, (entries[at].0, value))),
        entries_map(entries.update(at, (entries[at].0, value))) == entries_map(entries).insert(
            entries[at].0,
            value,
        ),
{
    let key = entries[at].0;
    let changed = entries.update(at, (key, value));
    assert forall|k: AccountId| #[trigger]
        entries_map(changed).contains_key(k) == entries_map(entries).insert(
            key,
            value,
        ).contains_key(k) by {
        if entries_map(changed).contains_key(k) {
            let i = choose|i: int| keyed_at(changed, i, k);
            assert(keyed_at(entries, i, k));
        }
        if entries_map(entries).contains_key(k) {
            let i = choose|i: int| keyed_at(entries, i, k);
            assert(keyed_at(changed, i, k));
        }
        if k == key {
            assert(keyed_at(changed, at, k));
        }
    }
    assert forall|k: AccountId| #[trigger]
        entries_map(changed).contains_key(k) implies entries_map(changed)[k] == entries_map(
        entries,
    ).insert(key, value)[k] by {
        let i = choose|i: int| keyed_at(changed, i, k);
        lemma_lookup(changed, i);
        if i != at {
            assert(keyed_at(entries, i, k));
            lemma_lookup(entries, i);
        }
    }
    assert(entries_map(changed) =~= entries_map(entries).insert(key, value));
}

proof fn lemma_remove<V>(entries: Seq<(AccountId, V)>, at: int)
    requires
        distinct_keys(entries),
        0 <= at < entries.len(),
    ensures
        distinct_keys(entries.remove(at)),
        entries_map(entries.remove(at)) == entries_map(entries).remove(entries[at].0),
{
    let key = entries[at].0;
    let rest = entries.remove(at);
    assert forall|i: int| 0 <= i < rest.len() implies rest[i] == entries[if i < at {
        i
    } else {
        i + 1
    }] by {}
    assert forall|k: AccountId| #[trigger]
        entries_map(rest).contains_key(k) == entries_map(entries).remove(key).contains_key(
            k,
        ) by {
        if entries_map(rest).contains_key(k) {
            let i = choose|i: int| keyed_at(rest, i, k);
            let j = if i < at {
                i
            } else {
                i + 1
            };
            assert(keyed_at(entries, j, k));
        }
        if entries_map(entries).contains_key(k) && k != key {
            let j = choose|j: int| keyed_at(entries, j, k);
            let i = if j < at {
                j
            } else {
                j - 1
            };
            assert(keyed_at(rest, i, k));
        }
    }
    assert forall|k: AccountId| #[trigger]
        entries_map(rest).contains_key(k) implies entries_map(rest)[k] == entries_map(
        entries,
    ).remove(key)[k] by {
        let i = choose|i: int| keyed_at(rest, i, k);
        lemma_lookup(rest, i);
        let j = if i < at {
            i
        } else {
            i + 1
        };
        assert(keyed_at(entries, j, k));
        lemma_lookup(entries, j);
    }
    assert(entries_map(rest) =~= entries_map(entries).remove(key));
}

/// A map from addresses to values.
pub struct AddressMap<V> {
    entries: Vec<(AccountId, V)>,
}

impl<V> View for AddressMap<V> {
    type V = Map<AccountId, V>;

    closed spec fn view(&self) -> Map<AccountId, V> {
        entries_map(self.entries@)
    }
}

impl<V> AddressMap<V> {
    #[verifier::type_invariant]
    spec fn well_formed(self) -> bool {
        distinct_keys(self.entries@)
    }

    /// The map that holds nothing.
    pub fn new() -> (map: AddressMap<V>)
        ensures
            map@ == Map::<AccountId, V>::empty(),
    {
        let map = AddressMap { entries: Vec::new() };
        proof {
            assert(map@ =~= Map::<AccountId, V>::empty());
        }
        map
    }

    fn position(&self, key: &AccountId) -> (found: Option<usize>)
        ensures
            match found {
                Some(i) => keyed_at(self.entries@, i as int, *key),
                None => !self@.contains_key(*key),
            },
    {
        let mut i: usize = 0;
        while i < self.entries.len()
            invariant
                i <= self.entries.len(),
                forall|j: int| 0 <= j < i ==> !keyed_at(self.entries@, j, *key),
            decreases self.entries.len() - i,
        {
            if self.entries[i].0 == *key {
                return Some(i);
            }
            i = i + 1;
        }
        None
    }

    /// Whether the address holds a value.
    pub fn contains_key(&self, key: &AccountId) -> (held: bool)
        ensures
            held == self@.contains_key(*key),
    {
        match self.position(key) {
            Some(i) => {
                proof {
                    use_type_invariant(self);
                    lemma_lookup(self.entries@, i as int);
                }
                true
            },
            None => false,
        }
    }

    /// The value at the address, if it holds one.
    pub fn get(&self, key: &AccountId) -> (found: Option<&V>)
        ensures
            found == (if self@.contains_key(*key) {
                Some(&self@[*key])
            } else {
                None
            }),
    {
        match self.position(key) {
            Some(i) => {
                proof {
                    use_type_invariant(self);
                    lemma_lookup(self.entries@, i as int);
                }
                Some(&self.entries[i].1)
            },
            None => None,
        }
    }

    /// Puts the value at the address, in place of what was there.
    pub fn insert(&mut self, key: AccountId, value: V)
        ensures
            final(self)@ == old(self)@.insert(key, value),
    {
        proof {
            use_type_invariant(&*self);
        }
        let found = self.position(&key);
        let mut entries: Vec<(AccountId, V)> = Vec::new();
        std::mem::swap(&mut entries, &mut self.entries);
        match found {
            Some(i) => {
                proof {
                    lemma_update(entries@, i as int, value);
                }
                entries[i] = (key, value);
            },
            None => {
                proof {
                    lemma_push(entries@, key, value);
                }
                entries.push((key, value));
            },
        }
        self.entries = entries;
    }

    /// Takes away what is at the address.
    pub fn remove(&mut self, key: &AccountId)
        ensures
            final(self)@ == old(self)@.remove(*key),
    {
        proof {
            use_type_invariant(&*self);
        }
        let found = self.position(key);
        match found {
            Some(i) => {
                let mut entries: Vec<(AccountId, V)> = Vec::new();
                std::mem::swap(&mut entries, &mut self.entries);
                proof {
                    lemma_remove(entries@, i as int);
                }
                entries.remove(i);
                self.entries = entries;
            },
            None => {
                proof {
                    assert(self@ =~= self@.remove(*key));
                }
            },
        }
    }
}

} // verus!
