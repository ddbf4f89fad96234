//! A small keyed store: the in-memory form of a component's persisted records.

use vstd::prelude::*;
use crate::address::BytesN;

verus! {

/// The key under which a record is kept.
pub type RecordKey = BytesN<32>;

/// One record of a table.
pub struct Entry<V> {
    key: RecordKey,
    value: V,
}

/// A finite map from 32-byte keys to values, with at most one record per key.
pub struct Table<V> {
    entries: Vec<Entry<V>>,
}

/// Whether position `i` of `s` holds the record for `k`.
pub closed spec fn holds_at<V>(s: Seq<Entry<V>>, k: RecordKey, i: int) -> bool {
    0 <= i < s.len() && s[i].key == k
}

/// No key occurs at two positions.
pub closed spec fn distinct_keys<V>(s: Seq<Entry<V>>) -> bool {
    forall|i: int, j: int|
        0 <= i < s.len() && 0 <= j < s.len() && #[trigger] s[i].key == #[trigger] s[j].key ==> i
            == j
}

/// The map that a sequence of records stands for.
pub closed spec fn records_map<V>(s: Seq<Entry<V>>) -> Map<RecordKey, V> {
    Map::new(
        |k: RecordKey| exists|i: int| holds_at(s, k, i),
        |k: RecordKey| s[choose|i: int| holds_at(s, k, i)].value,
    )
}

proof fn lemma_records_at<V>(s: Seq<Entry<V>>, i: int)
    requires
        distinct_keys(s),
        0 <= i < s.len(),
    ensures
        records_map(s).contains_key(s[i].key),
        records_map(s)[s[i].key] == s[i].value,
{
    let k = s[i].key;
    assert(holds_at(s, k, i));
    let c = choose|c: int| holds_at(s, k, c);
}

proof fn lemma_records_absent<V>(s: Seq<Entry<V>>, k: RecordKey)
    requires
        forall|i: int| 0 <= i < s.len() ==> s[i].key != k,
    ensures
        !records_map(s).contains_key(k),
{
}

proof fn lemma_records_push<V>(s: Seq<Entry<V>>, e: Entry<V>)
    requires
        distinct_keys(s),
        !records_map(s).contains_key(e.key),
    ensures
        distinct_keys(s.push(e)),
        records_map(s.push(e)) == records_map(s).insert(e.key, e.value),
{
    let t = s.push(e);
    assert forall|i: int| 0 <= i < s.len() implies s[i].key != e.key by {
        if s[i].key == e.key {
            assert(holds_at(s, e.key, i));
        }
    }
    assert forall|k: RecordKey| #[trigger]
        records_map(t).contains_key(k) == records_map(s).insert(e.key, e.value).contains_key(
            k,
        ) by {
        if records_map(t).contains_key(k) {
            let i = choose|i: int| holds_at(t, k, i);
            if i < s.len() {
                assert(holds_at(s, k, i));
            }
        }
        if records_map(s).contains_key(k) {
            let i = choose|i: int| holds_at(s, k, i);
            assert(holds_at(t, k, i));
        }
        if k == e.key {
            assert(holds_at(t, k, s.len() as int));
        }
    }
    assert forall|k: RecordKey| #[trigger]
        records_map(t).contains_key(k) implies records_map(t)[k] == records_map(s).insert(
        e.key,
        e.value,
    )[k] by {
        let i = choose|i: int| holds_at(t, k, i);
        lemma_records_at(t, i);
        if i < s.len() {
            lemma_records_at(s, i);
        }
    }
}

proof fn lemma_records_update<V>(s: Seq<Entry<V>>, i: int, e: Entry<V>)
    requires
        distinct_keys(s),
        0 <= i < s.len(),
        s[i].key == e.key,
    ensures
        distinct_keys(s.update(i, e)),
        records_map(s.update(i, e)) == records_map(s).insert(e.key, e.value),
{
    let t = s.update(i, e);
    assert forall|a: int, b: int|
        0 <= a < t.len() && 0 <= b < t.len() && #[trigger] t[a].key == #[trigger] t[b].key implies a
        == b by {
    }
    assert forall|k: RecordKey| #[trigger]
        records_map(t).contains_key(k) == records_map(s).insert(e.key, e.value).contains_key(
            k,
        ) by {
        if records_map(t).contains_key(k) {
            let j = choose|j: int| holds_at(t, k, j);
            assert(holds_at(s, k, j));
        }
        if records_map(s).contains_key(k) {
            let j = choose|j: int| holds_at(s, k, j);
            assert(holds_at(t, k, j));
        }
        if k == e.key {
            assert(holds_at(t, k, i));
        }
    }
    assert forall|k: RecordKey| #[trigger]
        records_map(t).contains_key(k) implies records_map(t)[k] == records_map(s).insert(
        e.key,
        e.value,
    )[k] by {
        let j = choose|j: int| holds_at(t, k, j);
        lemma_records_at(t, j);
        if j != i {
            lemma_records_at(s, j);
        }
    }
}

impl<V> View for Table<V> {
    type V = Map<RecordKey, V>;

    closed spec fn view(&self) -> Map<RecordKey, V> {
        records_map(self.entries@)
    }
}

impl<V> Table<V> {
    #[verifier::type_invariant]
    spec fn well_formed(&self) -> bool {
        distinct_keys(self.entries@)
    }

    /// The table without records.
    pub fn new() -> (r: Self)
        ensures
            r@ == Map::<RecordKey, V>::empty(),
    {
        Table { entries: Vec::new() }
    }

    /// The position of the record for `key`, if there is one.
    fn position(&self, key: &RecordKey) -> (r: Option<usize>)
        ensures
            match r {
                Some(i) => i < self.entries@.len() && self.entries@[i as int].key == *key,
                None => !self@.contains_key(*key),
            },
    {
        let mut i: usize = 0;
        while i < self.entries.len()
            invariant
                i <= self.entries@.len(),
                forall|j: int| 0 <= j < i ==> self.entries@[j].key != *key,
            decreases self.entries@.len() - i,
        {
            if self.entries[i].key == *key {
                return Some(i);
            }
            i += 1;
        }
        proof {
            lemma_records_absent(self.entries@, *key);
        }
        None
    }

    /// Whether the table holds a record for `key`.
    pub fn contains_key(&self, key: &RecordKey) -> (r: bool)
        ensures
            r == self@.contains_key(*key),
    {
        match self.position(key) {
            Some(i) => {
                proof {
                    use_type_invariant(self);
                    lemma_records_at(self.entries@, i as int);
                }
                true
            },
            None => false,
        }
    }

    /// The record for `key`, if there is one.
    pub fn get(&self, key: &RecordKey) -> (r: Option<&V>)
        ensures
            match r {
                Some(v) => self@.contains_key(*key) && *v == self@[*key],
                None => !self@.contains_key(*key),
            },
    {
        match self.position(key) {
            Some(i) => {
                proof {
                    use_type_invariant(self);
                    lemma_records_at(self.entries@, i as int);
                }
                Some(&self.entries[i].value)
            },
            None => None,
        }
    }

    /// Stores `value` under `key`, replacing the record that was there.
    pub fn insert(&mut self, key: RecordKey, value: V)
        ensures
            final(self)@ == old(self)@.insert(key, value),
    {
        proof {
            use_type_invariant(&*self);
        }
        let found = self.position(&key);
        let mut taken = Table::new();
        std::mem::swap(self, &mut taken);
        let Table { entries } = taken;
        let mut entries = entries;
        match found {
            Some(i) => {
                proof {
                    lemma_records_update(entries@, i as int, Entry { key, value });
                }
                entries.set(i, Entry { key, value });
            },
            None => {
                proof {
                    lemma_records_push(entries@, Entry { key, value });
                }
                entries.push(Entry { key, value });
            },
        }
        *self = Table { entries };
    }
}

} // verus!
