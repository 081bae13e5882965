//! A list of entries keyed by actor identity (id and name), kept in
//! insertion order, with no key twice. Its mathematical form is a map from
//! key to value.
use vstd::prelude::*;
use crate::actor::message::ActorId;

verus! {

/// The mathematical form of an actor identity used as a key: id and name.
pub type IdKey = (u128, Seq<char>);

/// No key occurs twice in `s`.
pub open spec fn keys_unique<V>(s: Seq<(ActorId, V)>) -> bool {
    forall|i: int, j: int| 0 <= i < s.len() && 0 <= j < s.len() && i != j ==> s[i].0@ != s[j].0@
}

/// The key `k` occurs at some position of `s`.
pub open spec fn has_key<V>(s: Seq<(ActorId, V)>, k: IdKey) -> bool {
    exists|i: int| 0 <= i < s.len() && #[trigger] s[i].0@ == k
}

/// The position of key `k` in `s`.
pub open spec fn key_index<V>(s: Seq<(ActorId, V)>, k: IdKey) -> int {
    choose|i: int| 0 <= i < s.len() && #[trigger] s[i].0@ == k
}

/// The map from each key of `s` to its value.
pub open spec fn seq_map<V>(s: Seq<(ActorId, V)>) -> Map<IdKey, V> {
    Map::new(|k: IdKey| has_key(s, k), |k: IdKey| s[key_index(s, k)].1)
}

/// With unique keys, the value of key `s[i].0@` in the map is `s[i].1`.
pub proof fn lemma_seq_map_at<V>(s: Seq<(ActorId, V)>, i: int)
    requires
        keys_unique(s),
        0 <= i < s.len(),
    ensures
        seq_map(s).contains_key(s[i].0@),
        seq_map(s)[s[i].0@] == s[i].1,
{
    assert(has_key(s, s[i].0@));
    let j = key_index(s, s[i].0@);
    assert(j == i);
}

/// Appending an entry with a new key inserts it in the map.
pub proof fn lemma_seq_map_push<V>(s: Seq<(ActorId, V)>, k: ActorId, v: V)
    requires
        keys_unique(s),
        !has_key(s, k@),
    ensures
        keys_unique(s.push((k, v))),
        seq_map(s.push((k, v))) == seq_map(s).insert(k@, v),
{
    let t = s.push((k, v));
    assert forall|i: int, j: int| 0 <= i < t.len() && 0 <= j < t.len() && i != j implies t[i].0@ != t[j].0@ by {
        if i < s.len() && j < s.len() {
        } else if i == s.len() {
            assert(s[j].0@ == t[j].0@);
        } else {
            assert(s[i].0@ == t[i].0@);
        }
    }
    assert forall|key: IdKey| #[trigger] seq_map(t).contains_key(key) == seq_map(s).insert(k@, v).contains_key(key) by {
        if has_key(s, key) {
            let i = key_index(s, key);
            assert(t[i].0@ == key);
        }
        if has_key(t, key) && key != k@ {
            let i = key_index(t, key);
            assert(s[i].0@ == key);
        }
        if key == k@ {
            assert(t[s.len() as int].0@ == k@);
        }
    }
    assert forall|key: IdKey| #[trigger] seq_map(t).contains_key(key) implies seq_map(t)[key] == seq_map(s).insert(k@, v)[key] by {
        if key == k@ {
            lemma_seq_map_at(t, s.len() as int);
        } else {
            let i = key_index(s, key);
            lemma_seq_map_at(s, i);
            assert(t[i] == s[i]);
            lemma_seq_map_at(t, i);
        }
    }
    assert(seq_map(t) =~= seq_map(s).insert(k@, v));
}

/// Replacing the entry at position `i` by one with the same key changes
/// that key's value in the map.
pub proof fn lemma_seq_map_update<V>(s: Seq<(ActorId, V)>, i: int, key_id: ActorId, v: V)
    requires
        keys_unique(s),
        0 <= i < s.len(),
        key_id@ == s[i].0@,
    ensures
        keys_unique(s.update(i, (key_id, v))),
        seq_map(s.update(i, (key_id, v))) == seq_map(s).insert(s[i].0@, v),
{
    let k = s[i].0@;
    let t = s.update(i, (key_id, v));
    assert forall|a: int, b: int| 0 <= a < t.len() && 0 <= b < t.len() && a != b implies t[a].0@ != t[b].0@ by {
        assert(t[a].0@ == s[a].0@);
        assert(t[b].0@ == s[b].0@);
    }
    assert forall|key: IdKey| #[trigger] seq_map(t).contains_key(key) == seq_map(s).insert(k, v).contains_key(key) by {
        if has_key(s, key) {
            let j = key_index(s, key);
            assert(t[j].0@ == key);
        }
        if has_key(t, key) {
            let j = key_index(t, key);
            assert(s[j].0@ == key);
        }
        if key == k {
            assert(t[i].0@ == k);
        }
    }
    assert forall|key: IdKey| #[trigger] seq_map(t).contains_key(key) implies seq_map(t)[key] == seq_map(s).insert(k, v)[key] by {
        let j = key_index(t, key);
        lemma_seq_map_at(t, j);
        if j != i {
            assert(s[j] == t[j]);
            lemma_seq_map_at(s, j);
        }
    }
    assert(seq_map(t) =~= seq_map(s).insert(k, v));
}

/// Removing the entry at position `i` removes its key from the map.
pub proof fn lemma_seq_map_remove<V>(s: Seq<(ActorId, V)>, i: int)
    requires
        keys_unique(s),
        0 <= i < s.len(),
    ensures
        keys_unique(s.remove(i)),
        seq_map(s.remove(i)) == seq_map(s).remove(s[i].0@),
{
    let k = s[i].0@;
    let t = s.remove(i);
    assert forall|a: int, b: int| 0 <= a < t.len() && 0 <= b < t.len() && a != b implies t[a].0@ != t[b].0@ by {
        let a2 = if a < i { a } else { a + 1 };
        let b2 = if b < i { b } else { b + 1 };
        assert(t[a] == s[a2]);
        assert(t[b] == s[b2]);
    }
    assert forall|key: IdKey| #[trigger] seq_map(t).contains_key(key) == seq_map(s).remove(k).contains_key(key) by {
        if has_key(t, key) {
            let j = key_index(t, key);
            let j2 = if j < i { j } else { j + 1 };
            assert(t[j] == s[j2]);
            assert(key != k);
        }
        if has_key(s, key) && key != k {
            let j = key_index(s, key);
            assert(j != i);
            let j2 = if j < i { j } else { j - 1 };
            assert(t[j2] == s[j]);
        }
    }
    assert forall|key: IdKey| #[trigger] seq_map(t).contains_key(key) implies seq_map(t)[key] == seq_map(s).remove(k)[key] by {
        let j = key_index(t, key);
        lemma_seq_map_at(t, j);
        let j2 = if j < i { j } else { j + 1 };
        assert(t[j] == s[j2]);
        lemma_seq_map_at(s, j2);
    }
    assert(seq_map(t) =~= seq_map(s).remove(k));
}

/// Entries keyed by actor identity, in insertion order, with unique keys.
pub struct Keyed<V> {
    items: Vec<(ActorId, V)>,
}

impl<V> Keyed<V> {
    /// The entries, in insertion order.
    pub closed spec fn entries(&self) -> Seq<(ActorId, V)> {
        self.items@
    }

    /// The map from key to value.
    pub open spec fn map(&self) -> Map<IdKey, V> {
        seq_map(self.entries())
    }

    /// The invariant: no key twice.
    pub open spec fn wf(&self) -> bool {
        keys_unique(self.entries())
    }

    /// An empty list.
    pub fn new() -> (r: Self)
        ensures
            r.wf(),
            r.entries() == Seq::<(ActorId, V)>::empty(),
            r.map() == Map::<IdKey, V>::empty(),
    {
        let r = Keyed { items: Vec::new() };
        assert(r.map() =~= Map::<IdKey, V>::empty());
        r
    }

    /// The number of entries.
    pub fn len(&self) -> (r: usize)
        ensures
            r == self.entries().len(),
    {
        self.items.len()
    }

    /// The entries, in insertion order.
    pub fn as_slice(&self) -> (r: &[(ActorId, V)])
        ensures
            r@ == self.entries(),
    {
        self.items.as_slice()
    }

    /// The position of key `k`, if it is there.
    pub fn position(&self, k: &ActorId) -> (r: Option<usize>)
        requires
            self.wf(),
        ensures
            match r {
                Some(i) => i < self.entries().len() && self.entries()[i as int].0@ == k@,
                None => !has_key(self.entries(), k@),
            },
    {
        let mut i: usize = 0;
        while i < self.items.len()
            invariant
                i <= self.items@.len(),
                forall|j: int| 0 <= j < i ==> self.items@[j].0@ != k@,
            decreases self.items@.len() - i,
        {
            if self.items[i].0.same(k) {
                return Some(i);
            }
            i = i + 1;
        }
        None
    }

    /// The value of key `k`, if it is there.
    pub fn get(&self, k: &ActorId) -> (r: Option<&V>)
        requires
            self.wf(),
        ensures
            match r {
                Some(v) => self.map().contains_key(k@) && *v == self.map()[k@],
                None => !self.map().contains_key(k@),
            },
    {
        match self.position(k) {
            Some(i) => {
                proof {
                    lemma_seq_map_at(self.entries(), i as int);
                }
                Some(&self.items[i].1)
            },
            None => None,
        }
    }

    /// Sets the value of key `k`: in place when the key is there, else as a
    /// new last entry.
    pub fn insert(&mut self, k: ActorId, v: V)
        requires
            old(self).wf(),
        ensures
            final(self).wf(),
            final(self).map() == old(self).map().insert(k@, v),
            has_key(old(self).entries(), k@) ==> final(self).entries().len() == old(self).entries().len(),
            !has_key(old(self).entries(), k@) ==> final(self).entries() == old(self).entries().push((k, v)),
    {
        match self.position(&k) {
            Some(i) => {
                proof {
                    lemma_seq_map_update(self.items@, i as int, k, v);
                }
                self.items.set(i, (k, v));
            },
            None => {
                proof {
                    lemma_seq_map_push(self.items@, k, v);
                }
                self.items.push((k, v));
            },
        }
    }

    /// Removes key `k` and returns its value, if it was there; the other
    /// entries keep their order.
    pub fn remove(&mut self, k: &ActorId) -> (r: Option<V>)
        requires
            old(self).wf(),
        ensures
            final(self).wf(),
            final(self).map() == old(self).map().remove(k@),
            match r {
                Some(v) => old(self).map().contains_key(k@) && v == old(self).map()[k@],
                None => !old(self).map().contains_key(k@) && final(self).entries() == old(self).entries(),
            },
    {
        match self.position(k) {
            Some(i) => {
                proof {
                    lemma_seq_map_at(self.items@, i as int);
                    lemma_seq_map_remove(self.items@, i as int);
                }
                let (_, v) = self.items.remove(i);
                Some(v)
            },
            None => {
                assert(self.map().remove(k@) =~= self.map());
                None
            },
        }
    }
}

} // verus!
