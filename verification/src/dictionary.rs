//! A small map from strings to values, kept as a list of entries whose keys
//! are pairwise distinct.

use crate::text::str_eq;
use vstd::prelude::*;

verus! {

/// The map that a list of key/value pairs denotes when it is read from
/// front to back and a later pair replaces an earlier one with the same key.
pub open spec fn pairs_map<T>(pairs: Seq<(Seq<char>, T)>) -> Map<Seq<char>, T>
    decreases pairs.len(),
{
    if pairs.len() == 0 {
        Map::empty()
    } else {
        pairs_map(pairs.drop_last()).insert(pairs.last().0, pairs.last().1)
    }
}

/// No key occurs twice in `pairs`.
pub open spec fn distinct_keys<T>(pairs: Seq<(Seq<char>, T)>) -> bool {
    forall|i: int, j: int|
        0 <= i < j < pairs.len() ==> (#[trigger] pairs[i]).0 != (#[trigger] pairs[j]).0
}

/// No pair of `pairs` has the key `key`.
pub open spec fn lacks_key<T>(pairs: Seq<(Seq<char>, T)>, key: Seq<char>) -> bool {
    forall|i: int| 0 <= i < pairs.len() ==> (#[trigger] pairs[i]).0 != key
}

/// The map of a list of pairs has a finite domain, and a key of the list is
/// a key of the map.
pub proof fn lemma_pairs_map_domain<T>(pairs: Seq<(Seq<char>, T)>)
    ensures
        pairs_map(pairs).dom().finite(),
        forall|i: int|
            0 <= i < pairs.len() ==> pairs_map(pairs).contains_key((#[trigger] pairs[i]).0),
        forall|k: Seq<char>|
            pairs_map(pairs).contains_key(k) ==> exists|i: int|
                0 <= i < pairs.len() && (#[trigger] pairs[i]).0 == k,
    decreases pairs.len(),
{
    if pairs.len() > 0 {
        let front = pairs.drop_last();
        lemma_pairs_map_domain(front);
        assert forall|i: int| 0 <= i < pairs.len() implies pairs_map(pairs).contains_key(
            (#[trigger] pairs[i]).0,
        ) by {
            if i < pairs.len() - 1 {
                assert(front[i] == pairs[i]);
            }
        }
        assert forall|k: Seq<char>| pairs_map(pairs).contains_key(k) implies exists|i: int|
            0 <= i < pairs.len() && (#[trigger] pairs[i]).0 == k by {
            if k == pairs.last().0 {
                assert(pairs[pairs.len() - 1].0 == k);
            } else {
                let i = choose|i: int| 0 <= i < front.len() && (#[trigger] front[i]).0 == k;
                assert(pairs[i] == front[i]);
            }
        }
    }
}

/// A key that no pair carries is no key of the map.
pub proof fn lemma_pairs_map_miss<T>(pairs: Seq<(Seq<char>, T)>, key: Seq<char>)
    requires
        lacks_key(pairs, key),
    ensures
        !pairs_map(pairs).contains_key(key),
{
    lemma_pairs_map_domain(pairs);
}

/// With distinct keys, the map sends the key of each pair to that pair's value.
pub proof fn lemma_pairs_map_hit<T>(pairs: Seq<(Seq<char>, T)>, i: int)
    requires
        distinct_keys(pairs),
        0 <= i < pairs.len(),
    ensures
        pairs_map(pairs).contains_key(pairs[i].0),
        pairs_map(pairs)[pairs[i].0] == pairs[i].1,
    decreases pairs.len(),
{
    let front = pairs.drop_last();
    if i < pairs.len() - 1 {
        assert(front[i] == pairs[i]);
        assert(distinct_keys(front)) by {
            assert forall|a: int, b: int| 0 <= a < b < front.len() implies (#[trigger] front[a]).0
                != (#[trigger] front[b]).0 by {
                assert(front[a] == pairs[a]);
                assert(front[b] == pairs[b]);
            }
        }
        lemma_pairs_map_hit(front, i);
        assert(pairs[i].0 != pairs[pairs.len() - 1].0);
    }
}

/// With distinct keys, the map has as many keys as the list has pairs.
pub proof fn lemma_pairs_map_len<T>(pairs: Seq<(Seq<char>, T)>)
    requires
        distinct_keys(pairs),
    ensures
        pairs_map(pairs).dom().finite(),
        pairs_map(pairs).len() == pairs.len(),
    decreases pairs.len(),
{
    lemma_pairs_map_domain(pairs);
    if pairs.len() > 0 {
        let front = pairs.drop_last();
        assert(distinct_keys(front)) by {
            assert forall|a: int, b: int| 0 <= a < b < front.len() implies (#[trigger] front[a]).0
                != (#[trigger] front[b]).0 by {
                assert(front[a] == pairs[a]);
                assert(front[b] == pairs[b]);
            }
        }
        lemma_pairs_map_len(front);
        assert(lacks_key(front, pairs.last().0)) by {
            assert forall|a: int| 0 <= a < front.len() implies (#[trigger] front[a]).0
                != pairs.last().0 by {
                assert(front[a] == pairs[a]);
                assert(pairs[a].0 != pairs[pairs.len() - 1].0);
            }
        }
        lemma_pairs_map_miss(front, pairs.last().0);
    }
}

/// Replacing the value of the pair at `i` is an insertion under that pair's key.
pub proof fn lemma_pairs_map_update<T>(pairs: Seq<(Seq<char>, T)>, i: int, value: T)
    requires
        distinct_keys(pairs),
        0 <= i < pairs.len(),
    ensures
        distinct_keys(pairs.update(i, (pairs[i].0, value))),
        pairs_map(pairs.update(i, (pairs[i].0, value))) == pairs_map(pairs).insert(
            pairs[i].0,
            value,
        ),
    decreases pairs.len(),
{
    let key = pairs[i].0;
    let after = pairs.update(i, (key, value));
    assert(distinct_keys(after)) by {
        assert forall|a: int, b: int| 0 <= a < b < after.len() implies (#[trigger] after[a]).0
            != (#[trigger] after[b]).0 by {
            assert(after[a].0 == pairs[a].0);
            assert(after[b].0 == pairs[b].0);
        }
    }
    let front = pairs.drop_last();
    if i == pairs.len() - 1 {
        assert(after.drop_last() =~= front);
        assert(pairs_map(after) =~= pairs_map(pairs).insert(key, value));
    } else {
        assert(front[i] == pairs[i]);
        assert(distinct_keys(front)) by {
            assert forall|a: int, b: int| 0 <= a < b < front.len() implies (#[trigger] front[a]).0
                != (#[trigger] front[b]).0 by {
                assert(front[a] == pairs[a]);
                assert(front[b] == pairs[b]);
            }
        }
        lemma_pairs_map_update(front, i, value);
        assert(after.drop_last() =~= front.update(i, (key, value)));
        assert(after.last() == pairs.last());
        assert(pairs[i].0 != pairs[pairs.len() - 1].0);
        assert(pairs_map(after) =~= pairs_map(pairs).insert(key, value));
    }
}

/// The entries of a list, each key and value taken by its view.
pub open spec fn pairs_of<V: View>(entries: Seq<(String, V)>) -> Seq<(Seq<char>, V::V)> {
    entries.map_values(|e: (String, V)| (e.0@, e.1@))
}

/// A map from strings to values of type `V`.
#[derive(Debug)]
pub struct Dictionary<V: View> {
    entries: Vec<(String, V)>,
}

/// A map from strings to strings.
pub type StringMap = Dictionary<String>;

impl<V: View> Dictionary<V> {
    /// The entries in the order in which their keys were first inserted, each
    /// key and value taken by its view.
    pub closed spec fn pairs(&self) -> Seq<(Seq<char>, V::V)> {
        pairs_of(self.entries@)
    }

    #[verifier::type_invariant]
    spec fn unique(&self) -> bool {
        distinct_keys(self.pairs())
    }

    /// An empty map.
    pub fn new() -> (map: Self)
        ensures
            map@ == Map::<Seq<char>, V::V>::empty(),
            map.pairs().len() == 0,
    {
        let map = Dictionary { entries: Vec::new() };
        assert(map.pairs() =~= Seq::empty());
        map
    }

    /// The number of entries. The entries stand under pairwise distinct
    /// keys, so this is also the number of keys of the map.
    pub fn len(&self) -> (n: usize)
        ensures
            n == self@.len(),
            n == self.pairs().len(),
            distinct_keys(self.pairs()),
            self@.dom().finite(),
    {
        proof {
            use_type_invariant(self);
            lemma_pairs_map_len(self.pairs());
        }
        self.entries.len()
    }

    /// Whether the map has no entries.
    pub fn is_empty(&self) -> (empty: bool)
        ensures
            empty == (self@.len() == 0),
    {
        self.len() == 0
    }

    fn position(&self, key: &str) -> (found: Option<usize>)
        ensures
            match found {
                Some(i) => i < self.pairs().len() && self.pairs()[i as int].0 == key@,
                None => lacks_key(self.pairs(), key@),
            },
    {
        let mut i: usize = 0;
        while i < self.entries.len()
            invariant
                i <= self.entries.len(),
                self.entries@.len() == self.pairs().len(),
                forall|j: int| 0 <= j < i ==> (#[trigger] self.pairs()[j]).0 != key@,
            decreases self.entries.len() - i,
        {
            if str_eq(self.entries[i].0.as_str(), key) {
                return Some(i);
            }
            i += 1;
        }
        None
    }

    /// The value stored under `key`, if there is one.
    pub fn get(&self, key: &str) -> (value: Option<&V>)
        ensures
            match value {
                Some(v) => self@.contains_key(key@) && v@ == self@[key@],
                None => !self@.contains_key(key@),
            },
    {
        proof {
            use_type_invariant(self);
        }
        match self.position(key) {
            Some(i) => {
                proof {
                    lemma_pairs_map_hit(self.pairs(), i as int);
                }
                Some(&self.entries[i].1)
            },
            None => {
                proof {
                    lemma_pairs_map_miss(self.pairs(), key@);
                }
                None
            },
        }
    }

    /// Whether a value is stored under `key`.
    pub fn contains_key(&self, key: &str) -> (present: bool)
        ensures
            present == self@.contains_key(key@),
    {
        self.get(key).is_some()
    }

    /// Stores `value` under `key`, replacing the value that was there.
    pub fn insert(&mut self, key: String, value: V)
        ensures
            final(self)@ == old(self)@.insert(key@, value@),
    {
        proof {
            use_type_invariant(&*self);
        }
        let found = self.position(key.as_str());
        let ghost before = self.pairs();
        let mut entries: Vec<(String, V)> = Vec::new();
        assert(pairs_of(entries@) =~= Seq::empty());
        core::mem::swap(&mut self.entries, &mut entries);
        match found {
            Some(i) => {
                proof {
                    lemma_pairs_map_update(before, i as int, value@);
                }
                entries[i] = (key, value);
                assert(pairs_of(entries@) =~= before.update(i as int, (key@, value@)));
            },
            None => {
                entries.push((key, value));
                let ghost after = pairs_of(entries@);
                assert(after =~= before.push((key@, value@)));
                assert(after.drop_last() =~= before);
                assert(distinct_keys(after)) by {
                    assert forall|a: int, b: int| 0 <= a < b < after.len() implies (
                    #[trigger] after[a]).0 != (#[trigger] after[b]).0 by {
                        assert(after[a] == before[a]);
                        if b < before.len() {
                            assert(after[b] == before[b]);
                        }
                    }
                }
            },
        }
        core::mem::swap(&mut self.entries, &mut entries);
    }

    /// The entry at position `i`, counted in the order in which the keys
    /// were first inserted.
    pub fn entry(&self, i: usize) -> (entry: Option<(&String, &V)>)
        ensures
            entry is Some <==> i < self.pairs().len(),
            entry matches Some((k, v)) ==> self.pairs()[i as int] == (k@, v@)
                && self@.contains_key(k@) && self@[k@] == v@,
    {
        proof {
            use_type_invariant(self);
        }
        if i < self.entries.len() {
            proof {
                lemma_pairs_map_hit(self.pairs(), i as int);
            }
            Some((&self.entries[i].0, &self.entries[i].1))
        } else {
            None
        }
    }
}

impl Dictionary<String> {
    /// Copies every entry of `other` into this map. Where both maps have a
    /// key, the value of `other` replaces the one that was here.
    pub fn extend_from(&mut self, other: &StringMap)
        ensures
            final(self)@ == old(self)@.union_prefer_right(other@),
    {
        let ghost start = self@;
        let ghost source = other.pairs();
        let n = other.entries.len();
        let mut i: usize = 0;
        assert(source.take(0) =~= Seq::empty());
        assert(start.union_prefer_right(pairs_map(source.take(0))) =~= start);
        while i < n
            invariant
                i <= n,
                n == other.entries@.len(),
                source == other.pairs(),
                source.len() == n,
                self@ == start.union_prefer_right(pairs_map(source.take(i as int))),
            decreases n - i,
        {
            let key = other.entries[i].0.clone();
            let value = other.entries[i].1.clone();
            proof {
                let shorter = source.take(i as int);
                let longer = source.take(i + 1);
                assert(longer.drop_last() =~= shorter);
                assert(longer.last() == source[i as int]);
                assert(source[i as int] == (key@, value@));
                assert(start.union_prefer_right(pairs_map(longer)) =~= start.union_prefer_right(
                    pairs_map(shorter),
                ).insert(key@, value@));
            }
            self.insert(key, value);
            i += 1;
        }
        assert(source.take(n as int) =~= source);
    }
}

impl Clone for Dictionary<String> {
    fn clone(&self) -> (copy: Self)
        ensures
            copy@ == self@,
    {
        let mut copy = Dictionary::new();
        copy.extend_from(self);
        assert(Map::<Seq<char>, Seq<char>>::empty().union_prefer_right(self@) =~= self@);
        copy
    }
}

impl<V: View> View for Dictionary<V> {
    type V = Map<Seq<char>, V::V>;

    open spec fn view(&self) -> Map<Seq<char>, V::V> {
        pairs_map(self.pairs())
    }
}

} // verus!
