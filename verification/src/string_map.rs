//! A map from strings to strings that keeps its entries in insertion order.
use vstd::prelude::*;

use crate::text::{ascii_lowercase, lowercase_eq, str_eq};

verus! {

/// The view of one entry.
pub open spec fn pair_view(p: (String, String)) -> (Seq<char>, Seq<char>) {
    (p.0@, p.1@)
}

/// Whether no key occurs twice among the entries.
pub open spec fn keys_distinct(pairs: Seq<(Seq<char>, Seq<char>)>) -> bool {
    forall|i: int, j: int|
        0 <= i < pairs.len() && 0 <= j < pairs.len() && i != j ==> #[trigger] pairs[i].0
            != #[trigger] pairs[j].0
}

/// Whether `key` is the key of some entry.
pub open spec fn has_key(pairs: Seq<(Seq<char>, Seq<char>)>, key: Seq<char>) -> bool {
    exists|i: int| 0 <= i < pairs.len() && #[trigger] pairs[i].0 == key
}

/// The entries read as a map: each key to the value of the entry that holds it.
pub open spec fn pairs_to_map(pairs: Seq<(Seq<char>, Seq<char>)>) -> Map<Seq<char>, Seq<char>> {
    Map::new(
        |k: Seq<char>| has_key(pairs, k),
        |k: Seq<char>| pairs[choose|i: int| 0 <= i < pairs.len() && #[trigger] pairs[i].0 == k].1,
    )
}

/// The value of the first entry, in entry order, whose key is `lower` once
/// ASCII letters are lower-cased.
pub open spec fn first_lowercase_match(pairs: Seq<(Seq<char>, Seq<char>)>, lower: Seq<char>) -> Option<
    Seq<char>,
>
    decreases pairs.len(),
{
    if pairs.len() == 0 {
        None
    } else if ascii_lowercase(pairs[0].0) == lower {
        Some(pairs[0].1)
    } else {
        first_lowercase_match(pairs.drop_first(), lower)
    }
}

/// A map from strings to strings. No key occurs twice, and the entries keep
/// the order in which their keys were first inserted.
#[derive(Debug)]
pub struct StringMap {
    entries: Vec<(String, String)>,
}

impl View for StringMap {
    type V = Map<Seq<char>, Seq<char>>;

    open spec fn view(&self) -> Map<Seq<char>, Seq<char>> {
        pairs_to_map(self.pairs())
    }
}

impl Clone for StringMap {
    /// A copy with the same entries in the same order.
    fn clone(&self) -> (res: Self)
        ensures
            res.pairs() == self.pairs(),
    {
        proof {
            use_type_invariant(self);
        }
        let n = self.entries.len();
        let mut entries: Vec<(String, String)> = Vec::new();
        let mut i: usize = 0;
        while i < n
            invariant
                n == self.entries@.len(),
                i <= n,
                entries@.len() == i,
                forall|j: int|
                    0 <= j < i ==> #[trigger] pair_view(entries@[j]) == pair_view(self.entries@[j]),
            decreases n - i,
        {
            let k = self.entries[i].0.clone();
            let v = self.entries[i].1.clone();
            entries.push((k, v));
            i = i + 1;
        }
        assert(entries@.map_values(|p: (String, String)| pair_view(p)) =~= self.pairs());
        let res = StringMap { entries };
        res
    }
}

impl StringMap {
    /// The entries in order.
    pub closed spec fn pairs(&self) -> Seq<(Seq<char>, Seq<char>)> {
        self.entries@.map_values(|p: (String, String)| pair_view(p))
    }

    #[verifier::type_invariant]
    closed spec fn inv(&self) -> bool {
        keys_distinct(self.pairs())
    }

    /// An empty map.
    pub fn new() -> (m: StringMap)
        ensures
            m.pairs() == Seq::<(Seq<char>, Seq<char>)>::empty(),
            keys_distinct(m.pairs()),
            m@ == Map::<Seq<char>, Seq<char>>::empty(),
    {
        let m = StringMap { entries: Vec::new() };
        assert(m.pairs() =~= Seq::<(Seq<char>, Seq<char>)>::empty());
        assert(m@ =~= Map::<Seq<char>, Seq<char>>::empty());
        m
    }

    /// The number of entries.
    pub fn len(&self) -> (n: usize)
        ensures
            n == self.pairs().len(),
    {
        self.entries.len()
    }

    /// The entries in order; no key occurs twice among them.
    pub fn entries(&self) -> (r: &Vec<(String, String)>)
        ensures
            r@.map_values(|p: (String, String)| pair_view(p)) == self.pairs(),
            keys_distinct(self.pairs()),
    {
        proof {
            use_type_invariant(self);
        }
        &self.entries
    }

    /// The position of the entry with key `key`, if there is one.
    fn position(&self, key: &str) -> (r: Option<usize>)
        ensures
            match r {
                Some(i) => i < self.pairs().len() && self.pairs()[i as int].0 == key@,
                None => !has_key(self.pairs(), key@),
            },
    {
        let n = self.entries.len();
        let mut i: usize = 0;
        while i < n
            invariant
                n == self.entries@.len(),
                i <= n,
                forall|j: int| 0 <= j < i ==> self.pairs()[j].0 != key@,
            decreases n - i,
        {
            if str_eq(self.entries[i].0.as_str(), key) {
                return Some(i);
            }
            i = i + 1;
        }
        None
    }

    proof fn lemma_map_at(pairs: Seq<(Seq<char>, Seq<char>)>, i: int)
        requires
            keys_distinct(pairs),
            0 <= i < pairs.len(),
        ensures
            pairs_to_map(pairs).contains_key(pairs[i].0),
            pairs_to_map(pairs)[pairs[i].0] == pairs[i].1,
    {
        let k = pairs[i].0;
        assert(has_key(pairs, k));
        let j = choose|j: int| 0 <= j < pairs.len() && #[trigger] pairs[j].0 == k;
        assert(pairs[j].0 == pairs[i].0);
    }

    /// The value stored under `key`.
    pub fn get(&self, key: &str) -> (r: Option<&String>)
        ensures
            match r {
                Some(v) => self@.contains_key(key@) && self@[key@] == v@,
                None => !self@.contains_key(key@),
            },
    {
        match self.position(key) {
            Some(i) => {
                proof {
                    use_type_invariant(self);
                    Self::lemma_map_at(self.pairs(), i as int);
                }
                Some(&self.entries[i].1)
            },
            None => None,
        }
    }

    /// Stores `value` under `key`: an entry with that key has its value
    /// replaced in place, otherwise a new entry goes at the end.
    pub fn insert(&mut self, key: String, value: String)
        ensures
            final(self)@ == old(self)@.insert(key@, value@),
            keys_distinct(final(self).pairs()),
            has_key(old(self).pairs(), key@) ==> final(self).pairs().len() == old(self).pairs().len()
                && forall|j: int|
                0 <= j < old(self).pairs().len() ==> #[trigger] final(self).pairs()[j] == (if old(
                    self,
                ).pairs()[j].0 == key@ {
                    (key@, value@)
                } else {
                    old(self).pairs()[j]
                }),
            !has_key(old(self).pairs(), key@) ==> final(self).pairs() == old(self).pairs().push(
                (key@, value@),
            ),
    {
        proof {
            use_type_invariant(&*self);
        }
        let ghost old_pairs = self.pairs();
        let pos = self.position(key.as_str());
        let ghost kv = key@;
        let ghost vv = value@;
        let mut entries = Vec::new();
        std::mem::swap(&mut entries, &mut self.entries);
        match pos {
            Some(i) => {
                entries.set(i, (key, value));
                let ghost new_pairs = entries@.map_values(|p: (String, String)| pair_view(p));
                assert(forall|j: int|
                    0 <= j < old_pairs.len() ==> #[trigger] new_pairs[j] == (if old_pairs[j].0
                        == kv {
                        (kv, vv)
                    } else {
                        old_pairs[j]
                    }));
                assert(keys_distinct(new_pairs)) by {
                    assert forall|a: int, b: int|
                        0 <= a < new_pairs.len() && 0 <= b < new_pairs.len() && a != b implies #[trigger] new_pairs[a].0
                        != #[trigger] new_pairs[b].0 by {
                        assert(old_pairs[a].0 != old_pairs[b].0);
                        assert(new_pairs[a].0 == old_pairs[a].0);
                        assert(new_pairs[b].0 == old_pairs[b].0);
                    }
                }
                self.entries = entries;
                assert(self.pairs() == new_pairs);
                proof {
                    let m_old = pairs_to_map(old_pairs);
                    let m_new = pairs_to_map(new_pairs);
                    assert forall|k: Seq<char>| #[trigger]
                        m_new.dom().contains(k) <==> m_old.insert(kv, vv).dom().contains(k) by {
                        if has_key(old_pairs, k) {
                            let j = choose|j: int| 0 <= j < old_pairs.len() && #[trigger] old_pairs[j].0 == k;
                            assert(new_pairs[j].0 == k);
                        }
                        if has_key(new_pairs, k) {
                            let j = choose|j: int| 0 <= j < new_pairs.len() && #[trigger] new_pairs[j].0 == k;
                            assert(old_pairs[j].0 == k);
                        }
                    }
                    assert forall|k: Seq<char>| #[trigger] m_new.dom().contains(k) implies m_new[k]
                        == m_old.insert(kv, vv)[k] by {
                        let j = choose|j: int| 0 <= j < new_pairs.len() && #[trigger] new_pairs[j].0 == k;
                        assert(old_pairs[j].0 == k);
                        if k != kv {
                            let j2 = choose|j2: int| 0 <= j2 < old_pairs.len() && #[trigger] old_pairs[j2].0 == k;
                            assert(j == j2);
                        }
                    }
                    assert(m_new =~= m_old.insert(kv, vv));
                }
            },
            None => {
                entries.push((key, value));
                let ghost new_pairs = entries@.map_values(|p: (String, String)| pair_view(p));
                assert(new_pairs =~= old_pairs.push((kv, vv)));
                assert(keys_distinct(new_pairs)) by {
                    assert forall|a: int, b: int|
                        0 <= a < new_pairs.len() && 0 <= b < new_pairs.len() && a != b implies #[trigger] new_pairs[a].0
                        != #[trigger] new_pairs[b].0 by {
                        if a < old_pairs.len() && b < old_pairs.len() {
                            assert(old_pairs[a].0 != old_pairs[b].0);
                        } else if a < old_pairs.len() {
                            assert(old_pairs[a].0 != kv);
                        } else {
                            assert(old_pairs[b].0 != kv);
                        }
                    }
                }
                self.entries = entries;
                assert(self.pairs() == new_pairs);
                proof {
                    let m_old = pairs_to_map(old_pairs);
                    let m_new = pairs_to_map(new_pairs);
                    let n = old_pairs.len() as int;
                    assert(new_pairs[n].0 == kv);
                    assert forall|k: Seq<char>| #[trigger]
                        m_new.dom().contains(k) <==> m_old.insert(kv, vv).dom().contains(k) by {
                        if has_key(old_pairs, k) {
                            let j = choose|j: int| 0 <= j < old_pairs.len() && #[trigger] old_pairs[j].0 == k;
                            assert(new_pairs[j].0 == k);
                        }
                        if has_key(new_pairs, k) && k != kv {
                            let j = choose|j: int| 0 <= j < new_pairs.len() && #[trigger] new_pairs[j].0 == k;
                            assert(old_pairs[j].0 == k);
                        }
                    }
                    assert forall|k: Seq<char>| #[trigger] m_new.dom().contains(k) implies m_new[k]
                        == m_old.insert(kv, vv)[k] by {
                        let j = choose|j: int| 0 <= j < new_pairs.len() && #[trigger] new_pairs[j].0 == k;
                        if k == kv {
                            assert(j == n);
                        } else {
                            assert(old_pairs[j].0 == k);
                            let j2 = choose|j2: int| 0 <= j2 < old_pairs.len() && #[trigger] old_pairs[j2].0 == k;
                            assert(new_pairs[j2].0 == k);
                            assert(j == j2);
                        }
                    }
                    assert(m_new =~= m_old.insert(kv, vv));
                }
            },
        }
    }

    /// The value of the first entry whose key, with ASCII letters lower-cased,
    /// is `lower`.
    pub fn find_lowercase_key(&self, lower: &str) -> (r: Option<&String>)
        ensures
            match r {
                Some(v) => first_lowercase_match(self.pairs(), lower@) == Some(v@),
                None => first_lowercase_match(self.pairs(), lower@) is None,
            },
    {
        let n = self.entries.len();
        let mut i: usize = 0;
        let ghost pairs = self.pairs();
        assert(pairs.skip(0) =~= pairs);
        while i < n
            invariant
                n == self.entries@.len(),
                pairs == self.pairs(),
                i <= n,
                first_lowercase_match(pairs, lower@) == first_lowercase_match(
                    pairs.skip(i as int),
                    lower@,
                ),
            decreases n - i,
        {
            assert(pairs.skip(i as int)[0] == pairs[i as int]);
            if lowercase_eq(self.entries[i].0.as_str(), lower) {
                return Some(&self.entries[i].1);
            }
            assert(pairs.skip(i as int).drop_first() =~= pairs.skip(i + 1));
            i = i + 1;
        }
        None
    }
}

/// A read gives back what the last insert under the same key wrote, and an
/// insert leaves every other key as it was.
pub proof fn law_get_after_insert(
    before: StringMap,
    after: StringMap,
    key: Seq<char>,
    value: Seq<char>,
    other: Seq<char>,
)
    requires
        after@ == before@.insert(key, value),
    ensures
        after@.contains_key(key),
        after@[key] == value,
        other != key ==> (after@.contains_key(other) <==> before@.contains_key(other)),
        other != key && before@.contains_key(other) ==> after@[other] == before@[other],
{
}

} // verus!
