//! A small string-to-string map kept as an association list.

use vstd::prelude::*;
use crate::text::str_eq;

verus! {

/// String keys mapped to string values; a later `insert` of a present key
/// replaces its value in place.
#[derive(Debug, Clone, PartialEq, Eq, Default)]
pub struct StringMap {
    entries: Vec<(String, String)>,
}

/// The entries of an association list, as character sequences.
pub open spec fn entries_view(e: Seq<(String, String)>) -> Seq<(Seq<char>, Seq<char>)> {
    e.map_values(|p: (String, String)| (p.0@, p.1@))
}

/// Whether index `i` holds the first entry with key `k`.
pub open spec fn first_match(e: Seq<(Seq<char>, Seq<char>)>, k: Seq<char>, i: int) -> bool {
    &&& 0 <= i < e.len()
    &&& e[i].0 == k
    &&& forall|j: int| 0 <= j < i ==> e[j].0 != k
}

/// The value of the first entry with key `k`, if any.
pub open spec fn lookup(e: Seq<(Seq<char>, Seq<char>)>, k: Seq<char>) -> Option<Seq<char>> {
    if exists|i: int| first_match(e, k, i) {
        Some(e[choose|i: int| first_match(e, k, i)].1)
    } else {
        None
    }
}

/// Lookup is determined by any first-match index.
pub proof fn lemma_lookup_at(e: Seq<(Seq<char>, Seq<char>)>, k: Seq<char>, i: int)
    requires
        first_match(e, k, i),
    ensures
        lookup(e, k) == Some(e[i].1),
{
    let c = choose|j: int| first_match(e, k, j);
    assert(first_match(e, k, c));
    if c < i {
        assert(e[c].0 != k);
    } else if c > i {
        assert(e[i].0 != k);
    }
}

/// Any entry with key `k` implies a first one.
pub proof fn lemma_first_exists(e: Seq<(Seq<char>, Seq<char>)>, k: Seq<char>, j: int)
    requires
        0 <= j < e.len(),
        e[j].0 == k,
    ensures
        exists|i: int| first_match(e, k, i),
    decreases j,
{
    if exists|l: int| 0 <= l < j && e[l].0 == k {
        let l = choose|l: int| 0 <= l < j && e[l].0 == k;
        lemma_first_exists(e, k, l);
    } else {
        assert(first_match(e, k, j));
    }
}

/// Lookup finds nothing when no entry has the key.
pub proof fn lemma_lookup_none(e: Seq<(Seq<char>, Seq<char>)>, k: Seq<char>)
    requires
        forall|j: int| 0 <= j < e.len() ==> e[j].0 != k,
    ensures
        lookup(e, k) is None,
{
}

impl View for StringMap {
    type V = Map<Seq<char>, Seq<char>>;

    /// The map as a function from keys to values.
    closed spec fn view(&self) -> Map<Seq<char>, Seq<char>> {
        Map::new(
            |k: Seq<char>| lookup(entries_view(self.entries@), k) is Some,
            |k: Seq<char>| lookup(entries_view(self.entries@), k)->0,
        )
    }
}

impl StringMap {
    /// Number of distinct keys stored.
    pub closed spec fn entry_count(&self) -> nat {
        self.entries@.len()
    }

    /// The stored entries, in insertion order: every key among them is in
    /// the map, and every key of the map has an entry with its value.
    pub fn entries_list(&self) -> (r: &Vec<(String, String)>)
        ensures
            forall|j: int| 0 <= j < r@.len() ==> self@.dom().contains((#[trigger] r@[j]).0@),
            forall|k: Seq<char>| #[trigger] self@.dom().contains(k) ==> exists|j: int|
                0 <= j < r@.len() && (#[trigger] r@[j]).0@ == k && r@[j].1@ == self@[k],
    {
        let ghost e = entries_view(self.entries@);
        proof {
            assert forall|j: int| 0 <= j < self.entries@.len() implies self@.dom().contains((#[trigger] self.entries@[j]).0@) by {
                assert(e[j].0 == self.entries@[j].0@);
                lemma_first_exists(e, e[j].0, j);
            }
            assert forall|k: Seq<char>| #[trigger] self@.dom().contains(k) implies exists|j: int|
                0 <= j < self.entries@.len() && (#[trigger] self.entries@[j]).0@ == k && self.entries@[j].1@ == self@[k] by {
                let i = choose|i: int| first_match(e, k, i);
                lemma_lookup_at(e, k, i);
                assert(self.entries@[i].0@ == k);
            }
        }
        &self.entries
    }

    /// The empty map.
    pub fn new() -> (m: StringMap)
        ensures
            m@ == Map::<Seq<char>, Seq<char>>::empty(),
    {
        let m = StringMap { entries: Vec::new() };
        proof {
            assert forall|k: Seq<char>| !(#[trigger] m@.dom().contains(k)) by {
                lemma_lookup_none(entries_view(m.entries@), k);
            }
            assert(m@ =~= Map::<Seq<char>, Seq<char>>::empty());
        }
        m
    }

    fn find(&self, key: &str) -> (r: Option<usize>)
        ensures
            r matches Some(i) ==> first_match(entries_view(self.entries@), key@, i as int),
            r is None ==> forall|j: int| 0 <= j < self.entries@.len() ==> #[trigger] entries_view(self.entries@)[j].0 != key@,
    {
        let mut i: usize = 0;
        while i < self.entries.len()
            invariant
                i <= self.entries@.len(),
                forall|j: int| 0 <= j < i ==> #[trigger] entries_view(self.entries@)[j].0 != key@,
            decreases self.entries@.len() - i,
        {
            if str_eq(self.entries[i].0.as_str(), key) {
                return Some(i);
            }
            i = i + 1;
        }
        None
    }

    /// The value stored under `key`.
    pub fn get(&self, key: &str) -> (r: Option<&String>)
        ensures
            r is Some <==> self@.dom().contains(key@),
            r matches Some(v) ==> v@ == self@[key@],
    {
        match self.find(key) {
            Some(i) => {
                proof {
                    lemma_lookup_at(entries_view(self.entries@), key@, i as int);
                }
                Some(&self.entries[i].1)
            },
            None => {
                proof {
                    lemma_lookup_none(entries_view(self.entries@), key@);
                }
                None
            },
        }
    }

    /// Whether `key` is present.
    pub fn contains_key(&self, key: &str) -> (r: bool)
        ensures
            r == self@.dom().contains(key@),
    {
        self.get(key).is_some()
    }

    /// Stores `value` under `key`, replacing any earlier value.
    pub fn insert(&mut self, key: String, value: String)
        ensures
            final(self)@ == old(self)@.insert(key@, value@),
    {
        let ghost old_e = entries_view(self.entries@);
        match self.find(key.as_str()) {
            Some(i) => {
                self.entries.set(i, (key, value));
                proof {
                    let e = entries_view(self.entries@);
                    assert(e =~= old_e.update(i as int, (key@, value@)));
                    assert forall|k: Seq<char>| lookup(e, k) == (if k == key@ { Some(value@) } else { lookup(old_e, k) }) by {
                        if k == key@ {
                            lemma_lookup_at(e, k, i as int);
                        } else if exists|j: int| first_match(old_e, k, j) {
                            let j = choose|j: int| first_match(old_e, k, j);
                            lemma_lookup_at(old_e, k, j);
                            assert(j != i);
                            assert(first_match(e, k, j));
                            lemma_lookup_at(e, k, j);
                        } else {
                            assert forall|j: int| 0 <= j < e.len() implies e[j].0 != k by {
                                if e[j].0 == k {
                                    assert(j != i);
                                    lemma_first_exists(old_e, k, j);
                                }
                            }
                        }
                    }
                    assert(self@ =~= old(self)@.insert(key@, value@));
                }
            },
            None => {
                self.entries.push((key, value));
                proof {
                    let e = entries_view(self.entries@);
                    let n = old_e.len();
                    assert(e =~= old_e.push((key@, value@)));
                    assert forall|k: Seq<char>| lookup(e, k) == (if k == key@ { Some(value@) } else { lookup(old_e, k) }) by {
                        if k == key@ {
                            assert(first_match(e, k, n as int));
                            lemma_lookup_at(e, k, n as int);
                        } else if exists|j: int| first_match(old_e, k, j) {
                            let j = choose|j: int| first_match(old_e, k, j);
                            lemma_lookup_at(old_e, k, j);
                            assert(first_match(e, k, j));
                            lemma_lookup_at(e, k, j);
                        } else {
                            assert forall|j: int| 0 <= j < e.len() implies e[j].0 != k by {
                                if j < n && e[j].0 == k {
                                    lemma_first_exists(old_e, k, j);
                                }
                            }
                        }
                    }
                    assert(self@ =~= old(self)@.insert(key@, value@));
                }
            },
        }
    }
}

impl StringMap {
    /// Adds every entry of `other`, replacing the values of keys already present.
    pub fn extend(&mut self, other: &StringMap)
        ensures
            final(self)@ == old(self)@.union_prefer_right(other@),
    {
        let entries = other.entries_list();
        let ghost start = self@;
        let mut i: usize = 0;
        while i < entries.len()
            invariant
                i <= entries@.len(),
                forall|j: int| 0 <= j < entries@.len() ==> other@.dom().contains((#[trigger] entries@[j]).0@),
                forall|k: Seq<char>| #[trigger] other@.dom().contains(k) ==> exists|j: int|
                    0 <= j < entries@.len() && (#[trigger] entries@[j]).0@ == k && entries@[j].1@ == other@[k],
                forall|k: Seq<char>| #[trigger] self@.dom().contains(k) <==> (start.dom().contains(k) || exists|j: int|
                    0 <= j < i && (#[trigger] entries@[j]).0@ == k),
                forall|k: Seq<char>| #[trigger] self@.dom().contains(k) && !(exists|j: int| 0 <= j < i && (#[trigger] entries@[j]).0@ == k)
                    ==> self@[k] == start[k],
                forall|j: int| 0 <= j < i && (#[trigger] entries@[j]).1@ == other@[entries@[j].0@] ==> self@[entries@[j].0@] == other@[entries@[j].0@],
            decreases entries@.len() - i,
        {
            let k = &entries[i].0;
            let v = match other.get(k.as_str()) {
                Some(v) => v.clone(),
                None => entries[i].1.clone(),
            };
            self.insert(k.clone(), v);
            i = i + 1;
        }
        proof {
            assert forall|k: Seq<char>| #[trigger] self@.dom().contains(k) == start.union_prefer_right(other@).dom().contains(k) by {
                if other@.dom().contains(k) {
                    let j = choose|j: int| 0 <= j < entries@.len() && (#[trigger] entries@[j]).0@ == k && entries@[j].1@ == other@[k];
                }
            }
            assert forall|k: Seq<char>| #[trigger] self@.dom().contains(k) implies self@[k] == start.union_prefer_right(other@)[k] by {
                if other@.dom().contains(k) {
                    let j = choose|j: int| 0 <= j < entries@.len() && (#[trigger] entries@[j]).0@ == k && entries@[j].1@ == other@[k];
                    assert(entries@[j].1@ == other@[entries@[j].0@]);
                } else {
                    if exists|j: int| 0 <= j < entries@.len() && (#[trigger] entries@[j]).0@ == k {
                        let j = choose|j: int| 0 <= j < entries@.len() && (#[trigger] entries@[j]).0@ == k;
                        assert(other@.dom().contains(entries@[j].0@));
                    }
                }
            }
            assert(self@ =~= start.union_prefer_right(other@));
        }
    }
}

} // verus!
