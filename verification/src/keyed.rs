//! Small string-keyed tables kept in a `Vec`, each key at most once.
//!
//! The session stores are built on these: the table's meaning is the map from
//! each key to the value stored with it.
use crate::text::owned;
use vstd::prelude::*;

verus! {

/// The entries of a table, keys and values taken by their views.
pub open spec fn entries_view<V: View>(s: Seq<(String, V)>) -> Seq<(Seq<char>, V::V)> {
    s.map_values(|e: (String, V)| (e.0@, e.1@))
}

/// No key occurs twice.
pub open spec fn distinct_keys<W>(s: Seq<(Seq<char>, W)>) -> bool {
    forall|i: int, j: int| 0 <= i < s.len() && 0 <= j < s.len() && i != j ==> s[i].0 != s[j].0
}

pub open spec fn has_key<W>(s: Seq<(Seq<char>, W)>, k: Seq<char>) -> bool {
    exists|i: int| 0 <= i < s.len() && s[i].0 == k
}

/// The map that a table of distinct keys stands for.
pub open spec fn as_map<W>(s: Seq<(Seq<char>, W)>) -> Map<Seq<char>, W> {
    Map::new(
        |k: Seq<char>| has_key(s, k),
        |k: Seq<char>| s[choose|i: int| 0 <= i < s.len() && s[i].0 == k].1,
    )
}

pub proof fn lemma_at<W>(s: Seq<(Seq<char>, W)>, i: int)
    requires
        distinct_keys(s),
        0 <= i < s.len(),
    ensures
        as_map(s).contains_key(s[i].0),
        as_map(s)[s[i].0] == s[i].1,
{
    assert(has_key(s, s[i].0));
    let j = choose|j: int| 0 <= j < s.len() && s[j].0 == s[i].0;
    assert(j == i);
}

pub proof fn lemma_absent<W>(s: Seq<(Seq<char>, W)>, k: Seq<char>)
    requires
        forall|i: int| 0 <= i < s.len() ==> s[i].0 != k,
    ensures
        !as_map(s).contains_key(k),
{
}

pub proof fn lemma_push<W>(s: Seq<(Seq<char>, W)>, k: Seq<char>, v: W)
    requires
        distinct_keys(s),
        !has_key(s, k),
    ensures
        distinct_keys(s.push((k, v))),
        as_map(s.push((k, v))) == as_map(s).insert(k, v),
{
    let t = s.push((k, v));
    assert(distinct_keys(t)) by {
        assert forall|i: int, j: int|
            0 <= i < t.len() && 0 <= j < t.len() && i != j implies t[i].0 != t[j].0 by {
            if i < s.len() && j < s.len() {
                assert(t[i] == s[i] && t[j] == s[j]);
            } else if i < s.len() {
                assert(t[i] == s[i]);
            } else {
                assert(t[j] == s[j]);
            }
        }
    }
    let m = as_map(s).insert(k, v);
    assert forall|q: Seq<char>| #[trigger] as_map(t).contains_key(q) == m.contains_key(q) by {
        if has_key(s, q) {
            let i = choose|i: int| 0 <= i < s.len() && s[i].0 == q;
            assert(t[i] == s[i]);
        }
        if q == k {
            assert(t[s.len() as int].0 == k);
        }
        if has_key(t, q) {
            let i = choose|i: int| 0 <= i < t.len() && t[i].0 == q;
            if i < s.len() {
                assert(t[i] == s[i]);
            }
        }
    }
    assert forall|q: Seq<char>| #[trigger] as_map(t).contains_key(q) implies as_map(t)[q] == m[q] by {
        let i = choose|i: int| 0 <= i < t.len() && t[i].0 == q;
        lemma_at(t, i);
        if i < s.len() {
            assert(t[i] == s[i]);
            lemma_at(s, i);
        }
    }
    assert(as_map(t) =~= m);
}

pub proof fn lemma_update<W>(s: Seq<(Seq<char>, W)>, i: int, v: W)
    requires
        distinct_keys(s),
        0 <= i < s.len(),
    ensures
        distinct_keys(s.update(i, (s[i].0, v))),
        as_map(s.update(i, (s[i].0, v))) == as_map(s).insert(s[i].0, v),
{
    let k = s[i].0;
    let t = s.update(i, (k, v));
    assert(distinct_keys(t)) by {
        assert forall|a: int, b: int|
            0 <= a < t.len() && 0 <= b < t.len() && a != b implies t[a].0 != t[b].0 by {
            assert(t[a].0 == s[a].0 && t[b].0 == s[b].0);
        }
    }
    let m = as_map(s).insert(k, v);
    assert forall|q: Seq<char>| #[trigger] as_map(t).contains_key(q) == m.contains_key(q) by {
        if has_key(s, q) {
            let j = choose|j: int| 0 <= j < s.len() && s[j].0 == q;
            assert(t[j].0 == q);
        }
        if has_key(t, q) {
            let j = choose|j: int| 0 <= j < t.len() && t[j].0 == q;
            assert(s[j].0 == q);
        }
        assert(t[i].0 == k);
    }
    assert forall|q: Seq<char>| #[trigger] as_map(t).contains_key(q) implies as_map(t)[q] == m[q] by {
        let j = choose|j: int| 0 <= j < t.len() && t[j].0 == q;
        lemma_at(t, j);
        if j != i {
            assert(t[j] == s[j]);
            lemma_at(s, j);
        }
    }
    assert(as_map(t) =~= m);
}

pub proof fn lemma_remove<W>(s: Seq<(Seq<char>, W)>, i: int)
    requires
        distinct_keys(s),
        0 <= i < s.len(),
    ensures
        distinct_keys(s.remove(i)),
        as_map(s.remove(i)) == as_map(s).remove(s[i].0),
{
    let k = s[i].0;
    let t = s.remove(i);
    assert forall|a: int| 0 <= a < t.len() implies #[trigger] t[a] == (if a < i {
        s[a]
    } else {
        s[a + 1]
    }) by {}
    assert(distinct_keys(t)) by {
        assert forall|a: int, b: int|
            0 <= a < t.len() && 0 <= b < t.len() && a != b implies t[a].0 != t[b].0 by {
            let a2 = if a < i {
                a
            } else {
                a + 1
            };
            let b2 = if b < i {
                b
            } else {
                b + 1
            };
            assert(t[a] == s[a2] && t[b] == s[b2]);
        }
    }
    let m = as_map(s).remove(k);
    assert forall|q: Seq<char>| #[trigger] as_map(t).contains_key(q) == m.contains_key(q) by {
        if has_key(t, q) {
            let j = choose|j: int| 0 <= j < t.len() && t[j].0 == q;
            let j2 = if j < i {
                j
            } else {
                j + 1
            };
            assert(t[j] == s[j2]);
            assert(j2 != i);
        }
        if has_key(s, q) && q != k {
            let j = choose|j: int| 0 <= j < s.len() && s[j].0 == q;
            assert(j != i);
            if j < i {
                assert(t[j] == s[j]);
            } else {
                assert(t[j - 1] == s[j]);
            }
        }
    }
    assert forall|q: Seq<char>| #[trigger] as_map(t).contains_key(q) implies as_map(t)[q] == m[q] by {
        let j = choose|j: int| 0 <= j < t.len() && t[j].0 == q;
        lemma_at(t, j);
        let j2 = if j < i {
            j
        } else {
            j + 1
        };
        assert(t[j] == s[j2]);
        lemma_at(s, j2);
    }
    assert(as_map(t) =~= m);
}

pub proof fn lemma_empty<W>()
    ensures
        distinct_keys(Seq::<(Seq<char>, W)>::empty()),
        as_map(Seq::<(Seq<char>, W)>::empty()) == Map::<Seq<char>, W>::empty(),
{
    assert(as_map(Seq::<(Seq<char>, W)>::empty()) =~= Map::<Seq<char>, W>::empty());
}

/// The position of `key` in the table, if it is there.
pub fn find_key<V: View>(entries: &Vec<(String, V)>, key: &String) -> (r: Option<usize>)
    ensures
        r matches Some(i) ==> i < entries.len() && entries@[i as int].0@ == key@,
        r is None ==> forall|i: int| 0 <= i < entries.len() ==> entries@[i].0@ != key@,
{
    for i in 0..entries.len()
        invariant
            forall|j: int| 0 <= j < i ==> entries@[j].0@ != key@,
    {
        if entries[i].0 == *key {
            return Some(i);
        }
    }
    None
}

pub proof fn lemma_view_index<V: View>(s: Seq<(String, V)>, i: int)
    requires
        0 <= i < s.len(),
    ensures
        entries_view(s)[i] == (s[i].0@, s[i].1@),
        entries_view(s).len() == s.len(),
{
}

/// A map from texts to texts, kept as a list of pairs in which each key occurs once.
pub struct TextMap {
    entries: Vec<(String, String)>,
}

impl View for TextMap {
    type V = Map<Seq<char>, Seq<char>>;

    closed spec fn view(&self) -> Map<Seq<char>, Seq<char>> {
        as_map(entries_view(self.entries@))
    }
}

impl TextMap {
    #[verifier::type_invariant]
    spec fn keys_distinct(self) -> bool {
        distinct_keys(entries_view(self.entries@))
    }

    /// An empty map.
    pub fn new() -> (s: TextMap)
        ensures
            s@ == Map::<Seq<char>, Seq<char>>::empty(),
    {
        proof {
            lemma_empty::<Seq<char>>();
        }
        let entries: Vec<(String, String)> = Vec::new();
        assert(entries_view(entries@) =~= Seq::<(Seq<char>, Seq<char>)>::empty());
        TextMap { entries }
    }

    /// Maps `key` to `value`, replacing what was there.
    pub fn set(&mut self, key: String, value: String)
        ensures
            final(self)@ == old(self)@.insert(key@, value@),
    {
        proof {
            use_type_invariant(&*self);
        }
        let mut entries: Vec<(String, String)> = Vec::new();
        std::mem::swap(&mut entries, &mut self.entries);
        let ghost before = entries_view(entries@);
        let ghost kv = key@;
        let ghost v = value@;
        match find_key(&entries, &key) {
            Some(i) => {
                proof {
                    lemma_view_index(entries@, i as int);
                    lemma_update(before, i as int, v);
                }
                entries.set(i, (key, value));
                proof {
                    assert(entries_view(entries@) =~= before.update(i as int, (before[i as int].0, v)));
                }
            },
            None => {
                proof {
                    assert(!has_key(before, kv)) by {
                        if has_key(before, kv) {
                            let j = choose|j: int| 0 <= j < before.len() && before[j].0 == kv;
                            lemma_view_index(entries@, j);
                        }
                    }
                    lemma_push(before, kv, v);
                }
                entries.push((key, value));
                proof {
                    assert(entries_view(entries@) =~= before.push((kv, v)));
                }
            },
        }
        self.entries = entries;
    }

    /// What `key` maps to.
    pub fn get(&self, key: &str) -> (r: Option<String>)
        ensures
            r matches Some(c) ==> self@.contains_key(key@) && self@[key@] == c@,
            r is None ==> !self@.contains_key(key@),
    {
        proof {
            use_type_invariant(self);
        }
        let k = owned(key);
        match find_key(&self.entries, &k) {
            Some(i) => {
                proof {
                    lemma_view_index(self.entries@, i as int);
                    lemma_at(entries_view(self.entries@), i as int);
                }
                Some(self.entries[i].1.clone())
            },
            None => {
                proof {
                    assert forall|j: int| 0 <= j < entries_view(self.entries@).len() implies entries_view(
                        self.entries@,
                    )[j].0 != key@ by {
                        lemma_view_index(self.entries@, j);
                    }
                    lemma_absent(entries_view(self.entries@), key@);
                }
                None
            },
        }
    }

    /// Removes `key` from the map.
    pub fn remove(&mut self, key: &str)
        ensures
            final(self)@ == old(self)@.remove(key@),
    {
        proof {
            use_type_invariant(&*self);
        }
        let mut entries: Vec<(String, String)> = Vec::new();
        std::mem::swap(&mut entries, &mut self.entries);
        let ghost before = entries_view(entries@);
        let k = owned(key);
        match find_key(&entries, &k) {
            Some(i) => {
                proof {
                    lemma_view_index(entries@, i as int);
                    lemma_remove(before, i as int);
                }
                entries.remove(i);
                proof {
                    assert(entries_view(entries@) =~= before.remove(i as int));
                }
            },
            None => {
                proof {
                    assert forall|j: int| 0 <= j < before.len() implies before[j].0 != key@ by {
                        lemma_view_index(entries@, j);
                    }
                    lemma_absent(before, key@);
                    assert(as_map(before).remove(key@) =~= as_map(before));
                }
            },
        }
        self.entries = entries;
    }
}

impl TextMap {
    /// The pairs of the map, each key once.
    pub fn entries(&self) -> (r: &Vec<(String, String)>)
        ensures
            distinct_keys(entries_view(r@)),
            as_map(entries_view(r@)) == self@,
    {
        proof {
            use_type_invariant(self);
        }
        &self.entries
    }
}

} // verus!
