use vstd::prelude::*;

verus! {

/// The mapping that an ordered list of key/value pairs denotes: a later
/// pair overwrites an earlier one with the same key.
pub open spec fn assoc_map(s: Seq<(Seq<char>, Seq<char>)>) -> Map<Seq<char>, Seq<char>>
    decreases s.len(),
{
    if s.len() == 0 {
        Map::empty()
    } else {
        assoc_map(s.drop_last()).insert(s.last().0, s.last().1)
    }
}

/// No two pairs of the list share a key.
pub open spec fn distinct_keys(s: Seq<(Seq<char>, Seq<char>)>) -> bool {
    forall|i: int, j: int| 0 <= i < j < s.len() ==> s[i].0 != s[j].0
}

proof fn lemma_assoc_contains(s: Seq<(Seq<char>, Seq<char>)>, k: Seq<char>)
    ensures
        assoc_map(s).contains_key(k) <==> exists|i: int| 0 <= i < s.len() && s[i].0 == k,
    decreases s.len(),
{
    if s.len() > 0 {
        lemma_assoc_contains(s.drop_last(), k);
        if s.last().0 == k {
            assert(s[s.len() - 1].0 == k);
        } else if assoc_map(s).contains_key(k) {
            let i = choose|i: int| 0 <= i < s.drop_last().len() && s.drop_last()[i].0 == k;
            assert(s[i].0 == k);
        } else if exists|i: int| 0 <= i < s.len() && s[i].0 == k {
            let i = choose|i: int| 0 <= i < s.len() && s[i].0 == k;
            assert(s.drop_last()[i].0 == k);
        }
    }
}

proof fn lemma_assoc_at(s: Seq<(Seq<char>, Seq<char>)>, i: int)
    requires
        distinct_keys(s),
        0 <= i < s.len(),
    ensures
        assoc_map(s).contains_key(s[i].0),
        assoc_map(s)[s[i].0] == s[i].1,
    decreases s.len(),
{
    if i < s.len() - 1 {
        assert(distinct_keys(s.drop_last())) by {
            assert forall|a: int, b: int|
                0 <= a < b < s.drop_last().len() implies s.drop_last()[a].0
                != s.drop_last()[b].0 by {
                assert(s.drop_last()[a] == s[a]);
                assert(s.drop_last()[b] == s[b]);
            }
        }
        lemma_assoc_at(s.drop_last(), i);
        assert(s.drop_last()[i] == s[i]);
        assert(s[i].0 != s.last().0);
    }
}

proof fn lemma_assoc_update(s: Seq<(Seq<char>, Seq<char>)>, i: int, v: Seq<char>)
    requires
        distinct_keys(s),
        0 <= i < s.len(),
    ensures
        assoc_map(s.update(i, (s[i].0, v))) == assoc_map(s).insert(s[i].0, v),
    decreases s.len(),
{
    let s2 = s.update(i, (s[i].0, v));
    if i == s.len() - 1 {
        assert(s2.drop_last() =~= s.drop_last());
        assert(s2.last() == (s[i].0, v));
        assert(assoc_map(s.drop_last()).insert(s.last().0, s.last().1).insert(s[i].0, v)
            =~= assoc_map(s.drop_last()).insert(s[i].0, v));
    } else {
        assert(distinct_keys(s.drop_last())) by {
            assert forall|a: int, b: int|
                0 <= a < b < s.drop_last().len() implies s.drop_last()[a].0
                != s.drop_last()[b].0 by {
                assert(s.drop_last()[a] == s[a]);
                assert(s.drop_last()[b] == s[b]);
            }
        }
        assert(s.drop_last()[i] == s[i]);
        lemma_assoc_update(s.drop_last(), i, v);
        assert(s2.drop_last() =~= s.drop_last().update(i, (s[i].0, v)));
        assert(s2.last() == s.last());
        assert(s[i].0 != s.last().0);
        assert(assoc_map(s.drop_last()).insert(s[i].0, v).insert(s.last().0, s.last().1)
            =~= assoc_map(s.drop_last()).insert(s.last().0, s.last().1).insert(s[i].0, v));
        assert(assoc_map(s2) == assoc_map(s2.drop_last()).insert(s2.last().0, s2.last().1));
    }
}

/// An ordered string-to-string mapping with host-object assignment
/// semantics: a key keeps the position of its first insertion, and
/// assigning an existing key overwrites its value in place. Header and
/// cookie mappings, and the host-shape objects they are marshalled
/// into, all have this shape.
#[derive(Debug, Clone)]
pub struct StrMap {
    entries: Vec<(String, String)>,
}

impl View for StrMap {
    type V = Map<Seq<char>, Seq<char>>;

    closed spec fn view(&self) -> Map<Seq<char>, Seq<char>> {
        assoc_map(self.entries.deep_view())
    }
}

impl StrMap {
    /// The pairs, in key order.
    pub closed spec fn spec_pairs(&self) -> Seq<(Seq<char>, Seq<char>)> {
        self.entries.deep_view()
    }

    /// The keys, in insertion order.
    pub open spec fn spec_keys(&self) -> Seq<Seq<char>> {
        self.spec_pairs().map_values(|p: (Seq<char>, Seq<char>)| p.0)
    }

    /// Each key lives at exactly one position.
    pub open spec fn wf(&self) -> bool {
        distinct_keys(self.spec_pairs())
    }

    /// The mapping is exactly what the ordered pairs denote.
    pub proof fn lemma_view_is_pairs(&self)
        ensures
            self@ == assoc_map(self.spec_pairs()),
    {
    }

    /// An empty mapping.
    pub fn new() -> (r: StrMap)
        ensures
            r.wf(),
            r@ == Map::<Seq<char>, Seq<char>>::empty(),
            r.spec_keys() == Seq::<Seq<char>>::empty(),
            r.spec_pairs() == Seq::<(Seq<char>, Seq<char>)>::empty(),
    {
        let r = StrMap { entries: Vec::new() };
        proof {
            assert(r.spec_pairs() =~= Seq::<(Seq<char>, Seq<char>)>::empty());
            assert(r.spec_keys() =~= Seq::<Seq<char>>::empty());
        }
        r
    }

    /// How many keys the mapping holds.
    pub fn len(&self) -> (n: usize)
        ensures
            n == self.spec_keys().len(),
    {
        self.entries.len()
    }

    /// Assigns `value` to `key`: overwrites in place when the key is
    /// already present, appends otherwise.
    pub fn insert(&mut self, key: String, value: String)
        requires
            old(self).wf(),
        ensures
            final(self).wf(),
            final(self)@ == old(self)@.insert(key@, value@),
            old(self)@.contains_key(key@) ==> final(self).spec_keys() == old(self).spec_keys(),
            !old(self)@.contains_key(key@) ==> final(self).spec_keys() == old(self).spec_keys().push(
                key@,
            ),
            !old(self)@.contains_key(key@) ==> final(self).spec_pairs() == old(
                self,
            ).spec_pairs().push((key@, value@)),
    {
        let ghost kv0 = self.spec_pairs();
        let n = self.entries.len();
        let mut i: usize = 0;
        while i < n
            invariant
                n == self.entries@.len(),
                *self == *old(self),
                kv0 == self.spec_pairs(),
                old(self).wf(),
                0 <= i <= n,
                forall|j: int| 0 <= j < i ==> kv0[j].0 != key@,
            decreases n - i,
        {
            let hit = crate::text::str_eq(self.entries[i].0.as_str(), key.as_str());
            if hit {
                proof {
                    assert(kv0[i as int].0 == key@);
                    lemma_assoc_at(kv0, i as int);
                    lemma_assoc_update(kv0, i as int, value@);
                }
                self.entries[i] = (key, value);
                proof {
                    assert(self.spec_pairs() =~= kv0.update(i as int, (kv0[i as int].0, value@)));
                    assert(self.spec_keys() =~= old(self).spec_keys());
                    assert(self.wf());
                }
                return ;
            }
            i += 1;
        }
        proof {
            lemma_assoc_contains(kv0, key@);
        }
        self.entries.push((key, value));
        proof {
            assert(self.spec_pairs() =~= kv0.push((key@, value@)));
            assert(self.spec_pairs().drop_last() =~= kv0);
            assert(self.spec_keys() =~= old(self).spec_keys().push(key@));
            assert forall|a: int, b: int|
                0 <= a < b < self.spec_pairs().len() implies self.spec_pairs()[a].0
                != self.spec_pairs()[b].0 by {
                if b < self.spec_pairs().len() - 1 {
                    assert(self.spec_pairs()[a] == kv0[a]);
                    assert(self.spec_pairs()[b] == kv0[b]);
                } else {
                    assert(self.spec_pairs()[a] == kv0[a]);
                    assert(self.spec_pairs()[b].0 == key@);
                }
            }
        }
    }

    /// Looks a key up: the value the mapping holds for it, or nothing.
    pub fn get(&self, key: &str) -> (r: Option<&String>)
        requires
            self.wf(),
        ensures
            match r {
                Some(v) => self@.contains_key(key@) && v@ == self@[key@],
                None => !self@.contains_key(key@),
            },
    {
        let n = self.entries.len();
        let mut i: usize = 0;
        while i < n
            invariant
                n == self.entries@.len(),
                self.wf(),
                0 <= i <= n,
                forall|j: int| 0 <= j < i ==> self.spec_pairs()[j].0 != key@,
            decreases n - i,
        {
            let hit = crate::text::str_eq(self.entries[i].0.as_str(), key);
            if hit {
                proof {
                    lemma_assoc_at(self.spec_pairs(), i as int);
                }
                return Some(&self.entries[i].1);
            }
            i += 1;
        }
        proof {
            lemma_assoc_contains(self.spec_pairs(), key@);
        }
        None
    }

    /// The key at position `i` of the insertion order.
    pub fn key_at(&self, i: usize) -> (r: &String)
        requires
            i < self.spec_keys().len(),
        ensures
            r@ == self.spec_keys()[i as int],
            r@ == self.spec_pairs()[i as int].0,
    {
        &self.entries[i].0
    }

    /// The value at position `i` of the insertion order: what the
    /// mapping holds for the key at that position.
    pub fn value_at(&self, i: usize) -> (r: &String)
        requires
            self.wf(),
            i < self.spec_keys().len(),
        ensures
            self@.contains_key(self.spec_keys()[i as int]),
            r@ == self@[self.spec_keys()[i as int]],
            r@ == self.spec_pairs()[i as int].1,
    {
        proof {
            lemma_assoc_at(self.spec_pairs(), i as int);
        }
        &self.entries[i].1
    }

    /// Folds an ordered pair list into a mapping: a later pair with an
    /// already-seen key overwrites its value.
    pub fn from_entries(entries: &Vec<(String, String)>) -> (r: StrMap)
        ensures
            r.wf(),
            r@ == assoc_map(entries.deep_view()),
    {
        let ghost kv = entries.deep_view();
        let mut r = StrMap::new();
        let n = entries.len();
        let mut i: usize = 0;
        while i < n
            invariant
                n == entries@.len(),
                kv == entries.deep_view(),
                0 <= i <= n,
                r.wf(),
                r@ == assoc_map(kv.take(i as int)),
            decreases n - i,
        {
            let k = entries[i].0.clone();
            let v = entries[i].1.clone();
            proof {
                assert(kv.take(i + 1).drop_last() =~= kv.take(i as int));
                assert(kv.take(i + 1).last() == kv[i as int]);
            }
            r.insert(k, v);
            i += 1;
        }
        proof {
            assert(kv.take(n as int) =~= kv);
        }
        r
    }

    /// Replays the mapping into a fresh one by assigning each pair in
    /// insertion order — the marshalling step that hands the mapping
    /// across to the host. The result reproduces the keys, their order
    /// and every value exactly.
    pub fn rebuild(&self) -> (r: StrMap)
        requires
            self.wf(),
        ensures
            r.wf(),
            r@ == self@,
            r.spec_keys() == self.spec_keys(),
    {
        let mut r = StrMap::new();
        let n = self.len();
        let mut i: usize = 0;
        while i < n
            invariant
                self.wf(),
                r.wf(),
                n == self.spec_keys().len(),
                0 <= i <= n,
                r.spec_pairs() =~= self.spec_pairs().take(i as int),
            decreases n - i,
        {
            let k = self.key_at(i).clone();
            let v = self.value_at(i).clone();
            proof {
                lemma_assoc_contains(r.spec_pairs(), k@);
                assert forall|j: int| 0 <= j < i implies r.spec_pairs()[j].0 != k@ by {
                    assert(r.spec_pairs()[j] == self.spec_pairs()[j]);
                }
                assert(!r@.contains_key(k@));
            }
            r.insert(k, v);
            proof {
                assert(r.spec_pairs() =~= self.spec_pairs().take(i + 1));
            }
            i += 1;
        }
        proof {
            assert(self.spec_pairs().take(n as int) =~= self.spec_pairs());
            assert(r.spec_pairs() == self.spec_pairs());
            self.lemma_view_is_pairs();
            r.lemma_view_is_pairs();
            assert(r.spec_keys() =~= self.spec_keys());
        }
        r
    }
}

} // verus!
