//! A map keyed by strings that remembers the order in which keys arrived.
//!
//! Its view is a `Map<Seq<char>, V>`; `seq()` gives the entries in order, which
//! is what listings and serialisation walk.
//!
//! It stands where a `HashMap<String, V>` would: vstd's specification of
//! `HashMap` lets proofs follow lookups and insertions only for keys whose
//! hashing and equality it knows (integers and the like), not `String`.
//! A vector of pairs whose keys never repeat (the type invariant) gives the
//! same map, with every operation proved against `Map`. Where a listing
//! needs an order, it sorts the keys (`sorted_keys`), so nothing depends on
//! the order of arrival.

use vstd::prelude::*;
use crate::text::str_eq;

verus! {

/// Keys of an entry sequence, as character sequences.
pub open spec fn keys_of<V>(s: Seq<(String, V)>) -> Seq<Seq<char>> {
    s.map_values(|e: (String, V)| e.0@)
}

/// No key occurs twice in `s`.
pub open spec fn distinct_keys<V>(s: Seq<(String, V)>) -> bool {
    forall|i: int, j: int| 0 <= i < j < s.len() ==> #[trigger] s[i].0@ != #[trigger] s[j].0@
}

/// `keys` with every occurrence of `k` left out.
pub open spec fn without_key(keys: Seq<Seq<char>>, k: Seq<char>) -> Seq<Seq<char>> {
    keys.filter(|x: Seq<char>| x != k)
}

/// The map obtained by inserting the entries of `s` one after another.
pub open spec fn map_of<V>(s: Seq<(String, V)>) -> Map<Seq<char>, V>
    decreases s.len(),
{
    if s.len() == 0 {
        Map::empty()
    } else {
        map_of(s.drop_last()).insert(s.last().0@, s.last().1)
    }
}

/// Domain and values of `map_of` for a sequence with distinct keys.
pub proof fn lemma_map_of<V>(s: Seq<(String, V)>)
    requires
        distinct_keys(s),
    ensures
        map_of(s).dom().finite(),
        map_of(s).len() == s.len(),
        forall|k: Seq<char>|
            #![trigger map_of(s).contains_key(k)]
            map_of(s).contains_key(k) <==> exists|i: int| 0 <= i < s.len() && s[i].0@ == k,
        forall|i: int| #![trigger s[i]] 0 <= i < s.len() ==> map_of(s)[s[i].0@] == s[i].1,
    decreases s.len(),
{
    if s.len() > 0 {
        let t = s.drop_last();
        assert(distinct_keys(t));
        lemma_map_of(t);
        assert forall|k: Seq<char>| map_of(s).contains_key(k) <==> exists|i: int|
            0 <= i < s.len() && s[i].0@ == k by {
            if map_of(s).contains_key(k) && k != s.last().0@ {
                let i = choose|i: int| 0 <= i < t.len() && t[i].0@ == k;
                assert(s[i] == t[i]);
            }
            if exists|i: int| 0 <= i < s.len() && s[i].0@ == k {
                let i = choose|i: int| 0 <= i < s.len() && s[i].0@ == k;
                if i < s.len() - 1 {
                    assert(t[i] == s[i]);
                }
            }
        }
        assert forall|i: int| #![trigger s[i]] 0 <= i < s.len() implies map_of(s)[s[i].0@] == s[i].1 by {
            if i < s.len() - 1 {
                assert(t[i] == s[i]);
                assert(s[i].0@ != s[s.len() - 1].0@);
            }
        }
        assert(!map_of(t).contains_key(s.last().0@)) by {
            if map_of(t).contains_key(s.last().0@) {
                let i = choose|i: int| 0 <= i < t.len() && t[i].0@ == s.last().0@;
                assert(s[i] == t[i]);
                assert(s[i].0@ != s[s.len() - 1].0@);
            }
        }
    }
}

/// An insertion-ordered map from strings to `V` in which no key occurs twice.
pub struct StrMap<V> {
    entries: Vec<(String, V)>,
}

impl<V> StrMap<V> {
    #[verifier::type_invariant]
    spec fn inv(self) -> bool {
        distinct_keys(self.entries@)
    }

    /// The entries, in insertion order.
    pub closed spec fn seq(&self) -> Seq<(String, V)> {
        self.entries@
    }

    /// The map the entries stand for.
    pub open spec fn view(&self) -> Map<Seq<char>, V> {
        map_of(self.seq())
    }

    /// The keys in order.
    pub open spec fn keys(&self) -> Seq<Seq<char>> {
        keys_of(self.seq())
    }

    /// An empty map.
    pub fn new() -> (r: Self)
        ensures
            r.seq() == Seq::<(String, V)>::empty(),
            r@ == Map::<Seq<char>, V>::empty(),
    {
        StrMap { entries: Vec::new() }
    }

    /// The number of entries.
    pub fn len(&self) -> (r: usize)
        ensures
            r == self.seq().len(),
            r == self@.len(),
    {
        proof {
            use_type_invariant(self);
            lemma_map_of(self.seq());
        }
        self.entries.len()
    }

    /// Whether the map has no entry.
    pub fn is_empty(&self) -> (r: bool)
        ensures
            r == (self.seq().len() == 0),
            r == (self@.len() == 0),
    {
        self.len() == 0
    }

    /// The entries, in insertion order.
    /// The entries never repeat a key; hence the view's domain is exactly the
    /// set of keys of the entries, and each entry's value is the view's value.
    pub fn pairs(&self) -> (r: &Vec<(String, V)>)
        ensures
            r@ == self.seq(),
            distinct_keys(self.seq()),
            self@.dom().finite(),
            self@.len() == self.seq().len(),
            forall|k: Seq<char>|
                #![trigger self@.contains_key(k)]
                self@.contains_key(k) <==> exists|i: int| 0 <= i < self.seq().len() && self.seq()[i].0@ == k,
            forall|i: int|
                #![trigger self.seq()[i]]
                0 <= i < self.seq().len() ==> self@[self.seq()[i].0@] == self.seq()[i].1,
    {
        proof {
            use_type_invariant(self);
            lemma_map_of(self.seq());
        }
        &self.entries
    }

    /// Position of `k` among the entries, if present.
    pub fn index_of(&self, k: &str) -> (r: Option<usize>)
        ensures
            match r {
                Some(i) => i < self.seq().len() && self.seq()[i as int].0@ == k@,
                None => forall|i: int| 0 <= i < self.seq().len() ==> self.seq()[i].0@ != k@,
            },
            r is Some <==> self@.contains_key(k@),
    {
        proof {
            use_type_invariant(self);
            lemma_map_of(self.seq());
        }
        let mut i: usize = 0;
        while i < self.entries.len()
            invariant
                0 <= i <= self.entries@.len(),
                forall|j: int| 0 <= j < i ==> self.entries@[j].0@ != k@,
            decreases self.entries.len() - i,
        {
            if str_eq(self.entries[i].0.as_str(), k) {
                proof {
                    use_type_invariant(self);
                    lemma_map_of(self.seq());
                    assert(self.seq()[i as int].0@ == k@);
                }
                return Some(i);
            }
            i += 1;
        }
        None
    }

    /// Whether `k` is a key.
    pub fn contains_key(&self, k: &str) -> (r: bool)
        ensures
            r == self@.contains_key(k@),
    {
        self.index_of(k).is_some()
    }

    /// The value under `k`, if any.
    pub fn get(&self, k: &str) -> (r: Option<&V>)
        ensures
            match r {
                Some(v) => self@.contains_key(k@) && *v == self@[k@],
                None => !self@.contains_key(k@),
            },
    {
        proof {
            use_type_invariant(self);
            lemma_map_of(self.seq());
        }
        match self.index_of(k) {
            Some(i) => Some(&self.entries[i].1),
            None => None,
        }
    }

    /// Sets `k` to `v`; a present key keeps its position, a new one goes last.
    pub fn insert(&mut self, k: String, v: V)
        ensures
            final(self)@ == old(self)@.insert(k@, v),
            old(self)@.contains_key(k@) ==> final(self).keys() == old(self).keys(),
            !old(self)@.contains_key(k@) ==> final(self).keys() == old(self).keys().push(k@),
    {
        proof {
            use_type_invariant(&*self);
            lemma_map_of(self.seq());
        }
        let ghost old_seq = self.entries@;
        match self.index_of(k.as_str()) {
            Some(i) => {
                let ghost kv = k@;
                let mut es: Vec<(String, V)> = Vec::new();
                std::mem::swap(&mut es, &mut self.entries);
                es.set(i, (k, v));
                proof {
                    let s = es@;
                    assert(s == old_seq.update(i as int, s[i as int]));
                    assert(distinct_keys(s)) by {
                        assert forall|a: int, b: int| 0 <= a < b < s.len() implies #[trigger] s[a].0@
                            != #[trigger] s[b].0@ by {
                            if a != i && b != i {
                                assert(s[a] == old_seq[a] && s[b] == old_seq[b]);
                            } else if a == i {
                                assert(s[b] == old_seq[b]);
                            } else {
                                assert(s[a] == old_seq[a]);
                            }
                        }
                    }
                    lemma_map_of(s);
                    lemma_map_of(old_seq);
                    assert(map_of(s) =~= map_of(old_seq).insert(kv, v)) by {
                        assert forall|key: Seq<char>| map_of(s).contains_key(key) <==> map_of(
                            old_seq,
                        ).insert(kv, v).contains_key(key) by {
                            if map_of(s).contains_key(key) {
                                let j = choose|j: int| 0 <= j < s.len() && s[j].0@ == key;
                                if j != i {
                                    assert(s[j] == old_seq[j]);
                                }
                            }
                            if map_of(old_seq).contains_key(key) {
                                let j = choose|j: int| 0 <= j < old_seq.len() && old_seq[j].0@ == key;
                                if j != i {
                                    assert(s[j] == old_seq[j]);
                                } else {
                                    assert(s[j].0@ == key);
                                }
                            }
                            if key == kv {
                                assert(s[i as int].0@ == key);
                            }
                        }
                        assert forall|key: Seq<char>| #[trigger] map_of(s).contains_key(key) implies map_of(
                            s,
                        )[key] == map_of(old_seq).insert(kv, v)[key] by {
                            let j = choose|j: int| 0 <= j < s.len() && s[j].0@ == key;
                            if j != i {
                                assert(s[j] == old_seq[j]);
                            }
                        }
                    }
                    assert(keys_of(s) =~= keys_of(old_seq)) by {
                        assert forall|j: int| 0 <= j < s.len() implies #[trigger] keys_of(s)[j] == keys_of(
                            old_seq,
                        )[j] by {
                            if j != i {
                                assert(s[j] == old_seq[j]);
                            }
                        }
                    }
                }
                self.entries = es;
            },
            None => {
                let ghost kv = k@;
                let mut es: Vec<(String, V)> = Vec::new();
                std::mem::swap(&mut es, &mut self.entries);
                es.push((k, v));
                proof {
                    let s = es@;
                    assert(s.drop_last() == old_seq);
                    assert(distinct_keys(s)) by {
                        assert forall|a: int, b: int| 0 <= a < b < s.len() implies #[trigger] s[a].0@
                            != #[trigger] s[b].0@ by {
                            assert(s[a] == old_seq[a]);
                            if b < old_seq.len() {
                                assert(s[b] == old_seq[b]);
                            }
                        }
                    }
                    assert(keys_of(s) =~= keys_of(old_seq).push(kv));
                }
                self.entries = es;
            },
        }
    }

    /// Removes `k`; the other entries keep their order. Returns the removed value.
    pub fn remove(&mut self, k: &str) -> (r: Option<V>)
        ensures
            final(self)@ == old(self)@.remove(k@),
            match r {
                Some(v) => old(self)@.contains_key(k@) && v == old(self)@[k@],
                None => !old(self)@.contains_key(k@),
            },
            final(self).keys() == without_key(keys_of(old(self).seq()), k@),
    {
        proof {
            use_type_invariant(&*self);
            lemma_map_of(self.seq());
        }
        let ghost old_seq = self.entries@;
        let ghost kv = k@;
        match self.index_of(k) {
            Some(i) => {
                let mut es: Vec<(String, V)> = Vec::new();
                std::mem::swap(&mut es, &mut self.entries);
                let e = es.remove(i);
                proof {
                    let s = es@;
                    assert(s == old_seq.remove(i as int));
                    assert(distinct_keys(s)) by {
                        assert forall|a: int, b: int| 0 <= a < b < s.len() implies #[trigger] s[a].0@
                            != #[trigger] s[b].0@ by {
                            if a < i {
                                assert(s[a] == old_seq[a]);
                            } else {
                                assert(s[a] == old_seq[a + 1]);
                            }
                            if b < i {
                                assert(s[b] == old_seq[b]);
                            } else {
                                assert(s[b] == old_seq[b + 1]);
                            }
                        }
                    }
                    lemma_map_of(s);
                    lemma_map_of(old_seq);
                    assert(map_of(s) =~= map_of(old_seq).remove(kv)) by {
                        assert forall|key: Seq<char>| map_of(s).contains_key(key) <==> map_of(
                            old_seq,
                        ).remove(kv).contains_key(key) by {
                            if map_of(s).contains_key(key) {
                                let j = choose|j: int| 0 <= j < s.len() && s[j].0@ == key;
                                if j < i {
                                    assert(s[j] == old_seq[j]);
                                } else {
                                    assert(s[j] == old_seq[j + 1]);
                                }
                            }
                            if map_of(old_seq).remove(kv).contains_key(key) {
                                let j = choose|j: int| 0 <= j < old_seq.len() && old_seq[j].0@ == key;
                                if j < i {
                                    assert(s[j] == old_seq[j]);
                                } else {
                                    assert(j != i);
                                    assert(s[j - 1] == old_seq[j]);
                                }
                            }
                        }
                        assert forall|key: Seq<char>| #[trigger] map_of(s).contains_key(key) implies map_of(
                            s,
                        )[key] == map_of(old_seq).remove(kv)[key] by {
                            let j = choose|j: int| 0 <= j < s.len() && s[j].0@ == key;
                            if j < i {
                                assert(s[j] == old_seq[j]);
                            } else {
                                assert(s[j] == old_seq[j + 1]);
                            }
                        }
                    }
                    lemma_keys_remove(old_seq, i as int, kv);
                }
                self.entries = es;
                Some(e.1)
            },
            None => {
                proof {
                    assert(map_of(old_seq).remove(kv) =~= map_of(old_seq));
                    lemma_keys_filter_absent(old_seq, kv);
                }
                None
            },
        }
    }

    /// A map holding the given entries, inserted one after another (a later
    /// entry for a repeated key wins).
    pub fn from_pairs(v: Vec<(String, V)>) -> (r: Self)
        ensures
            r@ == map_of(v@),
    {
        let mut m = StrMap::new();
        let mut v = v;
        let ghost all = v@;
        assert(all.take(0) =~= Seq::<(String, V)>::empty());
        while v.len() > 0
            invariant
                v@.len() <= all.len(),
                all == all.take(all.len() - v@.len()) + v@,
                m@ == map_of(all.take(all.len() - v@.len())),
            decreases v.len(),
        {
            let ghost before = v@;
            let ghost idx = all.len() - before.len();
            let e = v.remove(0);
            proof {
                assert(all[idx] == before[0]);
                assert(all.take(idx + 1).drop_last() =~= all.take(idx));
                assert(all.take(idx + 1).last() == before[0]);
                assert(all =~= all.take(idx + 1) + v@);
            }
            m.insert(e.0, e.1);
        }
        assert(all.take(all.len() as int) =~= all);
        m
    }
}

proof fn lemma_keys_remove<V>(s: Seq<(String, V)>, i: int, k: Seq<char>)
    requires
        distinct_keys(s),
        0 <= i < s.len(),
        s[i].0@ == k,
    ensures
        keys_of(s.remove(i)) == without_key(keys_of(s), k),
    decreases s.len(),
{
    reveal_with_fuel(Seq::<_>::filter, 1);
    if i == s.len() - 1 {
        assert(s.remove(i) =~= s.drop_last());
        assert(keys_of(s).drop_last() =~= keys_of(s.drop_last()));
        lemma_keys_filter_absent(s.drop_last(), k);
    } else {
        let t = s.drop_last();
        assert(distinct_keys(t));
        lemma_keys_remove(t, i, k);
        assert(s.remove(i) =~= t.remove(i).push(s.last()));
        assert(keys_of(s).drop_last() =~= keys_of(t));
        assert(s.last().0@ != k);
        assert(keys_of(s.remove(i)) =~= keys_of(t.remove(i)).push(s.last().0@));
    }
}

proof fn lemma_keys_filter_absent<V>(s: Seq<(String, V)>, k: Seq<char>)
    requires
        forall|j: int| 0 <= j < s.len() ==> s[j].0@ != k,
    ensures
        keys_of(s) == without_key(keys_of(s), k),
    decreases s.len(),
{
    reveal_with_fuel(Seq::<_>::filter, 1);
    if s.len() > 0 {
        let t = s.drop_last();
        lemma_keys_filter_absent(t, k);
        assert(keys_of(s).drop_last() =~= keys_of(t));
    }
}

/// The values of a string map, as character sequences.
pub open spec fn string_values_view(m: Map<Seq<char>, String>) -> Map<Seq<char>, Seq<char>> {
    m.map_values(|v: String| v@)
}

/// A copy of a string-to-string map, with the same entries in the same order.
pub fn clone_string_map(m: &StrMap<String>) -> (r: StrMap<String>)
    ensures
        string_values_view(r@) == string_values_view(m@),
        r.keys() == m.keys(),
{
    proof {
        use_type_invariant(m);
        lemma_map_of(m.seq());
    }
    let mut out: Vec<(String, String)> = Vec::new();
    let mut i: usize = 0;
    while i < m.entries.len()
        invariant
            0 <= i <= m.entries@.len(),
            out@.len() == i,
            forall|j: int|
                0 <= j < i ==> (#[trigger] out@[j]).0@ == m.entries@[j].0@ && out@[j].1@ == m.entries@[j].1@,
        decreases m.entries.len() - i,
    {
        let k = m.entries[i].0.clone();
        let v = m.entries[i].1.clone();
        out.push((k, v));
        i += 1;
    }
    proof {
        assert(distinct_keys(out@)) by {
            assert forall|a: int, b: int| 0 <= a < b < out@.len() implies #[trigger] out@[a].0@
                != #[trigger] out@[b].0@ by {
                assert(m.entries@[a].0@ != m.entries@[b].0@);
            }
        }
        lemma_map_of(out@);
        assert(keys_of(out@) =~= keys_of(m.entries@));
        assert(string_values_view(map_of(out@)) =~= string_values_view(map_of(m.entries@))) by {
            assert forall|k: Seq<char>| map_of(out@).contains_key(k) <==> map_of(m.entries@).contains_key(k) by {
                if map_of(out@).contains_key(k) {
                    let j = choose|j: int| 0 <= j < out@.len() && out@[j].0@ == k;
                    assert(m.entries@[j].0@ == k);
                }
                if map_of(m.entries@).contains_key(k) {
                    let j = choose|j: int| 0 <= j < m.entries@.len() && m.entries@[j].0@ == k;
                    assert(out@[j].0@ == k);
                }
            }
            assert forall|k: Seq<char>| #[trigger] map_of(out@).contains_key(k) implies map_of(out@)[k]@
                == map_of(m.entries@)[k]@ by {
                let j = choose|j: int| 0 <= j < out@.len() && out@[j].0@ == k;
                assert(out@[j] == out@[j]);
                assert(m.entries@[j] == m.entries@[j]);
            }
        }
    }
    StrMap { entries: out }
}

} // verus!

verus! {

/// `s` lists the keys of `m` in ascending order, each once.
pub open spec fn lists_keys_sorted<V>(s: Seq<Seq<char>>, m: &StrMap<V>) -> bool {
    &&& crate::text::sorted(s)
    &&& s.to_multiset() == m.keys().to_multiset()
    &&& s.len() == m@.len()
    &&& forall|i: int| 0 <= i < s.len() ==> m@.contains_key(#[trigger] s[i])
    &&& forall|k: Seq<char>| #[trigger] m@.contains_key(k) ==> s.contains(k)
}

/// The keys of `m` in ascending order.
pub fn sorted_keys<V>(m: &StrMap<V>) -> (r: Vec<String>)
    ensures
        lists_keys_sorted(crate::text::views(r@), m),
{
    broadcast use vstd::seq_lib::group_to_multiset_ensures;
    let pairs = m.pairs();
    let mut ks: Vec<String> = Vec::new();
    let mut i: usize = 0;
    while i < pairs.len()
        invariant
            pairs@ == m.seq(),
            0 <= i <= pairs@.len(),
            crate::text::views(ks@) == m.keys().take(i as int),
        decreases pairs.len() - i,
    {
        let ghost before = ks@;
        ks.push(pairs[i].0.clone());
        proof {
            assert(m.keys().len() == m.seq().len());
            assert(m.keys()[i as int] == m.seq()[i as int].0@);
            assert(crate::text::views(ks@) =~= crate::text::views(before).push(m.seq()[i as int].0@));
            assert(m.keys().take(i + 1) =~= m.keys().take(i as int).push(m.keys()[i as int]));
        }
        i += 1;
    }
    assert(m.keys().take(pairs@.len() as int) =~= m.keys());
    let r = crate::text::sort_strings(ks);
    proof {
        let s = crate::text::views(r@);
        assert(s.len() == s.to_multiset().len());
        assert(m.keys().len() == m.keys().to_multiset().len());
        assert forall|i: int| 0 <= i < s.len() implies m@.contains_key(#[trigger] s[i]) by {
            assert(s.contains(s[i]));
            assert(s.to_multiset().count(s[i]) > 0);
            assert(m.keys().to_multiset().count(s[i]) > 0);
            assert(m.keys().contains(s[i]));
            let j = choose|j: int| 0 <= j < m.keys().len() && m.keys()[j] == s[i];
            assert(m.seq()[j].0@ == s[i]);
        }
        assert forall|k: Seq<char>| #[trigger] m@.contains_key(k) implies s.contains(k) by {
            let j = choose|j: int| 0 <= j < m.seq().len() && m.seq()[j].0@ == k;
            assert(m.keys()[j] == k);
            assert(m.keys().contains(k));
            assert(m.keys().to_multiset().count(k) > 0);
            assert(s.to_multiset().count(k) > 0);
        }
    }
    r
}

} // verus!
