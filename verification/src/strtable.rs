//! A map from string keys to plain values, backed by a vector of pairs
//! with pairwise-distinct keys, specified against `Map<Seq<char>, V>`.

use vstd::prelude::*;
use vstd::pervasive::VecAdditionalExecFns;

verus! {

/// The map a sequence of pairs denotes, each value seen through its
/// view; later pairs would win, though the table never holds two pairs
/// with one key.
pub open spec fn kv_map<V: View>(s: Seq<(String, V)>) -> Map<Seq<char>, V::V>
    decreases s.len(),
{
    if s.len() == 0 {
        Map::empty()
    } else {
        kv_map(s.drop_last()).insert(s.last().0@, s.last().1@)
    }
}

pub open spec fn distinct_keys<V: View>(s: Seq<(String, V)>) -> bool {
    forall|i: int, j: int| 0 <= i < j < s.len() ==> s[i].0@ != s[j].0@
}

proof fn lemma_kv_contains<V: View>(s: Seq<(String, V)>, k: Seq<char>)
    ensures
        kv_map(s).contains_key(k) <==> exists|i: int| 0 <= i < s.len() && s[i].0@ == k,
    decreases s.len(),
{
    if s.len() > 0 {
        lemma_kv_contains(s.drop_last(), k);
        if kv_map(s).contains_key(k) && s.last().0@ != k {
            let i = choose|i: int| 0 <= i < s.len() - 1 && s.drop_last()[i].0@ == k;
            assert(s[i].0@ == k);
        }
        if exists|i: int| 0 <= i < s.len() && s[i].0@ == k {
            let i = choose|i: int| 0 <= i < s.len() && s[i].0@ == k;
            if i < s.len() - 1 {
                assert(s.drop_last()[i].0@ == k);
            }
        }
    }
}

proof fn lemma_kv_get<V: View>(s: Seq<(String, V)>, i: int, k: Seq<char>)
    requires
        distinct_keys(s),
        0 <= i < s.len(),
        s[i].0@ == k,
    ensures
        kv_map(s).contains_key(k),
        kv_map(s)[k] == s[i].1@,
    decreases s.len(),
{
    if i < s.len() - 1 {
        assert(distinct_keys(s.drop_last()));
        assert(s.drop_last()[i].0@ == k);
        lemma_kv_get(s.drop_last(), i, k);
    }
}

proof fn lemma_kv_update<V: View>(s: Seq<(String, V)>, i: int, p: (String, V))
    requires
        distinct_keys(s),
        0 <= i < s.len(),
        s[i].0@ == p.0@,
    ensures
        kv_map(s.update(i, p)) == kv_map(s).insert(p.0@, p.1@),
    decreases s.len(),
{
    if i == s.len() - 1 {
        assert(s.update(i, p).drop_last() =~= s.drop_last());
        assert(kv_map(s.update(i, p)) =~= kv_map(s).insert(p.0@, p.1@));
    } else {
        assert(distinct_keys(s.drop_last()));
        assert(s.drop_last()[i].0@ == p.0@);
        lemma_kv_update(s.drop_last(), i, p);
        assert(s.update(i, p).drop_last() =~= s.drop_last().update(i, p));
        assert(kv_map(s.update(i, p)) =~= kv_map(s).insert(p.0@, p.1@));
    }
}

proof fn lemma_kv_remove<V: View>(s: Seq<(String, V)>, i: int, k: Seq<char>)
    requires
        distinct_keys(s),
        0 <= i < s.len(),
        s[i].0@ == k,
    ensures
        kv_map(s.remove(i)) == kv_map(s).remove(k),
    decreases s.len(),
{
    if i == s.len() - 1 {
        assert(s.remove(i) =~= s.drop_last());
        lemma_kv_contains(s.drop_last(), k);
        assert(forall|j: int| 0 <= j < s.len() - 1 ==> s.drop_last()[j].0@ != k);
        assert(kv_map(s.remove(i)) =~= kv_map(s).remove(k));
    } else {
        assert(distinct_keys(s.drop_last()));
        assert(s.drop_last()[i].0@ == k);
        lemma_kv_remove(s.drop_last(), i, k);
        assert(s.remove(i).drop_last() =~= s.drop_last().remove(i));
        assert(s.remove(i).last() == s.last());
        assert(kv_map(s.remove(i)) =~= kv_map(s).remove(k));
    }
}

/// String-keyed table with one entry per key.
pub struct StrMap<V: View> {
    entries: Vec<(String, V)>,
}

impl<V: View> View for StrMap<V> {
    type V = Map<Seq<char>, V::V>;

    closed spec fn view(&self) -> Map<Seq<char>, V::V> {
        kv_map(self.entries@)
    }
}

impl<V: View> StrMap<V> {
    #[verifier::type_invariant]
    spec fn wf(self) -> bool {
        distinct_keys(self.entries@)
    }

    pub fn new() -> (r: StrMap<V>)
        ensures
            r@ == Map::<Seq<char>, V::V>::empty(),
    {
        StrMap { entries: Vec::new() }
    }

    /// The index holding the key, if any.
    fn find(&self, k: &String) -> (r: Option<usize>)
        ensures
            match r {
                Some(i) => i < self.entries@.len() && self.entries@[i as int].0@ == k@,
                None => forall|i: int| 0 <= i < self.entries@.len() ==> self.entries@[i].0@ != k@,
            },
    {
        let n = self.entries.len();
        let mut i: usize = 0;
        while i < n
            invariant
                i <= n,
                n == self.entries@.len(),
                forall|j: int| 0 <= j < i ==> self.entries@[j].0@ != k@,
            decreases n - i,
        {
            if self.entries[i].0 == *k {
                return Some(i);
            }
            i = i + 1;
        }
        None
    }

    pub fn contains_key(&self, k: &String) -> (r: bool)
        ensures
            r == self@.contains_key(k@),
    {
        proof {
            lemma_kv_contains(self.entries@, k@);
        }
        match self.find(k) {
            Some(_) => true,
            None => false,
        }
    }

    /// The value under the key, if any.
    pub fn get(&self, k: &String) -> (r: Option<&V>)
        ensures
            match r {
                Some(v) => self@.contains_key(k@) && v@ == self@[k@],
                None => !self@.contains_key(k@),
            },
    {
        proof {
            use_type_invariant(&*self);
            lemma_kv_contains(self.entries@, k@);
        }
        match self.find(k) {
            Some(i) => {
                proof {
                    lemma_kv_get(self.entries@, i as int, k@);
                }
                Some(&self.entries[i].1)
            },
            None => None,
        }
    }

    /// Put the value under the key, replacing any previous one.
    pub fn insert(&mut self, k: String, v: V)
        ensures
            final(self)@ == old(self)@.insert(k@, v@),
    {
        proof {
            use_type_invariant(&*self);
        }
        let found = self.find(&k);
        let mut es: Vec<(String, V)> = Vec::new();
        core::mem::swap(&mut self.entries, &mut es);
        let ghost s0 = es@;
        match found {
            Some(i) => {
                proof {
                    lemma_kv_update(s0, i as int, (k, v));
                }
                es.set(i, (k, v));
                proof {
                    assert(distinct_keys(es@));
                }
            },
            None => {
                es.push((k, v));
                proof {
                    assert(es@.drop_last() =~= s0);
                    assert(distinct_keys(es@));
                }
            },
        }
        self.entries = es;
    }

    /// Drop the key's entry, if it has one.
    pub fn remove(&mut self, k: &String)
        ensures
            final(self)@ == old(self)@.remove(k@),
    {
        proof {
            use_type_invariant(&*self);
        }
        match self.find(k) {
            Some(i) => {
                let mut es: Vec<(String, V)> = Vec::new();
                core::mem::swap(&mut self.entries, &mut es);
                let ghost s0 = es@;
                proof {
                    lemma_kv_remove(s0, i as int, k@);
                }
                es.remove(i);
                proof {
                    assert forall|x: int, y: int| 0 <= x < y < es@.len() implies es@[x].0@
                        != es@[y].0@ by {
                        assert(es@[x] == if x < i {
                            s0[x]
                        } else {
                            s0[x + 1]
                        });
                        assert(es@[y] == if y < i {
                            s0[y]
                        } else {
                            s0[y + 1]
                        });
                    }
                    assert(distinct_keys(es@));
                }
                self.entries = es;
            },
            None => {
                proof {
                    lemma_kv_contains(self.entries@, k@);
                    assert(self@ =~= old(self)@.remove(k@));
                }
            },
        }
    }
}

} // verus!
