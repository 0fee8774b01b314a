//! A small association table: a vector of key/value pairs whose keys are
//! pairwise distinct, viewed as a finite `Map`.

use vstd::prelude::*;

verus! {

/// Keys whose executable equality coincides with equality in specifications.
pub trait TableKey: Sized {
    fn same_key(&self, other: &Self) -> (r: bool)
        ensures
            r == (*self == *other),
    ;
}

impl TableKey for u64 {
    fn same_key(&self, other: &Self) -> (r: bool) {
        *self == *other
    }
}

/// The map denoted by a sequence of pairs; a later pair for a key wins.
pub open spec fn seq_to_map<K, V>(s: Seq<(K, V)>) -> Map<K, V>
    decreases s.len(),
{
    if s.len() == 0 {
        Map::empty()
    } else {
        seq_to_map(s.drop_last()).insert(s.last().0, s.last().1)
    }
}

pub open spec fn keys_distinct<K, V>(s: Seq<(K, V)>) -> bool {
    forall|i: int, j: int| 0 <= i < j < s.len() ==> s[i].0 != s[j].0
}

pub proof fn lemma_seq_to_map_dom<K, V>(s: Seq<(K, V)>, k: K)
    ensures
        seq_to_map(s).contains_key(k) <==> exists|i: int| 0 <= i < s.len() && s[i].0 == k,
    decreases s.len(),
{
    if s.len() > 0 {
        lemma_seq_to_map_dom(s.drop_last(), k);
        if seq_to_map(s).contains_key(k) && k != s.last().0 {
            let i = choose|i: int| 0 <= i < s.drop_last().len() && s.drop_last()[i].0 == k;
            assert(s[i].0 == k);
        }
        if exists|i: int| 0 <= i < s.len() && s[i].0 == k {
            let i = choose|i: int| 0 <= i < s.len() && s[i].0 == k;
            if i < s.len() - 1 {
                assert(s.drop_last()[i].0 == k);
            }
        }
    }
}

pub proof fn lemma_seq_to_map_index<K, V>(s: Seq<(K, V)>, i: int)
    requires
        keys_distinct(s),
        0 <= i < s.len(),
    ensures
        seq_to_map(s).contains_key(s[i].0),
        seq_to_map(s)[s[i].0] == s[i].1,
    decreases s.len(),
{
    if i < s.len() - 1 {
        let t = s.drop_last();
        assert(keys_distinct(t));
        lemma_seq_to_map_index(t, i);
        assert(t[i] == s[i]);
        assert(s[i].0 != s.last().0);
    }
}

pub proof fn lemma_seq_to_map_update<K, V>(s: Seq<(K, V)>, i: int, v: V)
    requires
        keys_distinct(s),
        0 <= i < s.len(),
    ensures
        keys_distinct(s.update(i, (s[i].0, v))),
        seq_to_map(s.update(i, (s[i].0, v))) == seq_to_map(s).insert(s[i].0, v),
    decreases s.len(),
{
    let u = s.update(i, (s[i].0, v));
    assert(keys_distinct(u));
    if i == s.len() - 1 {
        assert(u.drop_last() =~= s.drop_last());
        let t = s.drop_last();
        assert(keys_distinct(t));
        assert forall|k: K| seq_to_map(t).contains_key(k) implies k != s[i].0 by {
            lemma_seq_to_map_dom(t, k);
        }
        assert(seq_to_map(u) =~= seq_to_map(s).insert(s[i].0, v));
    } else {
        let t = s.drop_last();
        assert(keys_distinct(t));
        lemma_seq_to_map_update(t, i, v);
        assert(u.drop_last() =~= t.update(i, (t[i].0, v)));
        assert(s[i].0 != s.last().0);
        assert(seq_to_map(u) =~= seq_to_map(s).insert(s[i].0, v));
    }
}

pub proof fn lemma_seq_to_map_remove<K, V>(s: Seq<(K, V)>, i: int)
    requires
        keys_distinct(s),
        0 <= i < s.len(),
    ensures
        keys_distinct(s.remove(i)),
        seq_to_map(s.remove(i)) == seq_to_map(s).remove(s[i].0),
    decreases s.len(),
{
    let r = s.remove(i);
    assert(keys_distinct(r)) by {
        assert forall|a: int, b: int| 0 <= a < b < r.len() implies r[a].0 != r[b].0 by {
            let a2 = if a < i { a } else { a + 1 };
            let b2 = if b < i { b } else { b + 1 };
            assert(r[a] == s[a2]);
            assert(r[b] == s[b2]);
        }
    }
    let t = s.drop_last();
    assert(keys_distinct(t));
    if i == s.len() - 1 {
        assert(r =~= t);
        assert forall|k: K| seq_to_map(t).contains_key(k) implies k != s[i].0 by {
            lemma_seq_to_map_dom(t, k);
        }
        assert(seq_to_map(r) =~= seq_to_map(s).remove(s[i].0));
    } else {
        lemma_seq_to_map_remove(t, i);
        assert(r.drop_last() =~= t.remove(i));
        assert(r.last() == s.last());
        assert(s[i].0 != s.last().0);
        assert(seq_to_map(r) =~= seq_to_map(s).remove(s[i].0));
    }
}

/// A finite map stored as a vector of pairs with pairwise distinct keys.
#[verifier::reject_recursive_types(K)]
pub struct Table<K, V> {
    entries: Vec<(K, V)>,
}

impl<K, V> Table<K, V> {
    #[verifier::type_invariant]
    closed spec fn distinct(self) -> bool {
        keys_distinct(self.entries@)
    }

    pub closed spec fn view(&self) -> Map<K, V> {
        seq_to_map(self.entries@)
    }
}

impl<K: TableKey, V> Table<K, V> {
    pub fn new() -> (t: Self)
        ensures
            t@ == Map::<K, V>::empty(),
    {
        let t = Table { entries: Vec::new() };
        assert(t@ =~= Map::<K, V>::empty());
        t
    }

    /// Position of `k` among the entries, if present.
    fn position(&self, k: &K) -> (r: Option<usize>)
        ensures
            match r {
                Some(i) => i < self.entries@.len() && self.entries@[i as int].0 == *k,
                None => forall|j: int|
                    0 <= j < self.entries@.len() ==> self.entries@[j].0 != *k,
            },
    {
        let mut i: usize = 0;
        while i < self.entries.len()
            invariant
                i <= self.entries@.len(),
                forall|j: int| 0 <= j < i ==> self.entries@[j].0 != *k,
            decreases self.entries@.len() - i,
        {
            if self.entries[i].0.same_key(k) {
                return Some(i);
            }
            i = i + 1;
        }
        None
    }

    pub fn get(&self, k: &K) -> (r: Option<&V>)
        ensures
            r is Some <==> self@.contains_key(*k),
            r matches Some(v) ==> *v == self@[*k],
    {
        proof {
            use_type_invariant(self);
            lemma_seq_to_map_dom(self.entries@, *k);
        }
        match self.position(k) {
            Some(i) => {
                proof {
                    lemma_seq_to_map_index(self.entries@, i as int);
                }
                Some(&self.entries[i].1)
            },
            None => None,
        }
    }

    pub fn contains_key(&self, k: &K) -> (r: bool)
        ensures
            r == self@.contains_key(*k),
    {
        proof {
            lemma_seq_to_map_dom(self.entries@, *k);
        }
        self.position(k).is_some()
    }

    pub fn insert(&mut self, k: K, v: V)
        ensures
            final(self)@ == old(self)@.insert(k, v),
    {
        proof {
            use_type_invariant(&*self);
        }
        match self.position(&k) {
            Some(i) => {
                proof {
                    lemma_seq_to_map_update(self.entries@, i as int, v);
                }
                let ghost prev = self.entries@;
                let mut es = Vec::new();
                std::mem::swap(&mut es, &mut self.entries);
                es.set(i, (k, v));
                assert(es@ =~= prev.update(i as int, (prev[i as int].0, v)));
                self.entries = es;
            },
            None => {
                let ghost prev = self.entries@;
                let mut es = Vec::new();
                std::mem::swap(&mut es, &mut self.entries);
                es.push((k, v));
                assert(es@.drop_last() =~= prev);
                assert(keys_distinct(es@));
                self.entries = es;
            },
        }
    }

    /// Removes `k`, handing back the value it had.
    pub fn remove(&mut self, k: &K) -> (r: Option<V>)
        ensures
            final(self)@ == old(self)@.remove(*k),
            r is Some <==> old(self)@.contains_key(*k),
            r matches Some(v) ==> v == old(self)@[*k],
    {
        proof {
            use_type_invariant(&*self);
            lemma_seq_to_map_dom(self.entries@, *k);
        }
        match self.position(k) {
            Some(i) => {
                proof {
                    lemma_seq_to_map_index(self.entries@, i as int);
                    lemma_seq_to_map_remove(self.entries@, i as int);
                }
                let mut es = Vec::new();
                std::mem::swap(&mut es, &mut self.entries);
                let (_, v) = es.remove(i);
                self.entries = es;
                Some(v)
            },
            None => {
                assert(old(self)@.remove(*k) =~= old(self)@);
                None
            },
        }
    }
}

} // verus!
