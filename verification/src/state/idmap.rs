//! A map from integer identifiers to values, stored as an association
//! vector with distinct keys and viewed as a mathematical map.

use vstd::map::*;
use vstd::prelude::*;

verus! {

/// The mathematical map described by an association sequence: later
/// entries override earlier ones (well-formed maps have distinct keys,
/// so the order never matters).
pub open spec fn assoc_map<V>(s: Seq<(usize, V)>) -> Map<usize, V>
    decreases s.len(),
{
    if s.len() == 0 {
        Map::empty()
    } else {
        assoc_map(s.drop_last()).insert(s.last().0, s.last().1)
    }
}

/// Whether some entry of the sequence carries the key.
pub open spec fn has_key<V>(s: Seq<(usize, V)>, k: usize) -> bool {
    exists|i: int| 0 <= i < s.len() && (#[trigger] s[i]).0 == k
}

/// All keys in the sequence are distinct.
pub open spec fn distinct_keys<V>(s: Seq<(usize, V)>) -> bool {
    forall|i: int, j: int| 0 <= i < j < s.len() ==> (#[trigger] s[i]).0 != (#[trigger] s[j]).0
}

proof fn lemma_assoc_props<V>(s: Seq<(usize, V)>)
    requires
        distinct_keys(s),
    ensures
        assoc_map(s).dom().finite(),
        assoc_map(s).dom().len() == s.len(),
        forall|k: usize| #[trigger] assoc_map(s).dom().contains(k) <==> has_key(s, k),
        forall|i: int| 0 <= i < s.len() ==> assoc_map(s)[(#[trigger] s[i]).0] == s[i].1,
    decreases s.len(),
{
    if s.len() > 0 {
        let t = s.drop_last();
        lemma_assoc_props(t);
        let last = s.last();
        assert(!has_key(t, last.0)) by {
            if has_key(t, last.0) {
                let i = choose|i: int| 0 <= i < t.len() && (#[trigger] t[i]).0 == last.0;
                assert(s[i].0 == s[s.len() - 1].0);
            }
        }
        assert forall|k: usize| #[trigger] assoc_map(s).dom().contains(k) implies has_key(s, k) by {
            if k == last.0 {
                assert(s[s.len() - 1].0 == k);
            } else {
                let i = choose|i: int| 0 <= i < t.len() && (#[trigger] t[i]).0 == k;
                assert(s[i].0 == k);
            }
        }
        assert forall|k: usize| has_key(s, k) implies #[trigger] assoc_map(s).dom().contains(
            k,
        ) by {
            let i = choose|i: int| 0 <= i < s.len() && (#[trigger] s[i]).0 == k;
            if i < s.len() - 1 {
                assert(t[i].0 == k);
            }
        }
        assert forall|i: int| 0 <= i < s.len() implies assoc_map(s)[(#[trigger] s[i]).0] == s[i].1
            by {
            if i < s.len() - 1 {
                assert(t[i] == s[i]);
                assert(s[i].0 != last.0);
            }
        }
    }
}

proof fn lemma_assoc_update<V>(s: Seq<(usize, V)>, i: int, v: V)
    requires
        distinct_keys(s),
        0 <= i < s.len(),
    ensures
        assoc_map(s.update(i, (s[i].0, v))) == assoc_map(s).insert(s[i].0, v),
        distinct_keys(s.update(i, (s[i].0, v))),
    decreases s.len(),
{
    let s2 = s.update(i, (s[i].0, v));
    assert(distinct_keys(s2)) by {
        assert(forall|a: int| 0 <= a < s.len() ==> (#[trigger] s2[a]).0 == s[a].0);
    }
    if i == s.len() - 1 {
        assert(s2.drop_last() =~= s.drop_last());
        assert(assoc_map(s2) == assoc_map(s.drop_last()).insert(s[i].0, v));
        assert(assoc_map(s).insert(s[i].0, v) == assoc_map(s.drop_last()).insert(
            s.last().0,
            s.last().1,
        ).insert(s[i].0, v));
        assert(assoc_map(s.drop_last()).insert(s[i].0, v) =~= assoc_map(s.drop_last()).insert(
            s.last().0,
            s.last().1,
        ).insert(s[i].0, v));
    } else {
        let t = s.drop_last();
        assert(s2.drop_last() =~= t.update(i, (t[i].0, v)));
        lemma_assoc_update(t, i, v);
        let last = s.last();
        assert(s2.last() == last);
        assert(assoc_map(s2) == assoc_map(t).insert(t[i].0, v).insert(last.0, last.1));
        assert(last.0 != s[i].0);
        assert(assoc_map(t).insert(t[i].0, v).insert(last.0, last.1) =~= assoc_map(t).insert(
            last.0,
            last.1,
        ).insert(s[i].0, v));
    }
}

proof fn lemma_assoc_remove<V>(s: Seq<(usize, V)>, i: int)
    requires
        distinct_keys(s),
        0 <= i < s.len(),
    ensures
        assoc_map(s.remove(i)) == assoc_map(s).remove(s[i].0),
        distinct_keys(s.remove(i)),
    decreases s.len(),
{
    let s2 = s.remove(i);
    assert(distinct_keys(s2)) by {
        assert(forall|a: int| 0 <= a < i ==> #[trigger] s2[a] == s[a]);
        assert(forall|a: int| i <= a < s2.len() ==> #[trigger] s2[a] == s[a + 1]);
    }
    lemma_assoc_props(s);
    if i == s.len() - 1 {
        assert(s2 =~= s.drop_last());
        let t = s.drop_last();
        lemma_assoc_props(t);
        assert(!has_key(t, s[i].0)) by {
            if has_key(t, s[i].0) {
                let a = choose|a: int| 0 <= a < t.len() && (#[trigger] t[a]).0 == s[i].0;
                assert(s[a].0 == s[i].0);
            }
        }
        assert(assoc_map(t) =~= assoc_map(t).insert(s[i].0, s[i].1).remove(s[i].0));
    } else {
        let t = s.drop_last();
        let last = s.last();
        assert(s2.drop_last() =~= t.remove(i));
        assert(s2.last() == last);
        lemma_assoc_remove(t, i);
        assert(assoc_map(s2) == assoc_map(t).remove(t[i].0).insert(last.0, last.1));
        assert(last.0 != s[i].0);
        assert(assoc_map(t).remove(s[i].0).insert(last.0, last.1) =~= assoc_map(t).insert(
            last.0,
            last.1,
        ).remove(s[i].0));
    }
}

/// A map from identifiers to values. The only way to build one is
/// through its operations, which keep the stored keys distinct.
#[derive(Clone, Debug)]
pub struct IdMap<V> {
    entries: Vec<(usize, V)>,
}

impl<V> View for IdMap<V> {
    type V = Map<usize, V>;

    closed spec fn view(&self) -> Map<usize, V> {
        assoc_map(self.entries@)
    }
}

impl<V> IdMap<V> {
    /// The stored keys are distinct; every operation preserves this.
    pub closed spec fn wf(self) -> bool {
        distinct_keys(self.entries@)
    }

    /// A well-formed map has a finite domain.
    pub proof fn lemma_finite(&self)
        requires
            self.wf(),
        ensures
            self@.dom().finite(),
    {
        lemma_assoc_props(self.entries@);
    }

    /// Creates an empty map.
    pub fn new() -> (r: Self)
        ensures
            r@ == Map::<usize, V>::empty(),
            r.wf(),
    {
        IdMap { entries: Vec::new() }
    }

    /// The number of keys in the map.
    pub fn len(&self) -> (r: usize)
        requires
            self.wf(),
        ensures
            r == self@.dom().len(),
            self@.dom().finite(),
    {
        proof {
            lemma_assoc_props(self.entries@);
        }
        self.entries.len()
    }

    /// Whether the map is empty.
    pub fn is_empty(&self) -> (r: bool)
        requires
            self.wf(),
        ensures
            r == (self@.dom() =~= Set::<usize>::empty()),
    {
        proof {
            lemma_assoc_props(self.entries@);
            if self.entries@.len() > 0 {
                assert(self@.dom().contains(self.entries@[0].0));
            }
        }
        self.entries.len() == 0
    }

    /// Whether the map holds the key.
    #[verifier::loop_isolation(false)]
    pub fn contains_key(&self, k: usize) -> (r: bool)
        requires
            self.wf(),
        ensures
            r == self@.dom().contains(k),
    {
        proof {
            lemma_assoc_props(self.entries@);
        }
        let n = self.entries.len();
        for i in 0..n
            invariant
                n == self.entries@.len(),
                forall|j: int| 0 <= j < i ==> (#[trigger] self.entries@[j]).0 != k,
        {
            if self.entries[i].0 == k {
                return true;
            }
        }
        proof {
            if has_key(self.entries@, k) {
                let j = choose|j: int|
                    0 <= j < self.entries@.len() && (#[trigger] self.entries@[j]).0 == k;
            }
        }
        false
    }

    /// Looks up the value stored under the key.
    #[verifier::loop_isolation(false)]
    pub fn get(&self, k: usize) -> (r: Option<&V>)
        requires
            self.wf(),
        ensures
            match r {
                Some(v) => self@.dom().contains(k) && *v == self@[k],
                None => !self@.dom().contains(k),
            },
    {
        proof {
            lemma_assoc_props(self.entries@);
        }
        let n = self.entries.len();
        for i in 0..n
            invariant
                n == self.entries@.len(),
                forall|j: int| 0 <= j < i ==> (#[trigger] self.entries@[j]).0 != k,
        {
            if self.entries[i].0 == k {
                return Some(&self.entries[i].1);
            }
        }
        proof {
            if has_key(self.entries@, k) {
                let j = choose|j: int|
                    0 <= j < self.entries@.len() && (#[trigger] self.entries@[j]).0 == k;
            }
        }
        None
    }

    /// Inserts a value under a key, replacing any previous value.
    #[verifier::loop_isolation(false)]
    pub fn insert(&mut self, k: usize, v: V)
        requires
            old(self).wf(),
        ensures
            final(self)@ == old(self)@.insert(k, v),
            final(self).wf(),
    {
        proof {
            lemma_assoc_props(self.entries@);
        }
        let n = self.entries.len();
        for i in 0..n
            invariant
                n == self.entries@.len(),
                self.entries@ == old(self).entries@,
                forall|j: int| 0 <= j < i ==> (#[trigger] self.entries@[j]).0 != k,
        {
            if self.entries[i].0 == k {
                proof {
                    lemma_assoc_update(self.entries@, i as int, v);
                }
                self.entries.set(i, (k, v));
                return ;
            }
        }
        proof {
            assert(self.entries@.push((k, v)).drop_last() =~= self.entries@);
            assert(distinct_keys(self.entries@.push((k, v)))) by {
                let s2 = self.entries@.push((k, v));
                assert(forall|j: int| 0 <= j < self.entries@.len() ==> #[trigger] s2[j]
                    == self.entries@[j]);
            }
        }
        self.entries.push((k, v));
    }

    /// Removes the key from the map, returning its value if present.
    #[verifier::loop_isolation(false)]
    pub fn remove(&mut self, k: usize) -> (r: Option<V>)
        requires
            old(self).wf(),
        ensures
            final(self)@ == old(self)@.remove(k),
            final(self).wf(),
            match r {
                Some(v) => old(self)@.dom().contains(k) && v == old(self)@[k],
                None => !old(self)@.dom().contains(k),
            },
    {
        proof {
            lemma_assoc_props(self.entries@);
        }
        let n = self.entries.len();
        for i in 0..n
            invariant
                n == self.entries@.len(),
                self.entries@ == old(self).entries@,
                forall|j: int| 0 <= j < i ==> (#[trigger] self.entries@[j]).0 != k,
        {
            if self.entries[i].0 == k {
                proof {
                    lemma_assoc_remove(self.entries@, i as int);
                }
                let pair = self.entries.remove(i);
                return Some(pair.1);
            }
        }
        proof {
            if has_key(self.entries@, k) {
                let j = choose|j: int|
                    0 <= j < self.entries@.len() && (#[trigger] self.entries@[j]).0 == k;
            }
            assert(self@.remove(k) =~= self@);
        }
        None
    }

    /// The keys of the map, each exactly once.
    #[verifier::loop_isolation(false)]
    pub fn keys(&self) -> (r: Vec<usize>)
        requires
            self.wf(),
        ensures
            r@.len() == self@.dom().len(),
            forall|j: int| 0 <= j < r@.len() ==> self@.dom().contains(#[trigger] r@[j]),
            forall|k: usize| #[trigger] self@.dom().contains(k) ==> exists|j: int|
                0 <= j < r@.len() && r@[j] == k,
            forall|a: int, b: int| 0 <= a < b < r@.len() ==> r@[a] != r@[b],
    {
        proof {
            lemma_assoc_props(self.entries@);
        }
        let mut r: Vec<usize> = Vec::new();
        let n = self.entries.len();
        for i in 0..n
            invariant
                n == self.entries@.len(),
                r@.len() == i,
                forall|j: int| 0 <= j < i ==> r@[j] == (#[trigger] self.entries@[j]).0,
        {
            r.push(self.entries[i].0);
        }
        proof {
            assert forall|k: usize| #[trigger] self@.dom().contains(k) implies exists|j: int|
                0 <= j < r@.len() && r@[j] == k by {
                let j = choose|j: int|
                    0 <= j < self.entries@.len() && (#[trigger] self.entries@[j]).0 == k;
                assert(r@[j] == k);
            }
            assert forall|j: int| 0 <= j < r@.len() implies self@.dom().contains(
                #[trigger] r@[j],
            ) by {
                assert(r@[j] == self.entries@[j].0);
                assert(has_key(self.entries@, self.entries@[j].0));
            }
            assert forall|a: int, b: int| 0 <= a < b < r@.len() implies r@[a] != r@[b] by {
                assert(r@[a] == self.entries@[a].0 && r@[b] == self.entries@[b].0);
            }
        }
        r
    }
}

} // verus!
