//! A string-to-string map kept as a list of distinct keys: the label,
//! annotation and selector maps that go on every managed object.
use vstd::prelude::*;
use crate::text::str_eq;

verus! {

/// Key/value pairs with distinct keys. Reading order does not matter to its
/// meaning; its view is the map it stands for.
#[derive(Debug)]
pub struct StrMap {
    entries: Vec<(String, String)>,
}

/// The map that a list of pairs stands for; a later pair wins over an earlier one.
pub open spec fn pairs_map(s: Seq<(String, String)>) -> Map<Seq<char>, Seq<char>>
    decreases s.len(),
{
    if s.len() == 0 {
        Map::empty()
    } else {
        pairs_map(s.drop_last()).insert(s.last().0@, s.last().1@)
    }
}

/// No key occurs twice.
pub open spec fn distinct_keys(s: Seq<(String, String)>) -> bool {
    forall|i: int, j: int| 0 <= i < j < s.len() ==> s[i].0@ != s[j].0@
}

impl View for StrMap {
    type V = Map<Seq<char>, Seq<char>>;

    closed spec fn view(&self) -> Map<Seq<char>, Seq<char>> {
        pairs_map(self.entries@)
    }
}

proof fn lemma_pairs_map_key_absent(s: Seq<(String, String)>, k: Seq<char>)
    requires
        forall|i: int| 0 <= i < s.len() ==> s[i].0@ != k,
    ensures
        !pairs_map(s).dom().contains(k),
    decreases s.len(),
{
    if s.len() > 0 {
        lemma_pairs_map_key_absent(s.drop_last(), k);
    }
}

proof fn lemma_pairs_map_update(s: Seq<(String, String)>, idx: int, k: String, v: String)
    requires
        0 <= idx < s.len(),
        distinct_keys(s),
        s[idx].0@ == k@,
    ensures
        pairs_map(s.update(idx, (k, v))) == pairs_map(s).insert(k@, v@),
    decreases s.len(),
{
    let t = s.update(idx, (k, v));
    if idx == s.len() - 1 {
        assert(t.drop_last() =~= s.drop_last());
        assert(forall|i: int| 0 <= i < s.drop_last().len() ==> s.drop_last()[i].0@ != k@);
        lemma_pairs_map_key_absent(s.drop_last(), k@);
        assert(pairs_map(t) =~= pairs_map(s).insert(k@, v@));
    } else {
        assert(t.drop_last() =~= s.drop_last().update(idx, (k, v)));
        lemma_pairs_map_update(s.drop_last(), idx, k, v);
        assert(s.last().0@ != k@);
        assert(pairs_map(t) =~= pairs_map(s).insert(k@, v@));
    }
}

fn find_key(es: &Vec<(String, String)>, key: &str) -> (r: Option<usize>)
    ensures
        match r {
            Some(i) => i < es@.len() && es@[i as int].0@ == key@,
            None => forall|j: int| 0 <= j < es@.len() ==> es@[j].0@ != key@,
        },
{
    let n = es.len();
    let mut i: usize = 0;
    while i < n
        invariant
            n == es@.len(),
            i <= n,
            forall|j: int| 0 <= j < i ==> es@[j].0@ != key@,
        decreases n - i,
    {
        if str_eq(es[i].0.as_str(), key) {
            return Some(i);
        }
        i = i + 1;
    }
    None
}

impl StrMap {
    /// Keys are distinct.
    #[verifier::type_invariant]
    closed spec fn wf(&self) -> bool {
        distinct_keys(self.entries@)
    }

    /// The pairs, each key once.
    pub fn entries(&self) -> (r: &Vec<(String, String)>)
        ensures
            pairs_map(r@) == self@,
            distinct_keys(r@),
    {
        proof {
            use_type_invariant(self);
        }
        &self.entries
    }

    /// The empty map.
    pub fn new() -> (m: StrMap)
        ensures
            m@ == Map::<Seq<char>, Seq<char>>::empty(),
    {
        StrMap { entries: Vec::new() }
    }

    /// Sets `key` to `value`, replacing an earlier value of that key.
    pub fn insert(&mut self, key: String, value: String)
        ensures
            final(self)@ == old(self)@.insert(key@, value@),
    {
        proof {
            use_type_invariant(&*self);
        }
        let mut es: Vec<(String, String)> = Vec::new();
        std::mem::swap(&mut es, &mut self.entries);
        let ghost before = es@;
        assert(before == old(self).entries@);
        assert(distinct_keys(before));
        let found = find_key(&es, key.as_str());
        if let Some(i) = found {
            proof {
                lemma_pairs_map_update(before, i as int, key, value);
            }
            es.set(i, (key, value));
            assert(es@ == before.update(i as int, (key, value)));
            assert(distinct_keys(es@)) by {
                assert forall|a: int, b: int| 0 <= a < b < es@.len() implies es@[a].0@ != es@[b].0@ by {
                    if a != i && b != i {
                        assert(before[a].0@ != before[b].0@);
                    } else if a == i {
                        assert(before[i as int].0@ != before[b].0@);
                    } else {
                        assert(before[a].0@ != before[i as int].0@);
                    }
                }
            }
        } else {
            es.push((key, value));
            assert(es@.drop_last() =~= before);
        }
        self.entries = es;
    }

    /// Adds every pair of `other`, whose values win over those already present.
    pub fn merge(&mut self, other: &StrMap)
        ensures
            final(self)@ == old(self)@.union_prefer_right(other@),
    {
        let n = other.entries.len();
        let mut i: usize = 0;
        while i < n
            invariant
                n == other.entries.len(),
                i <= n,
                self@ == old(self)@.union_prefer_right(pairs_map(other.entries@.subrange(0, i as int))),
            decreases n - i,
        {
            let k = other.entries[i].0.clone();
            let v = other.entries[i].1.clone();
            let ghost pre = other.entries@.subrange(0, i as int);
            assert(other.entries@.subrange(0, i + 1).drop_last() =~= pre);
            self.insert(k, v);
            assert(self@ =~= old(self)@.union_prefer_right(pairs_map(other.entries@.subrange(0, i + 1))));
            i = i + 1;
        }
        assert(other.entries@.subrange(0, n as int) =~= other.entries@);
    }

    /// A copy with the same meaning.
    pub fn copy(&self) -> (r: StrMap)
        ensures
            r@ == self@,
    {
        proof {
            use_type_invariant(self);
        }
        let mut out = StrMap::new();
        let n = self.entries.len();
        let mut i: usize = 0;
        while i < n
            invariant
                n == self.entries.len(),
                i <= n,
                distinct_keys(self.entries@),
                out@ == pairs_map(self.entries@.subrange(0, i as int)),
            decreases n - i,
        {
            let k = self.entries[i].0.clone();
            let v = self.entries[i].1.clone();
            out.insert(k, v);
            assert(self.entries@.subrange(0, i + 1).drop_last() =~= self.entries@.subrange(0, i as int));
            i = i + 1;
        }
        assert(self.entries@.subrange(0, n as int) =~= self.entries@);
        out
    }
}

} // verus!
