//! A map from variable names to values, kept as a list of entries with
//! pairwise distinct names.

use vstd::prelude::*;
use vstd::std_specs::cmp::PartialEqSpecImpl;

verus! {

/// No two entries of `s` share a name.
pub open spec fn keys_distinct(s: Seq<(String, String)>) -> bool {
    forall|i: int, j: int|
        0 <= i < j < s.len() ==> (#[trigger] s[i]).0@ != (#[trigger] s[j]).0@
}

/// Some entry of `s` is named `k`.
pub open spec fn has_key(s: Seq<(String, String)>, k: Seq<char>) -> bool {
    exists|i: int| 0 <= i < s.len() && (#[trigger] s[i]).0@ == k
}

/// The position of an entry of `s` named `k`, where there is one.
pub open spec fn index_of(s: Seq<(String, String)>, k: Seq<char>) -> int {
    choose|i: int| 0 <= i < s.len() && (#[trigger] s[i]).0@ == k
}

/// The map that a list of entries with distinct names stands for.
pub open spec fn pairs_map(s: Seq<(String, String)>) -> Map<Seq<char>, Seq<char>> {
    Map::new(|k: Seq<char>| has_key(s, k), |k: Seq<char>| s[index_of(s, k)].1@)
}

/// `before`, with the value of each name that `seen` holds taken from `other`.
spec fn overlay(
    before: Map<Seq<char>, Seq<char>>,
    other: Map<Seq<char>, Seq<char>>,
    seen: Seq<(String, String)>,
) -> Map<Seq<char>, Seq<char>> {
    Map::new(
        |q: Seq<char>| before.contains_key(q) || has_key(seen, q),
        |q: Seq<char>|
            if has_key(seen, q) {
                other[q]
            } else {
                before[q]
            },
    )
}

/// The names and values of a list of entries, as sequences of characters.
pub open spec fn pairs_view(s: Seq<(String, String)>) -> Seq<(Seq<char>, Seq<char>)> {
    Seq::new(s.len(), |i: int| (s[i].0@, s[i].1@))
}

/// The map built by inserting the entries of `s` one after the other, so that
/// of two entries with the same name the later one stays.
pub open spec fn fold_entries(s: Seq<(Seq<char>, Seq<char>)>) -> Map<Seq<char>, Seq<char>>
    decreases s.len(),
{
    if s.len() == 0 {
        Map::empty()
    } else {
        fold_entries(s.drop_last()).insert(s.last().0, s.last().1)
    }
}

/// The names of a list of entries with distinct names form a finite set
/// with as many elements as the list has entries.
pub proof fn lemma_pairs_map_len(s: Seq<(String, String)>)
    requires
        keys_distinct(s),
    ensures
        pairs_map(s).dom().finite(),
        pairs_map(s).dom().len() == s.len(),
    decreases s.len(),
{
    if s.len() == 0 {
        assert(pairs_map(s).dom() =~= Set::<Seq<char>>::empty());
    } else {
        let t = s.drop_last();
        let k = s.last().0@;
        assert(keys_distinct(t)) by {
            assert forall|i: int, j: int| 0 <= i < j < t.len() implies (#[trigger] t[i]).0@ != (
            #[trigger] t[j]).0@ by {
                assert(t[i] == s[i] && t[j] == s[j]);
            }
        }
        lemma_pairs_map_len(t);
        assert(!pairs_map(t).dom().contains(k)) by {
            if has_key(t, k) {
                let i = index_of(t, k);
                assert(t[i] == s[i]);
                assert(s[i].0@ != s[s.len() - 1].0@);
            }
        }
        assert(pairs_map(s).dom() =~= pairs_map(t).dom().insert(k)) by {
            assert forall|q: Seq<char>| has_key(s, q) implies has_key(t, q) || q == k by {
                let i = index_of(s, q);
                if i < t.len() {
                    assert(t[i].0@ == q);
                }
            }
            assert forall|q: Seq<char>| has_key(t, q) || q == k implies has_key(s, q) by {
                if has_key(t, q) {
                    let i = index_of(t, q);
                    assert(s[i].0@ == q);
                } else {
                    assert(s[s.len() - 1].0@ == q);
                }
            }
        }
    }
}

/// In a list with distinct names, each entry is the one that its name finds,
/// and the map holds exactly the entries of the list.
pub proof fn lemma_pairs_map(s: Seq<(String, String)>)
    requires
        keys_distinct(s),
    ensures
        forall|i: int|
            0 <= i < s.len() ==> pairs_map(s).contains_key((#[trigger] s[i]).0@) && pairs_map(
                s,
            )[s[i].0@] == s[i].1@,
        forall|k: Seq<char>| #[trigger]
            pairs_map(s).contains_key(k) ==> 0 <= index_of(s, k) < s.len() && s[index_of(
                s,
                k,
            )].0@ == k,
        forall|i: int| 0 <= i < s.len() ==> index_of(s, (#[trigger] s[i]).0@) == i,
{
    assert forall|i: int| 0 <= i < s.len() implies pairs_map(s).contains_key(
        (#[trigger] s[i]).0@,
    ) && pairs_map(s)[s[i].0@] == s[i].1@ && index_of(s, s[i].0@) == i by {
        let k = s[i].0@;
        assert(has_key(s, k));
        let j = index_of(s, k);
        assert(0 <= j < s.len() && s[j].0@ == k);
        if j < i {
            assert(s[j].0@ != s[i].0@);
        }
        if i < j {
            assert(s[i].0@ != s[j].0@);
        }
    }
}

/// A finite map from names to values. Names are compared character by
/// character, so they are case-sensitive.
#[derive(Debug)]
pub struct EnvMap {
    entries: Vec<(String, String)>,
}

impl View for EnvMap {
    type V = Map<Seq<char>, Seq<char>>;

    closed spec fn view(&self) -> Map<Seq<char>, Seq<char>> {
        pairs_map(self.entries@)
    }
}

impl EnvMap {
    #[verifier::type_invariant]
    spec fn distinct(self) -> bool {
        keys_distinct(self.entries@)
    }

    /// The position of the entry named `key`, if there is one.
    fn find(entries: &Vec<(String, String)>, key: &String) -> (r: Option<usize>)
        ensures
            match r {
                Some(i) => i < entries@.len() && entries@[i as int].0@ == key@,
                None => !has_key(entries@, key@),
            },
    {
        let mut i: usize = 0;
        while i < entries.len()
            invariant
                i <= entries@.len(),
                forall|j: int| 0 <= j < i ==> (#[trigger] entries@[j]).0@ != key@,
            decreases entries@.len() - i,
        {
            if entries[i].0 == *key {
                return Some(i);
            }
            i += 1;
        }
        None
    }

    /// The empty map.
    pub fn new() -> (r: EnvMap)
        ensures
            r@ == Map::<Seq<char>, Seq<char>>::empty(),
    {
        let r = EnvMap { entries: Vec::new() };
        assert(r@ =~= Map::<Seq<char>, Seq<char>>::empty());
        r
    }

    /// Whether the map holds no entry.
    pub fn is_empty(&self) -> (r: bool)
        ensures
            r == (self@ == Map::<Seq<char>, Seq<char>>::empty()),
    {
        proof {
            use_type_invariant(self);
            lemma_pairs_map(self.entries@);
            if self.entries@.len() == 0 {
                assert(self@ =~= Map::<Seq<char>, Seq<char>>::empty());
            } else {
                assert(self@.contains_key(self.entries@[0].0@));
            }
        }
        self.entries.len() == 0
    }

    /// The number of entries.
    pub fn len(&self) -> (r: usize)
        ensures
            self@.dom().finite(),
            r == self@.dom().len(),
    {
        proof {
            use_type_invariant(self);
            lemma_pairs_map_len(self.entries@);
        }
        self.entries.len()
    }

    /// Whether the map holds an entry named `key`.
    pub fn contains_key(&self, key: &str) -> (r: bool)
        ensures
            r == self@.contains_key(key@),
    {
        let owned = key.to_owned();
        let found = Self::find(&self.entries, &owned);
        found.is_some()
    }

    /// The value of the entry named `key`, if there is one.
    pub fn get(&self, key: &str) -> (r: Option<&String>)
        ensures
            match r {
                Some(v) => self@.contains_key(key@) && self@[key@] == v@,
                None => !self@.contains_key(key@),
            },
    {
        proof {
            use_type_invariant(self);
            lemma_pairs_map(self.entries@);
        }
        let owned = key.to_owned();
        match Self::find(&self.entries, &owned) {
            Some(i) => Some(&self.entries[i].1),
            None => None,
        }
    }

    /// Sets the value of the entry named `key`, adding the entry where the
    /// map has none of that name. All other entries stay as they are.
    pub fn insert(&mut self, key: String, value: String)
        ensures
            final(self)@ == old(self)@.insert(key@, value@),
    {
        proof {
            use_type_invariant(&*self);
        }
        let mut entries: Vec<(String, String)> = Vec::new();
        std::mem::swap(&mut entries, &mut self.entries);
        let ghost before = entries@;
        let ghost k = key@;
        let ghost v = value@;
        let ghost pos: int;
        match Self::find(&entries, &key) {
            Some(i) => {
                proof {
                    pos = i as int;
                }
                entries.set(i, (key, value));
            },
            None => {
                proof {
                    pos = before.len() as int;
                }
                entries.push((key, value));
            },
        }
        proof {
            let after = entries@;
            assert(after[pos].0@ == k && after[pos].1@ == v);
            assert(keys_distinct(after)) by {
                assert forall|a: int, b: int| 0 <= a < b < after.len() implies (
                #[trigger] after[a]).0@ != (#[trigger] after[b]).0@ by {
                    if a < before.len() {
                        assert(before[a].0@ == after[a].0@);
                    }
                    if b < before.len() {
                        assert(before[b].0@ == after[b].0@);
                    }
                }
            }
            lemma_pairs_map(before);
            lemma_pairs_map(after);
            assert forall|q: Seq<char>| pairs_map(after).contains_key(q) implies #[trigger] pairs_map(
                before,
            ).insert(k, v).contains_key(q) by {
                let j = index_of(after, q);
                if j < before.len() && q != k {
                    assert(before[j].0@ == q);
                }
            }
            assert forall|q: Seq<char>| #[trigger]
                pairs_map(before).insert(k, v).contains_key(q) implies pairs_map(
                after,
            ).contains_key(q) && pairs_map(after)[q] == pairs_map(before).insert(k, v)[q] by {
                if q == k {
                    assert(after[pos].0@ == q);
                } else {
                    let j = index_of(before, q);
                    assert(after[j].0@ == q);
                    assert(after[j].1@ == before[j].1@);
                }
            }
            assert(pairs_map(after) =~= pairs_map(before).insert(k, v));
        }
        self.entries = entries;
    }

    /// The entries of the map, each once, as owned pairs.
    pub fn to_pairs(&self) -> (r: Vec<(String, String)>)
        ensures
            keys_distinct(r@),
            pairs_map(r@) == self@,
    {
        proof {
            use_type_invariant(self);
        }
        self.copy_entries()
    }

    fn copy_entries(&self) -> (r: Vec<(String, String)>)
        ensures
            r@ == self.entries@,
    {
        let mut out: Vec<(String, String)> = Vec::new();
        let mut i: usize = 0;
        while i < self.entries.len()
            invariant
                i <= self.entries@.len(),
                out@ == self.entries@.take(i as int),
            decreases self.entries@.len() - i,
        {
            let k = self.entries[i].0.clone();
            let v = self.entries[i].1.clone();
            out.push((k, v));
            assert(out@ =~= self.entries@.take(i + 1));
            i += 1;
        }
        assert(out@ =~= self.entries@);
        out
    }

    /// The map built by inserting `pairs` one after the other: of two pairs
    /// with the same name the later one stays.
    pub fn from_pairs(pairs: Vec<(String, String)>) -> (r: EnvMap)
        ensures
            r@ == fold_entries(pairs_view(pairs@)),
    {
        let mut out = EnvMap::new();
        let mut i: usize = 0;
        while i < pairs.len()
            invariant
                i <= pairs@.len(),
                out@ == fold_entries(pairs_view(pairs@.take(i as int))),
            decreases pairs@.len() - i,
        {
            let k = pairs[i].0.clone();
            let v = pairs[i].1.clone();
            out.insert(k, v);
            assert(pairs_view(pairs@.take(i + 1)).drop_last() =~= pairs_view(
                pairs@.take(i as int),
            ));
            i += 1;
        }
        assert(pairs@.take(pairs@.len() as int) =~= pairs@);
        out
    }

    /// Adds every entry of `other`, replacing the value of each entry whose
    /// name `other` holds too. Entries under other names stay as they are.
    pub fn extend_from(&mut self, other: &EnvMap)
        ensures
            final(self)@ == old(self)@.union_prefer_right(other@),
    {
        let pairs = other.to_pairs();
        let ghost before = self@;
        let mut i: usize = 0;
        assert(self@ =~= overlay(before, other@, pairs@.take(0)));
        while i < pairs.len()
            invariant
                i <= pairs@.len(),
                keys_distinct(pairs@),
                pairs_map(pairs@) == other@,
                self@ == overlay(before, other@, pairs@.take(i as int)),
            decreases pairs@.len() - i,
        {
            let k = pairs[i].0.clone();
            let v = pairs[i].1.clone();
            proof {
                lemma_pairs_map(pairs@);
                let a = pairs@.take(i as int);
                let b = pairs@.take(i + 1);
                assert(b[i as int] == pairs@[i as int]);
                assert forall|q: Seq<char>| has_key(b, q) <==> has_key(a, q) || q == k@ by {
                    if has_key(b, q) {
                        let j = index_of(b, q);
                        if j < i {
                            assert(a[j].0@ == q);
                        }
                    }
                    if has_key(a, q) {
                        let j = index_of(a, q);
                        assert(b[j].0@ == q);
                    }
                    if q == k@ {
                        assert(b[i as int].0@ == q);
                    }
                }
            }
            let ghost prev = self@;
            self.insert(k, v);
            assert(self@ =~= overlay(before, other@, pairs@.take(i + 1))) by {
                assert(pairs@[i as int].0@ == k@ && pairs@[i as int].1@ == v@);
                assert(other@[k@] == v@);
                assert(prev == overlay(before, other@, pairs@.take(i as int)));
            }
            i += 1;
        }
        proof {
            assert(pairs@.take(pairs@.len() as int) =~= pairs@);
            assert(self@ =~= before.union_prefer_right(other@));
        }
    }

    /// Whether every entry of `self` is an entry of `other` too.
    fn included_in(&self, other: &EnvMap) -> (r: bool)
        ensures
            r == self@.submap_of(other@),
    {
        proof {
            use_type_invariant(self);
            lemma_pairs_map(self.entries@);
        }
        let mut i: usize = 0;
        while i < self.entries.len()
            invariant
                i <= self.entries@.len(),
                forall|j: int|
                    0 <= j < i ==> other@.contains_key((#[trigger] self.entries@[j]).0@)
                        && other@[self.entries@[j].0@] == self.entries@[j].1@,
            decreases self.entries@.len() - i,
        {
            let found = other.get(self.entries[i].0.as_str());
            let same = match found {
                Some(v) => *v == self.entries[i].1,
                None => false,
            };
            if !same {
                proof {
                    use_type_invariant(self);
                    lemma_pairs_map(self.entries@);
                    let e = self.entries@[i as int];
                    assert(self@.contains_key(e.0@) && self@[e.0@] == e.1@);
                }
                return false;
            }
            i += 1;
        }
        proof {
            assert forall|k: Seq<char>| self@.contains_key(k) implies #[trigger] other@.contains_key(k)
                && self@[k] == other@[k] by {
                let j = index_of(self.entries@, k);
                assert(self.entries@[j].0@ == k);
            }
        }
        true
    }
}

impl Clone for EnvMap {
    fn clone(&self) -> (r: EnvMap)
        ensures
            r@ == self@,
    {
        proof {
            use_type_invariant(self);
        }
        let entries = self.copy_entries();
        EnvMap { entries }
    }
}

impl PartialEq for EnvMap {
    fn eq(&self, other: &EnvMap) -> (r: bool) {
        let r = self.included_in(other) && other.included_in(self);
        proof {
            if r {
                assert(self@ =~= other@);
            }
        }
        r
    }
}

impl PartialEqSpecImpl for EnvMap {
    open spec fn obeys_eq_spec() -> bool {
        true
    }

    open spec fn eq_spec(&self, other: &EnvMap) -> bool {
        self@ == other@
    }
}

} // verus!
