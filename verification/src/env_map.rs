//! A small map from names to values, both text, kept in the order in which
//! the names were first set.

use crate::text::str_equal;
use vstd::prelude::*;

verus! {

/// The map that a list of assignments builds when they are made in order.
pub open spec fn assignments(entries: Seq<(String, String)>) -> Map<Seq<char>, Seq<char>>
    decreases entries.len(),
{
    if entries.len() == 0 {
        Map::empty()
    } else {
        assignments(entries.drop_last()).insert(entries.last().0@, entries.last().1@)
    }
}

/// Environment variables: each name has one value.
#[derive(Debug, Clone)]
pub struct EnvMap {
    entries: Vec<(String, String)>,
}

impl View for EnvMap {
    type V = Map<Seq<char>, Seq<char>>;

    closed spec fn view(&self) -> Map<Seq<char>, Seq<char>> {
        assignments(self.entries@)
    }
}

impl EnvMap {
    /// The names and values in the order in which they are held.
    pub closed spec fn pairs(&self) -> Seq<(Seq<char>, Seq<char>)> {
        self.entries@.map_values(|e: (String, String)| (e.0@, e.1@))
    }

    /// A map without entries.
    pub fn new() -> (m: EnvMap)
        ensures
            m@ == Map::<Seq<char>, Seq<char>>::empty(),
            m.pairs().len() == 0,
    {
        EnvMap { entries: Vec::new() }
    }

    /// Whether the map holds nothing.
    pub fn is_empty(&self) -> (r: bool)
        ensures
            r == (self@ == Map::<Seq<char>, Seq<char>>::empty()),
            r == (self.pairs().len() == 0),
    {
        proof {
            if self.entries@.len() > 0 {
                assert(self@.contains_key(self.entries@.last().0@));
            }
        }
        self.entries.len() == 0
    }

    /// The number of entries held.
    pub fn len(&self) -> (n: usize)
        ensures
            n == self.pairs().len(),
    {
        self.entries.len()
    }

    /// The value set for `key`, if there is one.
    pub fn get(&self, key: &str) -> (r: Option<&String>)
        ensures
            match r {
                Some(v) => self@.contains_key(key@) && self@[key@] == v@,
                None => !self@.contains_key(key@),
            },
    {
        let mut i: usize = self.entries.len();
        assert(self.entries@.take(i as int) =~= self.entries@);
        while i > 0
            invariant
                i <= self.entries.len(),
                self@.contains_key(key@) == assignments(self.entries@.take(i as int)).contains_key(
                    key@,
                ),
                self@.contains_key(key@) ==> self@[key@] == assignments(
                    self.entries@.take(i as int),
                )[key@],
            decreases i,
        {
            let ghost prefix = self.entries@.take(i as int);
            assert(prefix.drop_last() =~= self.entries@.take(i - 1));
            assert(prefix.last() == self.entries@[i - 1]);
            i = i - 1;
            if str_equal(self.entries[i].0.as_str(), key) {
                return Some(&self.entries[i].1);
            }
        }
        None
    }

    /// Whether a value is set for `key`.
    pub fn contains_key(&self, key: &str) -> (r: bool)
        ensures
            r == self@.contains_key(key@),
    {
        self.get(key).is_some()
    }

    /// Takes the entry for `key` out, if there is one.
    pub fn remove(&mut self, key: &str)
        ensures
            final(self)@ == old(self)@.remove(key@),
    {
        let mut kept: Vec<(String, String)> = Vec::new();
        let mut i: usize = 0;
        let ghost before = self.entries@;
        assert(before.take(0) =~= Seq::<(String, String)>::empty());
        while i < self.entries.len()
            invariant
                self.entries@ == before,
                i <= before.len(),
                assignments(kept@) == assignments(before.take(i as int)).remove(key@),
            decreases before.len() - i,
        {
            let ghost prefix = before.take(i + 1);
            assert(prefix.drop_last() =~= before.take(i as int));
            assert(prefix.last() == before[i as int]);
            if !str_equal(self.entries[i].0.as_str(), key) {
                let entry = (self.entries[i].0.clone(), self.entries[i].1.clone());
                let ghost old_kept = kept@;
                kept.push(entry);
                proof {
                    assert(kept@.drop_last() =~= old_kept);
                    assert(assignments(kept@) =~= assignments(prefix).remove(key@));
                }
            } else {
                assert(assignments(kept@) =~= assignments(prefix).remove(key@));
            }
            i = i + 1;
        }
        assert(before.take(i as int) =~= before);
        self.entries = kept;
    }

    /// Sets the value for `key`, in place of an earlier one if there was one.
    pub fn insert(&mut self, key: String, value: String)
        ensures
            final(self)@ == old(self)@.insert(key@, value@),
    {
        self.remove(key.as_str());
        let ghost mid = self.entries@;
        self.entries.push((key, value));
        proof {
            assert(self.entries@.drop_last() =~= mid);
            assert(self@ =~= old(self)@.insert(key@, value@));
        }
    }

    /// The name and the value of the entry at position `i`.
    pub fn entry(&self, i: usize) -> (r: (&String, &String))
        requires
            i < self.pairs().len(),
        ensures
            (r.0@, r.1@) == self.pairs()[i as int],
    {
        (&self.entries[i].0, &self.entries[i].1)
    }
}

/// The map that a list of pairs builds when they are set in order.
pub open spec fn map_of(pairs: Seq<(Seq<char>, Seq<char>)>) -> Map<Seq<char>, Seq<char>>
    decreases pairs.len(),
{
    if pairs.len() == 0 {
        Map::empty()
    } else {
        map_of(pairs.drop_last()).insert(pairs.last().0, pairs.last().1)
    }
}

impl EnvMap {
    /// The map is what its entries, set in order, build.
    pub proof fn law_pairs_give_the_map(&self)
        ensures
            self@ == map_of(self.pairs()),
    {
        Self::lemma_pairs_of(self.entries@);
    }

    proof fn lemma_pairs_of(entries: Seq<(String, String)>)
        ensures
            assignments(entries) == map_of(
                entries.map_values(|e: (String, String)| (e.0@, e.1@)),
            ),
        decreases entries.len(),
    {
        let pairs = entries.map_values(|e: (String, String)| (e.0@, e.1@));
        if entries.len() > 0 {
            Self::lemma_pairs_of(entries.drop_last());
            assert(pairs.drop_last() =~= entries.drop_last().map_values(
                |e: (String, String)| (e.0@, e.1@),
            ));
        }
    }
}

/// The texts of a list of names and values.
pub open spec fn pair_texts(pairs: Seq<(String, String)>) -> Seq<(Seq<char>, Seq<char>)> {
    pairs.map_values(|p: (String, String)| (p.0@, p.1@))
}

/// A map after a list of names is set in order, each to its value.
pub open spec fn set_all(m: Map<Seq<char>, Seq<char>>, pairs: Seq<(Seq<char>, Seq<char>)>) -> Map<
    Seq<char>,
    Seq<char>,
>
    decreases pairs.len(),
{
    if pairs.len() == 0 {
        m
    } else {
        set_all(m, pairs.drop_last()).insert(pairs.last().0, pairs.last().1)
    }
}

impl EnvMap {
    /// Sets each name of `pairs` to its value, in order.
    pub fn insert_all(&mut self, pairs: Vec<(String, String)>)
        ensures
            final(self)@ == set_all(old(self)@, pair_texts(pairs@)),
    {
        let mut rest = pairs;
        let ghost all = pair_texts(pairs@);
        let n = rest.len();
        let mut i: usize = 0;
        assert(all.take(0) =~= Seq::<(Seq<char>, Seq<char>)>::empty());
        while i < n
            invariant
                i <= n,
                n == pairs@.len(),
                rest@.len() == n - i,
                all == pair_texts(pairs@),
                forall|j: int| 0 <= j < rest@.len() ==> rest@[j] == pairs@[i + j],
                self@ == set_all(old(self)@, all.take(i as int)),
            decreases n - i,
        {
            let pair = rest.remove(0);
            proof {
                assert(pair == pairs@[i as int]);
                assert(all.take(i + 1).drop_last() =~= all.take(i as int));
                assert(all.take(i + 1).last() == (pair.0@, pair.1@));
            }
            self.insert(pair.0, pair.1);
            i = i + 1;
        }
        assert(all.take(n as int) =~= all);
    }

    /// Sets each name that `other` holds to the value that it has there.
    pub fn merge(&mut self, other: &EnvMap)
        ensures
            final(self)@ == set_all(old(self)@, other.pairs()),
    {
        let n = other.len();
        let mut i: usize = 0;
        assert(other.pairs().take(0) =~= Seq::<(Seq<char>, Seq<char>)>::empty());
        while i < n
            invariant
                i <= n,
                n == other.pairs().len(),
                self@ == set_all(old(self)@, other.pairs().take(i as int)),
            decreases n - i,
        {
            let (name, value) = other.entry(i);
            proof {
                assert(other.pairs().take(i + 1).drop_last() =~= other.pairs().take(i as int));
                assert(other.pairs().take(i + 1).last() == (name@, value@));
            }
            self.insert(name.clone(), value.clone());
            i = i + 1;
        }
        assert(other.pairs().take(n as int) =~= other.pairs());
    }
}

} // verus!
