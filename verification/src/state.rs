//! The persisted record of applied wallpapers: one path per output name,
//! last write wins.
//!
//! The record is held as a list of entries whose mathematical view is the
//! map that keeps, for every output name, the most recently written path.
//! The application serializes this view to disk and reads it back; the
//! functions here are the sole authority on what the record means.

use vstd::prelude::*;

verus! {

/// The map described by a list of `(output name, path)` entries, where a
/// later entry for the same name shadows an earlier one.
pub open spec fn map_of(entries: Seq<(String, String)>) -> Map<Seq<char>, Seq<char>>
    decreases entries.len(),
{
    if entries.len() == 0 {
        Map::empty()
    } else {
        map_of(entries.drop_last()).insert(entries.last().0@, entries.last().1@)
    }
}

proof fn lemma_map_of_contains(entries: Seq<(String, String)>, k: Seq<char>)
    ensures
        map_of(entries).dom().contains(k) <==> exists|i: int|
            0 <= i < entries.len() && entries[i].0@ == k,
    decreases entries.len(),
{
    if entries.len() > 0 {
        lemma_map_of_contains(entries.drop_last(), k);
        if entries.last().0@ == k {
            assert(entries[entries.len() - 1].0@ == k);
        } else {
            if exists|i: int| 0 <= i < entries.len() && entries[i].0@ == k {
                let i = choose|i: int| 0 <= i < entries.len() && entries[i].0@ == k;
                assert(entries.drop_last()[i] == entries[i]);
            }
            if exists|i: int| 0 <= i < entries.drop_last().len() && entries.drop_last()[i].0@
                == k {
                let i = choose|i: int|
                    0 <= i < entries.drop_last().len() && entries.drop_last()[i].0@ == k;
                assert(entries[i].0@ == k);
            }
        }
    }
}

proof fn lemma_map_of_value(entries: Seq<(String, String)>, k: Seq<char>, i: int)
    requires
        0 <= i < entries.len(),
        entries[i].0@ == k,
        forall|j: int| i < j < entries.len() ==> entries[j].0@ != k,
    ensures
        map_of(entries).dom().contains(k),
        map_of(entries)[k] == entries[i].1@,
    decreases entries.len(),
{
    if i == entries.len() - 1 {
    } else {
        assert(entries.last().0@ != k);
        assert(entries.drop_last()[i] == entries[i]);
        assert(forall|j: int|
            i < j < entries.drop_last().len() ==> entries.drop_last()[j] == entries[j]);
        lemma_map_of_value(entries.drop_last(), k, i);
    }
}

/// The persisted record: for every output name, the path of the wallpaper
/// last applied there.
#[derive(Debug, Clone)]
pub struct State {
    pub wallpapers: Vec<(String, String)>,
}

impl State {
    /// The record seen as a map from output name to path.
    pub open spec fn as_map(self) -> Map<Seq<char>, Seq<char>> {
        map_of(self.wallpapers@)
    }

    /// An empty record.
    pub fn new() -> (r: State)
        ensures
            r.as_map() == Map::<Seq<char>, Seq<char>>::empty(),
    {
        State { wallpapers: Vec::new() }
    }

    /// Records that `path` is now applied on the output called `name`,
    /// shadowing whatever the record held for that output.
    pub fn set(&mut self, name: String, path: String)
        ensures
            final(self).as_map() == old(self).as_map().insert(name@, path@),
    {
        let ghost pre = self.wallpapers@;
        let ghost n = name@;
        let ghost p = path@;
        self.wallpapers.push((name, path));
        proof {
            assert(self.wallpapers@.drop_last() =~= pre);
            assert(self.wallpapers@.last().0@ == n);
            assert(self.wallpapers@.last().1@ == p);
        }
    }

    /// Looks up the path recorded for the output called `name`.
    pub fn get(&self, name: &String) -> (r: Option<String>)
        ensures
            match r {
                Some(p) => self.as_map().dom().contains(name@) && self.as_map()[name@] == p@,
                None => !self.as_map().dom().contains(name@),
            },
    {
        let mut i: usize = self.wallpapers.len();
        loop
            invariant
                i <= self.wallpapers@.len(),
                forall|j: int|
                    i <= j < self.wallpapers@.len() ==> self.wallpapers@[j].0@ != name@,
            decreases i,
        {
            if i == 0 {
                proof {
                    lemma_map_of_contains(self.wallpapers@, name@);
                }
                return None;
            }
            i = i - 1;
            if self.wallpapers[i].0 == *name {
                proof {
                    lemma_map_of_value(self.wallpapers@, name@, i as int);
                }
                return Some(self.wallpapers[i].1.clone());
            }
        }
    }

    /// The number of entries the record holds, shadowed ones included.
    pub fn len(&self) -> (r: usize)
        ensures
            r == self.wallpapers@.len(),
    {
        self.wallpapers.len()
    }
}

} // verus!
