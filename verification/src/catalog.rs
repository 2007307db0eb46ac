//! The catalog: a read-only mapping from play identifier to play metadata.
//!
//! The catalog is stored as a list of entries searched front to back, and
//! insertion puts the new entry in front, so a later insertion for the
//! same identifier shadows an earlier one.

use vstd::prelude::*;

use crate::types::Play;

verus! {

/// One catalog entry: a play identifier and the play it names.
#[derive(Debug)]
pub struct CatalogEntry {
    pub id: String,
    pub play: Play,
}

/// Mapping from play identifier to play metadata, looked up by
/// [`Catalog::get`].  Owned by the caller and only ever read by the
/// statement computation.
#[derive(Debug)]
pub struct Catalog {
    pub entries: Vec<CatalogEntry>,
}

/// The play that a front-to-back search of `entries` finds for `id`.
pub open spec fn find_play(entries: Seq<CatalogEntry>, id: Seq<char>) -> Option<Play>
    decreases entries.len(),
{
    if entries.len() == 0 {
        None
    } else if entries[0].id@ == id {
        Some(entries[0].play)
    } else {
        find_play(entries.drop_first(), id)
    }
}

impl Catalog {
    /// What this catalog maps `id` to, if anything.
    pub open spec fn spec_lookup(&self, id: Seq<char>) -> Option<Play> {
        find_play(self.entries@, id)
    }

    /// An empty catalog: every lookup misses.
    pub fn new() -> (c: Catalog)
        ensures
            forall|id: Seq<char>| c.spec_lookup(id) is None,
    {
        Catalog { entries: Vec::new() }
    }

    /// Register `play` under `id`, shadowing any earlier entry for `id`
    /// and leaving every other identifier's mapping unchanged.
    pub fn insert(&mut self, id: String, play: Play)
        ensures
            final(self).spec_lookup(id@) == Some(play),
            forall|other: Seq<char>|
                other != id@ ==> final(self).spec_lookup(other) == old(self).spec_lookup(other),
    {
        let ghost old_entries = self.entries@;
        let ghost id_view = id@;
        self.entries.insert(0, CatalogEntry { id, play });
        proof {
            assert(self.entries@.drop_first() =~= old_entries);
            assert(self.entries@[0].id@ == id_view);
        }
    }

    /// Look `id` up, returning the play found by a front-to-back search.
    pub fn get(&self, id: &String) -> (r: Option<&Play>)
        ensures
            match r {
                Some(p) => self.spec_lookup(id@) == Some(*p),
                None => self.spec_lookup(id@) is None,
            },
    {
        let n = self.entries.len();
        let mut i: usize = 0;
        proof {
            assert(self.entries@.skip(0) =~= self.entries@);
        }
        while i < n
            invariant
                i <= n,
                n == self.entries@.len(),
                find_play(self.entries@, id@) == find_play(self.entries@.skip(i as int), id@),
            decreases n - i,
        {
            proof {
                assert(self.entries@.skip(i as int)[0] == self.entries@[i as int]);
            }
            if self.entries[i].id == *id {
                return Some(&self.entries[i].play);
            }
            proof {
                assert(self.entries@.skip(i as int).drop_first() =~= self.entries@.skip(i + 1));
            }
            i = i + 1;
        }
        proof {
            assert(self.entries@.skip(n as int).len() == 0);
        }
        None
    }
}

} // verus!
