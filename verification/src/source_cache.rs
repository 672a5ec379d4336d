//! The read-only source cache capability: a table from identity key to the
//! text the surrounding system already holds for that input. The resolver
//! queries it, never mutates it; the owner of the cache populates it before
//! emission (in particular for the virtual standard-input stream, which has
//! no filesystem fallback).
use vstd::prelude::*;

verus! {

/// The text that scanning `entries` front to back yields for `key`: the
/// first matching entry decides, a miss is `None`.
pub open spec fn cache_entry_for(entries: Seq<(String, String)>, key: Seq<char>) -> Option<
    Seq<char>,
>
    decreases entries.len(),
{
    if entries.len() == 0 {
        None
    } else if entries[0].0@ == key {
        Some(entries[0].1@)
    } else {
        cache_entry_for(entries.drop_first(), key)
    }
}

/// An in-memory source cache: text held for each identity key. A lookup
/// returns a copy of the held text and touches nothing.
pub struct SourceCache {
    entries: Vec<(String, String)>,
}

impl SourceCache {
    /// The text this cache holds for `key`, if any.
    pub closed spec fn spec_lookup(&self, key: Seq<char>) -> Option<Seq<char>> {
        cache_entry_for(self.entries@, key)
    }

    /// An empty cache: every lookup misses.
    pub fn new() -> (cache: SourceCache)
        ensures
            forall|k: Seq<char>| cache.spec_lookup(k) == Option::<Seq<char>>::None,
    {
        SourceCache { entries: Vec::new() }
    }

    /// Make the cache hold `text` for `key`, leaving every other key
    /// unchanged.
    pub fn insert(&mut self, key: String, text: String)
        ensures
            forall|k: Seq<char>|
                final(self).spec_lookup(k) == (if k == key@ {
                    Some(text@)
                } else {
                    old(self).spec_lookup(k)
                }),
    {
        let ghost old_entries = self.entries@;
        self.entries.insert(0, (key, text));
        proof {
            assert(self.entries@.drop_first() =~= old_entries);
        }
    }

    /// Look up the text held for `key`, returning a copy of it on a hit.
    #[verifier::loop_isolation(false)]
    pub fn lookup(&self, key: &String) -> (r: Option<String>)
        ensures
            match r {
                Some(text) => self.spec_lookup(key@) == Some(text@),
                None => self.spec_lookup(key@) == Option::<Seq<char>>::None,
            },
    {
        proof {
            assert(self.entries@.skip(0) =~= self.entries@);
        }
        let mut i: usize = 0;
        while i < self.entries.len()
            invariant
                0 <= i <= self.entries.len(),
                cache_entry_for(self.entries@, key@) == cache_entry_for(
                    self.entries@.skip(i as int),
                    key@,
                ),
            decreases self.entries.len() - i,
        {
            proof {
                assert(self.entries@.skip(i as int).drop_first() =~= self.entries@.skip(
                    i as int + 1,
                ));
                assert(self.entries@.skip(i as int)[0] == self.entries@[i as int]);
            }
            if self.entries[i].0 == *key {
                return Some(self.entries[i].1.clone());
            }
            i = i + 1;
        }
        proof {
            assert(self.entries@.skip(i as int) =~= Seq::<(String, String)>::empty());
        }
        None
    }
}

} // verus!
