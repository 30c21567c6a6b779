//! A small string-keyed association list, standing in for the ordered
//! string maps carried in machine metadata and configuration.

use vstd::prelude::*;

verus! {

/// First-match lookup of `key` among `entries`.
pub open spec fn spec_lookup(entries: Seq<(String, String)>, key: Seq<char>) -> Option<Seq<char>>
    decreases entries.len(),
{
    if entries.len() == 0 {
        None
    } else if entries[0].0@ == key {
        Some(entries[0].1@)
    } else {
        spec_lookup(entries.subrange(1, entries.len() as int), key)
    }
}

/// String-keyed map held as a list of pairs; lookups take the first
/// match, so a well-formed value (distinct keys) behaves as a map.
#[derive(Debug, Clone, Hash)]
pub struct StringMap {
    pub entries: Vec<(String, String)>,
}

impl StringMap {
    /// What `key` maps to, if anything.
    pub open spec fn spec_get(&self, key: Seq<char>) -> Option<Seq<char>> {
        spec_lookup(self.entries@, key)
    }

    pub fn new() -> (r: StringMap)
        ensures
            r.entries@ =~= Seq::<(String, String)>::empty(),
    {
        StringMap { entries: Vec::new() }
    }

    /// Appends a pair; a key already present keeps its earlier binding.
    pub fn push(&mut self, key: String, value: String)
        ensures
            final(self).entries@ == old(self).entries@.push((key, value)),
    {
        self.entries.push((key, value));
    }

    /// Looks `key` up, returning the first binding.
    pub fn get(&self, key: &str) -> (r: Option<&String>)
        ensures
            match r {
                Some(v) => self.spec_get(key@) == Some(v@),
                None => self.spec_get(key@) is None,
            },
    {
        let n = self.entries.len();
        let mut i: usize = 0;
        assert(self.entries@.subrange(0, n as int) =~= self.entries@);
        while i < n
            invariant
                n == self.entries@.len(),
                i <= n,
                spec_lookup(self.entries@, key@) == spec_lookup(
                    self.entries@.subrange(i as int, n as int),
                    key@,
                ),
            decreases n - i,
        {
            let ghost pre = self.entries@.subrange(i as int, n as int);
            if crate::strutil::str_eq(self.entries[i].0.as_str(), key) {
                assert(spec_lookup(pre, key@) == Some(self.entries@[i as int].1@));
                return Some(&self.entries[i].1);
            }
            proof {
                assert(pre[0] == self.entries@[i as int]);
                assert(pre.subrange(1, pre.len() as int) =~= self.entries@.subrange(
                    i + 1,
                    n as int,
                ));
            }
            i += 1;
        }
        assert(self.entries@.subrange(i as int, n as int) =~= Seq::<(String, String)>::empty());
        None
    }
}

} // verus!
