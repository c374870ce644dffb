//! The in-memory table from hash to string.

use std::collections::HashMap;
use vstd::prelude::*;

verus! {

/// One table of the service: a finite map from a 64-bit hash to the string
/// stored under it.
pub struct TableStore {
    entries: HashMap<u64, String>,
}

impl View for TableStore {
    type V = Map<u64, Seq<char>>;

    closed spec fn view(&self) -> Map<u64, Seq<char>> {
        self.entries@.map_values(|s: String| s@)
    }
}

/// Calls `HashMap::shrink_to_fit`. Trusted: shrinking the backing storage
/// keeps every entry.
#[verifier::external_body]
fn shrink_storage(entries: &mut HashMap<u64, String>)
    ensures
        final(entries)@ == old(entries)@,
{
    entries.shrink_to_fit();
}

impl TableStore {
    /// An empty table.
    pub fn new() -> (t: TableStore)
        ensures
            t@ == Map::<u64, Seq<char>>::empty(),
    {
        let t = TableStore { entries: HashMap::new() };
        assert(t@ =~= Map::<u64, Seq<char>>::empty());
        t
    }

    /// The number of entries. A table is always finite.
    pub fn len(&self) -> (n: usize)
        ensures
            self@.dom().finite(),
            n == self@.len(),
    {
        broadcast use vstd::std_specs::hash::group_hash_axioms;
        assert(self@.dom() =~= self.entries@.dom());
        self.entries.len()
    }

    /// Stores `value` under `hash`, replacing what was stored there before.
    pub fn insert(&mut self, hash: u64, value: String)
        ensures
            final(self)@ == old(self)@.insert(hash, value@),
    {
        broadcast use vstd::std_specs::hash::group_hash_axioms;
        self.entries.insert(hash, value);
        assert(self@ =~= old(self)@.insert(hash, value@));
    }

    /// Looks `hash` up and returns a copy of the string stored under it.
    pub fn get(&self, hash: u64) -> (r: Option<String>)
        ensures
            match r {
                Some(v) => self@.contains_key(hash) && v@ == self@[hash],
                None => !self@.contains_key(hash),
            },
    {
        broadcast use vstd::std_specs::hash::group_hash_axioms;
        match self.entries.get(&hash) {
            Some(v) => Some(v.clone()),
            None => None,
        }
    }

    /// Removes every entry and releases the backing storage.
    pub fn clear(&mut self)
        ensures
            final(self)@ == Map::<u64, Seq<char>>::empty(),
    {
        self.entries.clear();
        shrink_storage(&mut self.entries);
        assert(self@ =~= Map::<u64, Seq<char>>::empty());
    }
}

} // verus!
