use vstd::prelude::*;

use crate::error::StoreError;
use crate::kvmap::{lookup, text_of, KvMap};

verus! {

/// A store that keeps its entries in process memory.
pub struct InMemoryStore {
    map: KvMap,
}

impl View for InMemoryStore {
    type V = Map<Seq<char>, Seq<char>>;

    closed spec fn view(&self) -> Map<Seq<char>, Seq<char>> {
        self.map@
    }
}

impl InMemoryStore {
    pub closed spec fn wf(&self) -> bool {
        self.map.wf()
    }

    /// An empty store.
    pub fn new() -> (r: InMemoryStore)
        ensures
            r.wf(),
            r@ == Map::<Seq<char>, Seq<char>>::empty(),
    {
        InMemoryStore { map: KvMap::new() }
    }

    /// The value stored under `key`, or `None` when there is none.
    pub fn get(&self, key: &str) -> (r: Option<String>)
        requires
            self.wf(),
        ensures
            text_of(r) == lookup(self@, key@),
    {
        self.map.get(key)
    }

    /// Stores `value` under `key`, replacing any earlier value. Never fails.
    pub fn set(&mut self, key: &str, value: &str) -> (r: Result<(), StoreError>)
        requires
            old(self).wf(),
        ensures
            final(self).wf(),
            final(self)@ == old(self)@.insert(key@, value@),
            r is Ok,
    {
        self.map.insert(key, value);
        Ok(())
    }

    /// Removes `key`; removing an absent key is no error. Never fails.
    pub fn delete(&mut self, key: &str) -> (r: Result<(), StoreError>)
        requires
            old(self).wf(),
        ensures
            final(self).wf(),
            final(self)@ == old(self)@.remove(key@),
            r is Ok,
    {
        self.map.remove(key);
        Ok(())
    }
}

impl Default for InMemoryStore {
    fn default() -> (r: InMemoryStore)
        ensures
            r.wf(),
            r@ == Map::<Seq<char>, Seq<char>>::empty(),
    {
        InMemoryStore::new()
    }
}

} // verus!
