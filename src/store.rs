use vstd::prelude::*;

use crate::error::StoreError;
use crate::inmemory::InMemoryStore;
use crate::kubernetes::{storable, wire_value, DataPatch, KubernetesStore};
use crate::kvmap::{lookup, text_of};
use crate::sqlite::{
    delete_request, lookup_request, upsert_request, SqlRequest, DELETE_VALUE, SELECT_VALUE,
    UPSERT_VALUE,
};

verus! {

/// A key-value store over one of the three backends. The SQLite backend's
/// rows live in its database file, which the caller reaches through the
/// statements that this store hands out.
pub enum KeyValueStore {
    InMemory(InMemoryStore),
    Kubernetes(KubernetesStore),
    SQLite,
}

/// What a read gives.
pub enum Read {
    /// The value, found without a request.
    Value(Option<String>),
    /// The lookup to run on the SQLite database; `read_outcome` reads what it
    /// gives.
    Query(SqlRequest),
}

/// What a write leaves to the caller.
pub enum Pending {
    /// The write is over, with this outcome.
    Done(Result<(), StoreError>),
    /// The write needs this merge patch of the Kubernetes object's `data`;
    /// its outcome goes back through `KeyValueStore::complete_set`, or, for a
    /// delete, is the outcome of the delete.
    Patch(DataPatch),
    /// The write needs this statement on the SQLite database;
    /// `write_outcome` reads what it gives as the outcome of the write.
    Sql(SqlRequest),
}

impl KeyValueStore {
    pub open spec fn wf(&self) -> bool {
        match self {
            KeyValueStore::InMemory(s) => s.wf(),
            KeyValueStore::Kubernetes(s) => s.wf(),
            KeyValueStore::SQLite => true,
        }
    }

    /// The entries, where the store holds them in memory: the map of the
    /// in-memory backend, the cache of the Kubernetes backend.
    pub open spec fn cached(&self) -> Option<Map<Seq<char>, Seq<char>>> {
        match self {
            KeyValueStore::InMemory(s) => Some(s@),
            KeyValueStore::Kubernetes(s) => Some(s@),
            KeyValueStore::SQLite => None,
        }
    }

    /// Both stores are of the same backend, and, for Kubernetes, over the
    /// same object.
    pub open spec fn same_backend(&self, other: &KeyValueStore) -> bool {
        match (self, other) {
            (KeyValueStore::InMemory(_), KeyValueStore::InMemory(_)) => true,
            (KeyValueStore::Kubernetes(a), KeyValueStore::Kubernetes(b)) => {
                &&& a.kind() == b.kind()
                &&& a.namespace_view() == b.namespace_view()
                &&& a.name_view() == b.name_view()
            },
            (KeyValueStore::SQLite, KeyValueStore::SQLite) => true,
            _ => false,
        }
    }

    /// The value under `key`, or `None`; for SQLite, the lookup to run.
    pub fn get(&self, key: &str) -> (r: Read)
        requires
            self.wf(),
        ensures
            self.cached() is Some ==> r is Value && text_of(r->Value_0) == lookup(
                self.cached()->Some_0,
                key@,
            ),
            self.cached() is None ==> r is Query && r->Query_0.sql@ == SELECT_VALUE@
                && r->Query_0.args@.len() == 1 && r->Query_0.args@[0]@ == key@,
    {
        match self {
            KeyValueStore::InMemory(s) => Read::Value(s.get(key)),
            KeyValueStore::Kubernetes(s) => Read::Value(s.get(key)),
            KeyValueStore::SQLite => Read::Query(lookup_request(key)),
        }
    }

    /// Writes `value` under `key`. The in-memory backend finishes the write
    /// here; the Kubernetes backend hands back the patch to apply, the SQLite
    /// backend the upsert to run.
    pub fn set(&mut self, key: &str, value: &str) -> (r: Pending)
        requires
            old(self).wf(),
            storable(value@),
        ensures
            final(self).wf(),
            final(self).same_backend(old(self)),
            (*old(self)) is InMemory ==> r is Done && r->Done_0 is Ok && final(self).cached()
                == Some(old(self).cached()->Some_0.insert(key@, value@)),
            (*old(self)) is SQLite ==> r is Sql && r->Sql_0.sql@ == UPSERT_VALUE@
                && r->Sql_0.args@.len() == 2 && r->Sql_0.args@[0]@ == key@ && r->Sql_0.args@[1]@
                == value@,
            (*old(self)) is Kubernetes ==> r is Patch && final(self).cached() == old(self).cached()
                && r->Patch_0.written.wf() && r->Patch_0.removed is None
                && r->Patch_0.written@ == Map::<Seq<char>, Seq<char>>::empty().insert(
                key@,
                wire_value((*old(self))->Kubernetes_0.kind(), value@),
            ),
    {
        match self {
            KeyValueStore::InMemory(s) => Pending::Done(s.set(key, value)),
            KeyValueStore::Kubernetes(s) => Pending::Patch(s.set_patch(key, value)),
            KeyValueStore::SQLite => Pending::Sql(upsert_request(key, value)),
        }
    }

    /// Records the outcome of the patch that `set(key, value)` handed back and
    /// returns it. Only the Kubernetes backend has anything to record: on
    /// success its cache takes `value` under `key`.
    pub fn complete_set(&mut self, key: &str, value: &str, patched: Result<(), StoreError>) -> (r:
        Result<(), StoreError>)
        requires
            old(self).wf(),
            storable(value@),
        ensures
            final(self).wf(),
            final(self).same_backend(old(self)),
            r == patched,
            (*old(self)) is Kubernetes && patched is Ok ==> final(self).cached() == Some(
                old(self).cached()->Some_0.insert(key@, value@),
            ),
            !((*old(self)) is Kubernetes && patched is Ok) ==> final(self).cached()
                == old(self).cached(),
    {
        match self {
            KeyValueStore::Kubernetes(s) => s.set(key, value, patched),
            _ => patched,
        }
    }

    /// Removes `key`; an absent key is no error. The Kubernetes backend hands
    /// back the patch to apply when the key was cached, the SQLite backend the
    /// delete to run.
    pub fn delete(&mut self, key: &str) -> (r: Pending)
        requires
            old(self).wf(),
        ensures
            final(self).wf(),
            final(self).same_backend(old(self)),
            old(self).cached() is Some ==> final(self).cached() == Some(
                old(self).cached()->Some_0.remove(key@),
            ),
            (*old(self)) is InMemory ==> r is Done && r->Done_0 is Ok,
            (*old(self)) is SQLite ==> r is Sql && r->Sql_0.sql@ == DELETE_VALUE@
                && r->Sql_0.args@.len() == 1 && r->Sql_0.args@[0]@ == key@,
            (*old(self)) is Kubernetes ==> {
                &&& (r is Patch <==> old(self).cached()->Some_0.contains_key(key@))
                &&& r is Done ==> r->Done_0 is Ok
                &&& r is Patch ==> r->Patch_0.written.wf()
                &&& r is Patch ==> text_of(r->Patch_0.removed) == Some(key@)
                &&& r is Patch ==> r->Patch_0.written@ == final(self).cached()->Some_0.map_values(
                    |v: Seq<char>| wire_value((*old(self))->Kubernetes_0.kind(), v))
            },
    {
        match self {
            KeyValueStore::InMemory(s) => Pending::Done(s.delete(key)),
            KeyValueStore::Kubernetes(s) => match s.delete(key) {
                Some(patch) => Pending::Patch(patch),
                None => Pending::Done(Ok(())),
            },
            KeyValueStore::SQLite => Pending::Sql(delete_request(key)),
        }
    }
}

} // verus!
