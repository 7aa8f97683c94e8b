//! A key-value store over interchangeable backends: an in-process map, an
//! embedded SQLite table, and a Kubernetes ConfigMap or Secret mirrored into a
//! local cache. Every backend offers the same `get`, `set` and `delete`.

mod error;
mod inmemory;
mod keys;
mod kubernetes;
mod kvmap;
mod laws;
mod sqlite;
mod store;

pub use error::StoreError;
pub use inmemory::InMemoryStore;
pub use keys::{is_key_char, lemma_normalize_idempotent, normalize_char, normalize_key, normalized};
pub use kubernetes::{
    base64_digit, base64_of, fetched_storable, loaded, loaded_bytes, loaded_text, next_setup_step, storable,
    wire_value, SetupStep,
    DataPatch, FetchedData, KubernetesResource, KubernetesStore, FIELD_MANAGER,
};
pub use kvmap::{lists, lookup, text_of, KvMap};
pub use laws::{
    law_delete_twice, law_get_after_delete, law_get_after_set, law_last_write_wins,
    law_set_set_delete,
};
pub use sqlite::{
    delete_request, key_args, lookup_request, read_outcome, upsert_args, upsert_request,
    write_outcome, SqlRequest, CREATE_TABLE, DELETE_VALUE, SELECT_VALUE, UPSERT_VALUE,
};
pub use store::{KeyValueStore, Pending, Read};
