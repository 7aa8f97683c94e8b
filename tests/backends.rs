use rusqlite::Connection;
use simple_kv_store::{
    delete_request, key_args, lookup_request, next_setup_step, read_outcome, upsert_args,
    upsert_request, write_outcome, FetchedData, InMemoryStore, KeyValueStore, KubernetesResource,
    KubernetesStore, KvMap, Pending, Read, SetupStep, SqlRequest, StoreError, CREATE_TABLE,
    DELETE_VALUE, SELECT_VALUE, UPSERT_VALUE,
};

fn open_db() -> Connection {
    let c = Connection::open(":memory:").unwrap();
    c.execute(CREATE_TABLE, []).unwrap();
    c
}

fn query(db: &Connection, req: &SqlRequest) -> Option<String> {
    read_outcome(db.query_row(req.sql, rusqlite::params_from_iter(req.args.iter()), |r| r.get(0)))
}

fn run(db: &Connection, req: &SqlRequest) -> Result<(), StoreError> {
    write_outcome(db.execute(req.sql, rusqlite::params_from_iter(req.args.iter())))
}

fn sorted(m: &KvMap) -> Vec<(String, String)> {
    let mut v = m.entries();
    v.sort();
    v
}

fn pair(k: &str, v: &str) -> (String, String) {
    (k.to_string(), v.to_string())
}

#[test]
fn in_memory_set_then_get() {
    let mut s = InMemoryStore::new();
    assert!(s.set("k", "v").is_ok());
    assert_eq!(s.get("k"), Some("v".to_string()));
    assert_eq!(s.get("other"), None);
}

#[test]
fn in_memory_default_is_empty() {
    let s = InMemoryStore::default();
    assert_eq!(s.get("k"), None);
}

#[test]
fn in_memory_delete_then_get() {
    let mut s = InMemoryStore::new();
    s.set("k", "v").unwrap();
    assert!(s.delete("k").is_ok());
    assert_eq!(s.get("k"), None);
    assert!(s.delete("never").is_ok());
    assert_eq!(s.get("never"), None);
}

#[test]
fn in_memory_delete_twice() {
    let mut s = InMemoryStore::new();
    s.set("k", "v").unwrap();
    assert!(s.delete("k").is_ok());
    assert!(s.delete("k").is_ok());
}

#[test]
fn in_memory_last_write_wins() {
    let mut s = InMemoryStore::new();
    s.set("k", "a").unwrap();
    s.set("k", "b").unwrap();
    assert_eq!(s.get("k"), Some("b".to_string()));
}

#[test]
fn kubernetes_loads_config_map_verbatim() {
    let data = FetchedData::Text(vec![pair("a", "1"), pair("b", "two")]);
    let s = KubernetesStore::new("ns", "cm", KubernetesResource::ConfigMap, data);
    assert_eq!(s.get("a"), Some("1".to_string()));
    assert_eq!(s.get("b"), Some("two".to_string()));
    assert_eq!(s.get("c"), None);
    assert_eq!(s.namespace(), "ns");
    assert_eq!(s.name(), "cm");
    assert_eq!(s.resource_type(), KubernetesResource::ConfigMap);
}

#[test]
fn kubernetes_secret_load_drops_invalid_utf8() {
    let data = FetchedData::Bytes(vec![
        ("good".to_string(), b"hello".to_vec()),
        ("bad".to_string(), vec![0xff, 0xfe, 0x41]),
    ]);
    let s = KubernetesStore::new("ns", "sec", KubernetesResource::Secret, data);
    assert_eq!(s.get("good"), Some("hello".to_string()));
    assert_eq!(s.get("bad"), None);
}

#[test]
fn kubernetes_config_map_patch_is_plain() {
    let s = KubernetesStore::new("ns", "cm", KubernetesResource::ConfigMap, FetchedData::Text(vec![]));
    let p = s.set_patch("k", "hello");
    assert_eq!(sorted(&p.written), vec![pair("k", "hello")]);
    assert_eq!(p.removed, None);
    assert_eq!(s.get("k"), None);
}

#[test]
fn kubernetes_secret_patch_is_base64() {
    let s = KubernetesStore::new("ns", "sec", KubernetesResource::Secret, FetchedData::Bytes(vec![]));
    let p = s.set_patch("k", "hello");
    assert_eq!(sorted(&p.written), vec![pair("k", "aGVsbG8=")]);
}

#[test]
fn kubernetes_set_is_served_from_cache() {
    let mut s = KubernetesStore::new("ns", "sec", KubernetesResource::Secret, FetchedData::Bytes(vec![]));
    let _patch = s.set_patch("k", "plain text");
    assert!(s.set("k", "plain text", Ok(())).is_ok());
    assert_eq!(s.get("k"), Some("plain text".to_string()));
}

#[test]
fn kubernetes_failed_patch_leaves_cache() {
    let mut s = KubernetesStore::new("ns", "cm", KubernetesResource::ConfigMap, FetchedData::Text(vec![pair("k", "old")]));
    let r = s.set("k", "new", Err(StoreError::Remote("forbidden".to_string())));
    assert!(matches!(r, Err(StoreError::Remote(_))));
    assert_eq!(s.get("k"), Some("old".to_string()));
}

#[test]
fn kubernetes_delete_patches_whole_data() {
    let data = FetchedData::Bytes(vec![
        ("a".to_string(), b"1".to_vec()),
        ("b".to_string(), b"hello".to_vec()),
    ]);
    let mut s = KubernetesStore::new("ns", "sec", KubernetesResource::Secret, data);
    let p = s.delete("a").expect("a was cached");
    assert_eq!(sorted(&p.written), vec![pair("b", "aGVsbG8=")]);
    assert_eq!(p.removed, Some("a".to_string()));
    assert_eq!(s.get("a"), None);
    assert!(s.delete("a").is_none());
    assert!(s.delete("never").is_none());
}

fn run_set(store: &mut KeyValueStore, db: Option<&Connection>, key: &str, value: &str) -> Result<(), StoreError> {
    match store.set(key, value) {
        Pending::Done(r) => r,
        Pending::Patch(_) => store.complete_set(key, value, Ok(())),
        Pending::Sql(req) => run(db.unwrap(), &req),
    }
}

fn run_delete(store: &mut KeyValueStore, db: Option<&Connection>, key: &str) -> Result<(), StoreError> {
    match store.delete(key) {
        Pending::Done(r) => r,
        Pending::Patch(_) => Ok(()),
        Pending::Sql(req) => run(db.unwrap(), &req),
    }
}

fn run_get(store: &KeyValueStore, db: Option<&Connection>, key: &str) -> Option<String> {
    match store.get(key) {
        Read::Value(v) => v,
        Read::Query(req) => query(db.unwrap(), &req),
    }
}

fn parity_sequence(mut store: KeyValueStore, db: Option<&Connection>) -> (Option<String>, Option<String>) {
    run_set(&mut store, db, "a", "A").unwrap();
    run_set(&mut store, db, "b", "B").unwrap();
    run_delete(&mut store, db, "a").unwrap();
    (run_get(&store, db, "a"), run_get(&store, db, "b"))
}

#[test]
fn backends_agree_on_one_sequence() {
    let expected = (None, Some("B".to_string()));
    assert_eq!(parity_sequence(KeyValueStore::InMemory(InMemoryStore::new()), None), expected);
    let db = open_db();
    assert_eq!(parity_sequence(KeyValueStore::SQLite, Some(&db)), expected);
    for kind in [KubernetesResource::ConfigMap, KubernetesResource::Secret] {
        let data = match kind {
            KubernetesResource::ConfigMap => FetchedData::Text(vec![]),
            KubernetesResource::Secret => FetchedData::Bytes(vec![]),
        };
        let k = KubernetesStore::new("ns", "obj", kind, data);
        assert_eq!(parity_sequence(KeyValueStore::Kubernetes(k), None), expected);
    }
}

#[test]
fn unified_store_delete_twice_is_ok() {
    let mut s = KeyValueStore::InMemory(InMemoryStore::new());
    run_set(&mut s, None, "k", "v").unwrap();
    assert!(run_delete(&mut s, None, "k").is_ok());
    assert!(run_delete(&mut s, None, "k").is_ok());
    let k = KubernetesStore::new("ns", "obj", KubernetesResource::ConfigMap, FetchedData::Text(vec![]));
    let mut s = KeyValueStore::Kubernetes(k);
    assert!(matches!(s.delete("k"), Pending::Done(Ok(()))));
}

#[test]
fn kubernetes_secret_round_trips_non_ascii_text() {
    let mut s = KubernetesStore::new("ns", "sec", KubernetesResource::Secret, FetchedData::Bytes(vec![]));
    let p = s.set_patch("k", "é");
    assert_eq!(sorted(&p.written), vec![pair("k", "w6k=")]);
    assert!(s.set("k", "é", Ok(())).is_ok());
    assert_eq!(s.get("k"), Some("é".to_string()));
}

#[test]
fn sqlite_parameter_lists() {
    assert_eq!(key_args("k1"), vec!["k1".to_string()]);
    assert_eq!(upsert_args("k1", "v1"), vec!["k1".to_string(), "v1".to_string()]);
}

#[test]
fn sqlite_read_outcome_collapses_failure_to_none() {
    assert_eq!(read_outcome(Ok("text".to_string())), Some("text".to_string()));
    assert_eq!(read_outcome(Err(rusqlite::Error::QueryReturnedNoRows)), None);
    assert_eq!(read_outcome(Err(rusqlite::Error::InvalidQuery)), None);
}

#[test]
fn sqlite_write_outcome_propagates_errors() {
    assert!(write_outcome(Ok(0)).is_ok());
    assert!(write_outcome(Ok(1)).is_ok());
    assert!(matches!(
        write_outcome(Err(rusqlite::Error::InvalidQuery)),
        Err(StoreError::Database(rusqlite::Error::InvalidQuery))
    ));
}

#[test]
fn setup_creates_missing_object() {
    assert_eq!(next_setup_step(SetupStep::FetchExisting, true), SetupStep::FetchData);
    assert_eq!(next_setup_step(SetupStep::FetchExisting, false), SetupStep::CreateEmpty);
    assert_eq!(next_setup_step(SetupStep::CreateEmpty, true), SetupStep::FetchData);
    assert_eq!(next_setup_step(SetupStep::FetchData, true), SetupStep::Ready);
}

#[test]
fn setup_failures_are_fatal() {
    assert_eq!(next_setup_step(SetupStep::CreateEmpty, false), SetupStep::Failed);
    assert_eq!(next_setup_step(SetupStep::FetchData, false), SetupStep::Failed);
    assert_eq!(next_setup_step(SetupStep::Failed, true), SetupStep::Failed);
    assert_eq!(next_setup_step(SetupStep::Ready, false), SetupStep::Ready);
}

#[test]
fn sqlite_set_get_delete() {
    let db = open_db();
    assert_eq!(query(&db, &lookup_request("k")), None);
    run(&db, &upsert_request("k", "v")).unwrap();
    assert_eq!(query(&db, &lookup_request("k")), Some("v".to_string()));
    run(&db, &upsert_request("k", "w")).unwrap();
    assert_eq!(query(&db, &lookup_request("k")), Some("w".to_string()));
    assert!(run(&db, &delete_request("k")).is_ok());
    assert_eq!(query(&db, &lookup_request("k")), None);
    assert!(run(&db, &delete_request("k")).is_ok());
}

#[test]
fn sqlite_requests_name_statement_and_parameters() {
    let r = lookup_request("k1");
    assert_eq!(r.sql, SELECT_VALUE);
    assert_eq!(r.args, vec!["k1".to_string()]);
    let r = upsert_request("k1", "v1");
    assert_eq!(r.sql, UPSERT_VALUE);
    assert_eq!(r.args, vec!["k1".to_string(), "v1".to_string()]);
    let r = delete_request("k1");
    assert_eq!(r.sql, DELETE_VALUE);
    assert_eq!(r.args, vec!["k1".to_string()]);
}

#[test]
fn sqlite_engine_error_comes_back() {
    let db = Connection::open(":memory:").unwrap();
    let r = run(&db, &upsert_request("k", "v"));
    assert!(matches!(r, Err(StoreError::Database(_))));
    assert_eq!(query(&db, &lookup_request("k")), None);
}

#[test]
fn unified_store_overwrite() {
    let db = open_db();
    let mut s = KeyValueStore::SQLite;
    run_set(&mut s, Some(&db), "k", "a").unwrap();
    run_set(&mut s, Some(&db), "k", "b").unwrap();
    assert_eq!(run_get(&s, Some(&db), "k"), Some("b".to_string()));
    assert!(run_delete(&mut s, Some(&db), "k").is_ok());
    assert!(run_delete(&mut s, Some(&db), "k").is_ok());
}
