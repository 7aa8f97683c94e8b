use vstd::prelude::*;

use crate::error::StoreError;

verus! {

/// Creates the single table that holds the entries.
pub const CREATE_TABLE: &'static str = "CREATE TABLE IF NOT EXISTS kv_store (key TEXT PRIMARY KEY, value TEXT)";

/// Point lookup of the value under one key.
pub const SELECT_VALUE: &'static str = "SELECT value FROM kv_store WHERE key = ?";

/// Insert, or overwrite the value on a conflicting key, in one statement.
pub const UPSERT_VALUE: &'static str = "INSERT INTO kv_store (key, value) VALUES (?, ?) ON CONFLICT(key) DO UPDATE SET value = excluded.value";

/// Removes the row of one key, if there is one.
pub const DELETE_VALUE: &'static str = "DELETE FROM kv_store WHERE key = ?";

/// One statement for the SQLite engine: its text and, in order, the texts
/// bound to its parameters. The caller runs it on the connection and hands
/// the engine's outcome to `read_outcome` or `write_outcome`.
pub struct SqlRequest {
    pub sql: &'static str,
    pub args: Vec<String>,
}

/// The point lookup of `key`.
pub fn lookup_request(key: &str) -> (r: SqlRequest)
    ensures
        r.sql@ == SELECT_VALUE@,
        r.args@.len() == 1,
        r.args@[0]@ == key@,
{
    SqlRequest { sql: SELECT_VALUE, args: key_args(key) }
}

/// The upsert that stores `value` under `key` in one statement.
pub fn upsert_request(key: &str, value: &str) -> (r: SqlRequest)
    ensures
        r.sql@ == UPSERT_VALUE@,
        r.args@.len() == 2,
        r.args@[0]@ == key@,
        r.args@[1]@ == value@,
{
    SqlRequest { sql: UPSERT_VALUE, args: upsert_args(key, value) }
}

/// The delete of the row of `key`; it affects no row when `key` is absent.
pub fn delete_request(key: &str) -> (r: SqlRequest)
    ensures
        r.sql@ == DELETE_VALUE@,
        r.args@.len() == 1,
        r.args@[0]@ == key@,
{
    SqlRequest { sql: DELETE_VALUE, args: key_args(key) }
}

/// The parameters of the lookup and the delete: the key alone.
pub fn key_args(key: &str) -> (r: Vec<String>)
    ensures
        r@.len() == 1,
        r@[0]@ == key@,
{
    vec![String::from_str(key)]
}

/// The parameters of the upsert: the key, then the value.
pub fn upsert_args(key: &str, value: &str) -> (r: Vec<String>)
    ensures
        r@.len() == 2,
        r@[0]@ == key@,
        r@[1]@ == value@,
{
    vec![String::from_str(key), String::from_str(value)]
}

/// How the outcome of a lookup reads: the text of the row, or `None` when the
/// engine found no row or failed.
pub fn read_outcome(res: Result<String, rusqlite::Error>) -> (r: Option<String>)
    ensures
        r is Some <==> res is Ok,
        res is Ok ==> r == Some(res->Ok_0),
{
    match res {
        Ok(v) => Some(v),
        Err(_) => None,
    }
}

/// How the outcome of a write reads: success whatever the row count, and the
/// engine's error as `StoreError::Database`.
pub fn write_outcome(res: Result<usize, rusqlite::Error>) -> (r: Result<(), StoreError>)
    ensures
        r is Ok <==> res is Ok,
        r is Err ==> r->Err_0 is Database,
{
    match res {
        Ok(_) => Ok(()),
        Err(e) => Err(StoreError::Database(e)),
    }
}

} // verus!
