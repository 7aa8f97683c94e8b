use vstd::prelude::*;

verus! {

#[verifier::external_type_specification]
#[verifier::external_body]
pub struct ExSqliteError(rusqlite::Error);

/// Why a write did not take effect.
#[derive(Debug)]
pub enum StoreError {
    /// The SQLite engine refused the statement or the database.
    Database(rusqlite::Error),
    /// The Kubernetes API refused the request; the text describes why.
    Remote(String),
}

} // verus!
