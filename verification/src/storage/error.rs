use vstd::prelude::*;
use vstd::string::StringExecFns;

verus! {

/// Failures of the durable store.
#[derive(Debug)]
pub enum StorageError {
    QueryError(String),
    MigrationFailed(String),
    NotFound,
}

/// The text that `StorageError::describe` returns for each variant.
pub open spec fn storage_error_text(e: StorageError) -> Seq<char> {
    match e {
        StorageError::QueryError(m) => "Database query failed: "@ + m@,
        StorageError::MigrationFailed(m) => "Database migration failed: "@ + m@,
        StorageError::NotFound => "Record not found"@,
    }
}

impl StorageError {
    /// Human-readable description of the failure.
    pub fn describe(&self) -> (r: String)
        ensures
            r@ == storage_error_text(*self),
    {
        match self {
            StorageError::QueryError(m) => "Database query failed: ".to_owned().concat(m.as_str()),
            StorageError::MigrationFailed(m) => "Database migration failed: ".to_owned().concat(
                m.as_str(),
            ),
            StorageError::NotFound => "Record not found".to_owned(),
        }
    }
}

} // verus!
