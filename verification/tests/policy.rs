use lcore_node::storage::error::StorageError;
use lcore_node::storage::policy::{register_device_outcome, store_encrypted_data_outcome, DbError};
use lcore_node::text::str_contains;

#[test]
fn register_success_stays_success() {
    assert!(register_device_outcome(Ok(())).is_ok());
}

#[test]
fn register_duplicate_key_is_downgraded_to_success() {
    let res = register_device_outcome(Err(DbError::Database {
        message: "UNIQUE constraint failed: devices.id".to_string(),
    }));
    assert!(res.is_ok());
}

#[test]
fn register_other_database_error_fails() {
    let res = register_device_outcome(Err(DbError::Database {
        message: "database is locked".to_string(),
    }));
    match res {
        Err(StorageError::QueryError(m)) => assert_eq!(m, "database is locked"),
        other => panic!("expected a query error, got {:?}", other),
    }
}

#[test]
fn register_connection_error_fails() {
    let res = register_device_outcome(Err(DbError::Other {
        message: "connection reset".to_string(),
    }));
    assert!(matches!(res, Err(StorageError::QueryError(_))));
}

#[test]
fn store_foreign_key_violation_is_downgraded_to_success() {
    let res = store_encrypted_data_outcome(Err(DbError::Database {
        message: "FOREIGN KEY constraint failed".to_string(),
    }));
    assert!(res.is_ok());
}

#[test]
fn store_unique_violation_is_not_downgraded() {
    let res = store_encrypted_data_outcome(Err(DbError::Database {
        message: "UNIQUE constraint failed: data_submissions.id".to_string(),
    }));
    assert!(matches!(res, Err(StorageError::QueryError(_))));
}

#[test]
fn store_other_error_fails() {
    let res = store_encrypted_data_outcome(Err(DbError::Other {
        message: "disk full".to_string(),
    }));
    assert!(matches!(res, Err(StorageError::QueryError(_))));
}

/// A toy durable store with the devices table's unique-key behaviour: the
/// driver reports a duplicate insert the way sqlite words it.
struct FakeDeviceTable {
    rows: Vec<(String, String)>,
}

impl FakeDeviceTable {
    fn insert(&mut self, id: &str, public_key: &str) -> Result<(), DbError> {
        if self.rows.iter().any(|(existing, _)| existing == id) {
            return Err(DbError::Database {
                message: "UNIQUE constraint failed: devices.id".to_string(),
            });
        }
        self.rows.push((id.to_string(), public_key.to_string()));
        Ok(())
    }
}

#[test]
fn registration_is_idempotent() {
    let mut table = FakeDeviceTable { rows: Vec::new() };

    let first = register_device_outcome(table.insert("dev-1", "pk"));
    let second = register_device_outcome(table.insert("dev-1", "pk"));

    assert!(first.is_ok());
    assert!(second.is_ok());
    assert_eq!(table.rows.len(), 1);
}

#[test]
fn str_contains_finds_needles() {
    assert!(str_contains("UNIQUE constraint failed: devices.id", "UNIQUE constraint failed"));
    assert!(str_contains("abc", ""));
    assert!(str_contains("", ""));
    assert!(str_contains("aaab", "aab"));
}

#[test]
fn str_contains_rejects_absent_needles() {
    assert!(!str_contains("", "a"));
    assert!(!str_contains("abc", "abcd"));
    assert!(!str_contains("FOREIGN KEY constraint failed", "UNIQUE constraint failed"));
    assert!(!str_contains("aab", "aba"));
}

#[test]
fn storage_error_describe_texts() {
    assert_eq!(
        StorageError::QueryError("boom".to_string()).describe(),
        "Database query failed: boom"
    );
    assert_eq!(
        StorageError::MigrationFailed("boom".to_string()).describe(),
        "Database migration failed: boom"
    );
    assert_eq!(StorageError::NotFound.describe(), "Record not found");
}
