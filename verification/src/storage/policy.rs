use vstd::prelude::*;
use crate::storage::error::StorageError;
use crate::text::{spec_str_contains, str_contains};

verus! {

/// Shape of a failed database call, as the driver reports it: either an error
/// raised by the database itself (carrying its message) or any other failure
/// (connection, protocol, and the like).
#[derive(Debug)]
pub enum DbError {
    Database { message: String },
    Other { message: String },
}

/// The database rejected an insert because a unique key already exists.
pub open spec fn is_unique_violation(message: Seq<char>) -> bool {
    spec_str_contains(message, "UNIQUE constraint failed"@)
}

/// The database rejected an insert because it references a missing row.
pub open spec fn is_foreign_key_violation(message: Seq<char>) -> bool {
    spec_str_contains(message, "FOREIGN KEY constraint failed"@)
}

/// Decides what a device-registration insert result means. Registration is
/// idempotent: a duplicate-key conflict on an existing id is success, so
/// re-registering a device is not an error. Every other failure is a query
/// error carrying the driver's message.
pub fn register_device_outcome(result: Result<(), DbError>) -> (r: Result<(), StorageError>)
    ensures
        result is Ok ==> r is Ok,
        result matches Err(DbError::Database { message }) ==> (r is Ok <==> is_unique_violation(
            message@,
        )),
        result matches Err(DbError::Database { message }) ==> (!is_unique_violation(message@)
            ==> (r matches Err(StorageError::QueryError(m)) && m@ == message@)),
        result matches Err(DbError::Other { message }) ==> (r matches Err(
            StorageError::QueryError(m),
        ) && m@ == message@),
{
    match result {
        Ok(()) => Ok(()),
        Err(DbError::Database { message }) => {
            if str_contains(message.as_str(), "UNIQUE constraint failed") {
                Ok(())
            } else {
                Err(StorageError::QueryError(message))
            }
        },
        Err(DbError::Other { message }) => Err(StorageError::QueryError(message)),
    }
}

/// Decides what a submission insert result means. A referential violation —
/// the device is not yet registered — is deliberately tolerated, favouring
/// at-least-once ingestion over referential integrity; every other failure is
/// a query error carrying the driver's message.
pub fn store_encrypted_data_outcome(result: Result<(), DbError>) -> (r: Result<(), StorageError>)
    ensures
        result is Ok ==> r is Ok,
        result matches Err(DbError::Database { message }) ==> (r is Ok
            <==> is_foreign_key_violation(message@)),
        result matches Err(DbError::Database { message }) ==> (!is_foreign_key_violation(
            message@,
        ) ==> (r matches Err(StorageError::QueryError(m)) && m@ == message@)),
        result matches Err(DbError::Other { message }) ==> (r matches Err(
            StorageError::QueryError(m),
        ) && m@ == message@),
{
    match result {
        Ok(()) => Ok(()),
        Err(DbError::Database { message }) => {
            if str_contains(message.as_str(), "FOREIGN KEY constraint failed") {
                Ok(())
            } else {
                Err(StorageError::QueryError(message))
            }
        },
        Err(DbError::Other { message }) => Err(StorageError::QueryError(message)),
    }
}

} // verus!
