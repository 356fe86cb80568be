use vstd::prelude::*;
use vstd::string::StringExecFns;
use crate::storage::error::{storage_error_text, StorageError};

verus! {

/// Failures of device management.
#[derive(Debug)]
pub enum DeviceError {
    AlreadyExists(String),
    NotFound,
    InvalidPublicKey,
    Storage(StorageError),
}

/// The text that `DeviceError::describe` returns for each variant.
pub open spec fn device_error_text(e: DeviceError) -> Seq<char> {
    match e {
        DeviceError::AlreadyExists(id) => "Device with ID "@ + id@ + " already registered"@,
        DeviceError::NotFound => "Device not found"@,
        DeviceError::InvalidPublicKey => "Invalid public key"@,
        DeviceError::Storage(inner) => "Storage error: "@ + storage_error_text(inner),
    }
}

impl DeviceError {
    /// Human-readable description of the failure.
    pub fn describe(&self) -> (r: String)
        ensures
            r@ == device_error_text(*self),
    {
        match self {
            DeviceError::AlreadyExists(id) => "Device with ID ".to_owned().concat(id.as_str())
                .concat(" already registered"),
            DeviceError::NotFound => "Device not found".to_owned(),
            DeviceError::InvalidPublicKey => "Invalid public key".to_owned(),
            DeviceError::Storage(inner) => {
                let detail = inner.describe();
                "Storage error: ".to_owned().concat(detail.as_str())
            },
        }
    }
}

} // verus!
