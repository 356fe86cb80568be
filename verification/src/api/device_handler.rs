//! Decisions of the two device-facing handlers.
//!
//! A submission walks the states Received, Encrypted, Persisted, and ends in
//! DispatchConfirmed or DispatchFailed. Encryption and identifier derivation
//! are pure and happen in `prepare_submission`; persistence and ledger
//! dispatch are I/O the caller performs between the steps, handing each
//! outcome back to the matching decision below. Persistence is the durability
//! boundary: its failure, like encryption's, is a hard failure, while every
//! ledger outcome after a successful persist is an overall success.

use vstd::prelude::*;
use vstd::string::StringExecFns;
use crate::encryption::error::{encryption_error_text, EncryptionError};
use crate::encryption::service::{dual_open, DualEncryptionService, DUAL_MSG_MAX, DUAL_OVERHEAD};
use crate::encryption::types::{EncryptedData, Plaintext};
use crate::identifier::{derive_identifiers, sha256_of, ProofHash, TaskIdentifier};
use crate::kc_chain::error::{kc_chain_error_text, KCChainError};
use crate::storage::error::{storage_error_text, StorageError};

verus! {

/// Body of a registration request.
#[derive(Debug, Clone)]
pub struct RegisterDeviceRequest {
    pub device_id: String,
    pub public_key: String,
}

/// Reply to a registration request.
#[derive(Debug, Clone)]
pub struct RegisterDeviceResponse {
    pub success: bool,
    pub message: String,
}

/// Body of a data submission.
#[derive(Debug, Clone)]
pub struct SubmitDataRequest {
    pub device_id: String,
    pub data: String,
}

/// Reply to a data submission.
#[derive(Debug, Clone)]
pub struct SubmitDataResponse {
    pub success: bool,
    pub message: String,
}

/// Maps the store's registration outcome to the HTTP reply: success answers
/// 201 Created, any storage failure answers 500 with the failure's text.
pub fn register_device_response(store_result: Result<(), StorageError>) -> (r: (
    u16,
    RegisterDeviceResponse,
))
    ensures
        store_result is Ok ==> r.0 == 201 && r.1.success && r.1.message@
            == "Device registered successfully"@,
        store_result matches Err(e) ==> r.0 == 500 && !r.1.success && r.1.message@
            == "Failed to register device: "@ + storage_error_text(e),
{
    match store_result {
        Ok(()) => (
            201,
            RegisterDeviceResponse {
                success: true,
                message: "Device registered successfully".to_owned(),
            },
        ),
        Err(e) => {
            let detail = e.describe();
            (
                500,
                RegisterDeviceResponse {
                    success: false,
                    message: "Failed to register device: ".to_owned().concat(detail.as_str()),
                },
            )
        },
    }
}

/// Everything the later steps of one submission need: the dual bundle and the
/// identifiers the ledger will be given.
#[derive(Debug, Clone)]
pub struct EncryptedSubmission {
    pub ciphertext: EncryptedData,
    pub task_id: TaskIdentifier,
    pub proof_hash: ProofHash,
}

/// Received to Encrypted: encrypts the payload and derives both identifiers
/// from the final ciphertext. No side effect has happened yet, so a failure
/// here aborts the whole submission.
pub fn prepare_submission(service: &DualEncryptionService, payload: Vec<u8>) -> (r: Result<
    EncryptedSubmission,
    EncryptionError,
>)
    ensures
        r matches Ok(s) ==> dual_open(service.key1(), service.key2(), s.ciphertext.0@) == Some(
            payload@,
        ),
        r matches Ok(s) ==> s.task_id.bytes@ == sha256_of(s.ciphertext.0@) && s.proof_hash.bytes@
            == sha256_of(s.ciphertext.0@) && s.task_id.wf() && s.proof_hash.wf(),
        r matches Ok(s) ==> s.ciphertext.0@.len() == payload@.len() + DUAL_OVERHEAD,
        r is Ok <==> payload@.len() <= DUAL_MSG_MAX,
        r matches Err(e) ==> e is Stage1,
{
    let encrypted = match service.encrypt(Plaintext(payload)) {
        Ok(v) => v,
        Err(e) => return Err(e),
    };
    let (task_id, proof_hash) = derive_identifiers(encrypted.0.as_slice());
    Ok(EncryptedSubmission { ciphertext: encrypted, task_id, proof_hash })
}

/// Reply when encryption fails: a hard failure, 500, nothing was stored.
pub fn encryption_failure_response(error: EncryptionError) -> (r: (u16, SubmitDataResponse))
    ensures
        r.0 == 500 && !r.1.success,
        r.1.message@ == "Encryption failed: "@ + encryption_error_text(error),
{
    let detail = error.describe();
    (
        500,
        SubmitDataResponse {
            success: false,
            message: "Encryption failed: ".to_owned().concat(detail.as_str()),
        },
    )
}

/// Reply when persistence fails: a hard failure, 500 — the durability
/// guarantee was not met, so nothing was dispatched.
pub fn storage_failure_response(error: StorageError) -> (r: (u16, SubmitDataResponse))
    ensures
        r.0 == 500 && !r.1.success,
        r.1.message@ == "Failed to store data: "@ + storage_error_text(error),
{
    let detail = error.describe();
    (
        500,
        SubmitDataResponse {
            success: false,
            message: "Failed to store data: ".to_owned().concat(detail.as_str()),
        },
    )
}

/// Persisted to DispatchConfirmed or DispatchFailed: every ledger outcome is
/// an overall success answering 200, because local durability was already
/// achieved; only the message tells a confirmed dispatch from a failed one.
pub fn dispatch_response(outcome: Result<String, KCChainError>) -> (r: (u16, SubmitDataResponse))
    ensures
        r.0 == 200 && r.1.success,
        outcome matches Ok(tx) ==> r.1.message@ == "Data submitted; tx "@ + tx@,
        outcome matches Err(e) ==> r.1.message@ == "Data stored locally; KC-Chain dispatch failed: "@
            + kc_chain_error_text(e),
{
    match outcome {
        Ok(tx) => (
            200,
            SubmitDataResponse {
                success: true,
                message: "Data submitted; tx ".to_owned().concat(tx.as_str()),
            },
        ),
        Err(e) => {
            let detail = e.describe();
            (
                200,
                SubmitDataResponse {
                    success: true,
                    message: "Data stored locally; KC-Chain dispatch failed: ".to_owned().concat(
                        detail.as_str(),
                    ),
                },
            )
        },
    }
}

} // verus!
