use lcore_node::api::config::ApiConfig;
use lcore_node::api::device_handler::{
    dispatch_response, encryption_failure_response, prepare_submission, register_device_response,
    storage_failure_response,
};
use lcore_node::api::server::Server;
use lcore_node::api::status_handler::status_response;
use lcore_node::device::error::DeviceError;
use lcore_node::device::manager::DeviceManager;
use lcore_node::device::types::{Device, DeviceData};
use lcore_node::encryption::error::EncryptionError;
use lcore_node::encryption::service::{DualEncryptionService, EncryptionConfig};
use lcore_node::kc_chain::error::KCChainError;
use lcore_node::storage::error::StorageError;
use lcore_node::storage::policy::{store_encrypted_data_outcome, DbError};

fn service() -> DualEncryptionService {
    DualEncryptionService::new(&EncryptionConfig { key_rotation_hours: 24 }).unwrap()
}

/// A toy submissions table standing in for the durable store.
struct FakeSubmissionTable {
    rows: Vec<(String, Vec<u8>)>,
}

impl FakeSubmissionTable {
    fn insert(&mut self, device_id: &str, data: &[u8]) -> Result<(), DbError> {
        self.rows.push((device_id.to_string(), data.to_vec()));
        Ok(())
    }
}

/// One submission, driven the way the HTTP handler drives it: encrypt, then
/// persist, then dispatch with whatever the ledger answered.
fn run_submission(
    svc: &DualEncryptionService,
    store: &mut FakeSubmissionTable,
    device_id: &str,
    payload: &[u8],
    ledger: Result<String, KCChainError>,
) -> (u16, bool, String) {
    let prepared = match prepare_submission(svc, payload.to_vec()) {
        Ok(p) => p,
        Err(e) => {
            let (code, resp) = encryption_failure_response(e);
            return (code, resp.success, resp.message);
        }
    };
    let stored = store_encrypted_data_outcome(store.insert(device_id, &prepared.ciphertext.0));
    if let Err(e) = stored {
        let (code, resp) = storage_failure_response(e);
        return (code, resp.success, resp.message);
    }
    let (code, resp) = dispatch_response(ledger);
    (code, resp.success, resp.message)
}

#[test]
fn submission_succeeds_when_ledger_confirms() {
    let svc = service();
    let mut store = FakeSubmissionTable { rows: Vec::new() };
    let (code, success, message) =
        run_submission(&svc, &mut store, "dev-1", b"hello", Ok("0xabc123".to_string()));

    assert_eq!(code, 200);
    assert!(success);
    assert_eq!(message, "Data submitted; tx 0xabc123");

    assert_eq!(store.rows.len(), 1);
    assert_eq!(store.rows[0].0, "dev-1");
    assert!(!store.rows[0].1.is_empty());
    assert_ne!(store.rows[0].1, b"hello".to_vec());
    let back = svc
        .decrypt(lcore_node::encryption::types::EncryptedData(store.rows[0].1.clone()))
        .unwrap();
    assert_eq!(back.0, b"hello".to_vec());
}

#[test]
fn submission_still_succeeds_when_ledger_fails() {
    let svc = service();
    let mut store = FakeSubmissionTable { rows: Vec::new() };
    let ledger: Result<String, KCChainError> =
        Err(KCChainError::Submission("chain unreachable".to_string()));
    let (code, success, message) = run_submission(&svc, &mut store, "dev-1", b"hello", ledger);

    // Durability preceded dispatch: exactly one persisted record, and the
    // request is an overall success despite the ledger failure.
    assert_eq!(store.rows.len(), 1);
    assert_eq!(code, 200);
    assert!(success);
    assert_eq!(
        message,
        "Data stored locally; KC-Chain dispatch failed: Transaction submission error: chain unreachable"
    );
}

#[test]
fn encryption_failure_is_a_hard_failure() {
    let (code, resp) = encryption_failure_response(EncryptionError::Stage1("boom".to_string()));
    assert_eq!(code, 500);
    assert!(!resp.success);
    assert_eq!(resp.message, "Encryption failed: Stage 1 encryption failed: boom");
}

#[test]
fn storage_failure_is_a_hard_failure() {
    let (code, resp) = storage_failure_response(StorageError::QueryError("boom".to_string()));
    assert_eq!(code, 500);
    assert!(!resp.success);
    assert_eq!(resp.message, "Failed to store data: Database query failed: boom");
}

#[test]
fn register_response_on_success() {
    let (code, resp) = register_device_response(Ok(()));
    assert_eq!(code, 201);
    assert!(resp.success);
    assert_eq!(resp.message, "Device registered successfully");
}

#[test]
fn register_response_on_failure() {
    let (code, resp) =
        register_device_response(Err(StorageError::QueryError("boom".to_string())));
    assert_eq!(code, 500);
    assert!(!resp.success);
    assert_eq!(resp.message, "Failed to register device: Database query failed: boom");
}

#[test]
fn status_reports_ok() {
    let resp = status_response("0.1.0".to_string());
    assert_eq!(resp.status, "ok");
    assert_eq!(resp.version, "0.1.0");
}

#[test]
fn server_shares_its_encryption_service() {
    let config = ApiConfig { port: 3000, cors_origins: Vec::new(), rate_limit_per_minute: 60 };
    let svc = service();
    let server = Server::new(config, svc);
    let state = server.create_app_state();
    let bundle = state.encryption.encrypt(
        lcore_node::encryption::types::Plaintext(b"via state".to_vec()),
    ).unwrap();
    let back = svc.decrypt(bundle).unwrap();
    assert_eq!(back.0, b"via state".to_vec());
}

#[test]
fn device_manager_accepts_everything() {
    let manager = DeviceManager::new();
    let device = Device { id: "dev-1".to_string(), public_key: "pk".to_string() };
    let data = DeviceData { device_id: "dev-1".to_string(), payload: b"hello".to_vec() };
    assert!(manager.register_device(&device).is_ok());
    assert!(manager.process_data(&data).is_ok());
}

#[test]
fn device_error_describe_texts() {
    assert_eq!(
        DeviceError::AlreadyExists("dev-1".to_string()).describe(),
        "Device with ID dev-1 already registered"
    );
    assert_eq!(DeviceError::NotFound.describe(), "Device not found");
    assert_eq!(DeviceError::InvalidPublicKey.describe(), "Invalid public key");
    assert_eq!(
        DeviceError::Storage(StorageError::NotFound).describe(),
        "Storage error: Record not found"
    );
}

#[test]
fn kc_chain_error_describe_texts() {
    assert_eq!(
        KCChainError::Initialization("bad key".to_string()).describe(),
        "Initialization error: bad key"
    );
    assert_eq!(
        KCChainError::Submission("dropped".to_string()).describe(),
        "Transaction submission error: dropped"
    );
    assert_eq!(
        KCChainError::Contract("revert".to_string()).describe(),
        "Smart contract error: revert"
    );
    assert_eq!(
        KCChainError::Provider("timeout".to_string()).describe(),
        "Provider error: timeout"
    );
}
