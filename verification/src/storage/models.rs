use vstd::prelude::*;

verus! {

/// A registered device: unique identifier, its public key, and the epoch
/// second at which it was registered.
#[derive(Debug, Clone)]
pub struct Device {
    pub id: String,
    pub public_key: String,
    pub registration_date: i64,
}

/// One persisted submission. `transaction_hash` stays `None` until a ledger
/// dispatch succeeds; its absence is a valid permanent state, not an error.
#[derive(Debug, Clone)]
pub struct DataSubmission {
    pub id: i64,
    pub device_id: String,
    pub data: Vec<u8>,
    pub submission_date: i64,
    pub transaction_hash: Option<String>,
}

} // verus!
