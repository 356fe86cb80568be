//! Process-level configuration. Loading it from a file is I/O and lives with
//! the process bootstrap outside this library; these are the validated shapes
//! the rest of the system consumes.

use vstd::prelude::*;

verus! {

/// Root configuration of the node.
#[derive(Debug)]
pub struct Config {
    pub api: ApiConfig,
    pub encryption: EncryptionConfig,
    pub storage: StorageConfig,
    pub kc_chain: KCChainConfig,
    pub risc_zero: RiscZeroConfig,
}

/// HTTP surface settings.
#[derive(Debug)]
pub struct ApiConfig {
    pub host: String,
    pub port: u16,
    pub cors_origins: Vec<String>,
    pub rate_limit_per_minute: u32,
}

/// Encryption layer settings.
#[derive(Debug)]
pub struct EncryptionConfig {
    pub key_rotation_hours: u64,
}

/// Durable store settings.
#[derive(Debug)]
pub struct StorageConfig {
    pub database_url: String,
    pub max_connections: u32,
    pub query_cache_ttl_minutes: u64,
}

/// Ledger client settings.
#[derive(Debug)]
pub struct KCChainConfig {
    pub rpc_url: String,
    pub ws_url: String,
    pub chain_id: u64,
    pub private_key: String,
    pub contracts: ContractAddresses,
}

/// Deployed contract addresses.
#[derive(Debug)]
pub struct ContractAddresses {
    pub mvp_processor: String,
    pub device_registry: String,
}

/// Proof-system settings.
#[derive(Debug)]
pub struct RiscZeroConfig {
    pub dev_mode: bool,
    pub bonsai_api_key: Option<String>,
    pub bonsai_api_url: Option<String>,
}

} // verus!
