use vstd::prelude::*;

verus! {

/// Deployed contract addresses, as hexadecimal strings.
#[derive(Debug, Clone)]
pub struct ContractAddresses {
    pub mvp_processor: String,
    pub device_registry: String,
}

/// Connection settings of the ledger client.
#[derive(Debug, Clone)]
pub struct KCChainConfig {
    pub rpc_url: String,
    pub ws_url: String,
    pub chain_id: u64,
    pub private_key: String,
    pub contracts: ContractAddresses,
}

} // verus!
