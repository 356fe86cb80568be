use vstd::prelude::*;
use crate::api::config::ApiConfig;
use crate::encryption::service::DualEncryptionService;

verus! {

/// The HTTP server's verified state: its settings and the encryption
/// pipeline. The durable store and the ledger client live with the transport
/// outside this library and are wired up beside it.
#[derive(Debug)]
pub struct Server {
    config: ApiConfig,
    encryption: DualEncryptionService,
}

/// What every handler can reach.
#[derive(Debug, Clone)]
pub struct AppState {
    pub encryption: DualEncryptionService,
}

impl Server {
    /// The settings the server was built with.
    pub closed spec fn spec_config(&self) -> ApiConfig {
        self.config
    }

    /// The encryption pipeline the server was built with.
    pub closed spec fn spec_encryption(&self) -> DualEncryptionService {
        self.encryption
    }

    pub fn new(config: ApiConfig, encryption: DualEncryptionService) -> (r: Self)
        ensures
            r.spec_config() == config,
            r.spec_encryption() == encryption,
    {
        Server { config, encryption }
    }

    /// Packs the state handlers share.
    pub fn create_app_state(&self) -> (r: AppState)
        ensures
            r.encryption == self.spec_encryption(),
    {
        AppState { encryption: self.encryption }
    }
}

} // verus!
