use vstd::prelude::*;

verus! {

/// Settings the HTTP server is built with.
#[derive(Debug, Clone)]
pub struct ApiConfig {
    pub port: u16,
    pub cors_origins: Vec<String>,
    pub rate_limit_per_minute: u32,
}

} // verus!
