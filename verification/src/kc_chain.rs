//! Types the ledger client is configured and judged by. The client itself
//! signs and sends transactions over the network and lives outside this
//! library; the coordinator consumes only its outcome.

pub mod config;
pub mod error;
