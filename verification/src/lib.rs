//! Telemetry ingestion pipeline: layered authenticated encryption, deterministic
//! identifier derivation, and the coordination rules that sequence encryption,
//! durable persistence and best-effort ledger dispatch.

pub mod api;
pub mod config;
pub mod device;
pub mod encryption;
pub mod identifier;
pub mod kc_chain;
pub mod storage;
pub mod text;
