//! Two-stage authenticated encryption: AES-256-GCM under one key, then
//! ChaCha20-Poly1305 under an independent key.

pub mod error;
pub mod service;
pub mod stage1;
pub mod stage2;
pub mod types;
