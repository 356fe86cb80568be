//! The compute side of the HTTP surface: request and response shapes, and the
//! coordinator decisions each handler applies between its I/O steps.

pub mod config;
pub mod device_handler;
pub mod server;
pub mod status_handler;
