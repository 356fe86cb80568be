//! Device-facing records and the registration business object. The durable
//! store is the authority on registration; the manager validates nothing yet.

pub mod error;
pub mod manager;
pub mod types;
