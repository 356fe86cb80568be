//! The durable store's error taxonomy, record models, and the policy that
//! decides which database failures are downgraded to success.

pub mod error;
pub mod models;
pub mod policy;
