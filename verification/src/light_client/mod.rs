//! Light-client contracts as the host sees them.
pub mod light_client;
