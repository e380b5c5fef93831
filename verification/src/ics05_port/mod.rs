//! Ports (ICS-05).
pub mod port;
