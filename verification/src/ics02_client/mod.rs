//! Clients (ICS-02).
pub mod client;
pub mod events;
pub mod handler;
pub mod types;
