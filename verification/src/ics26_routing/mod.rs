//! Routing of messages to modules.
pub mod router;
