//! Channels and packets (ICS-04).
pub mod channel;
pub mod events;
pub mod handler;
pub mod msgs;
pub mod packet;
