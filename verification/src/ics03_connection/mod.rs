//! Connections (ICS-03).
pub mod conn_types;
pub mod connection;
pub mod delay;
pub mod event;
pub mod handler;
pub mod storage;
