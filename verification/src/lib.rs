//! Core IBC host logic: client, connection, channel and packet handling for a
//! contract-based IBC host, with its state held in verified maps.
pub mod constants;
pub mod context;
pub mod conversions;
pub mod encoding;
pub mod error;
pub mod event;
pub mod fee;
pub mod ibc_types;
pub mod ics02_client;
pub mod ics03_connection;
pub mod ics04_channel;
pub mod ics05_port;
pub mod ics24_host;
pub mod ics26_routing;
pub mod laws;
pub mod light_client;
pub mod msg;
pub mod proto;
pub mod query;
pub mod state;
pub mod storage_keys;
pub mod store;
pub mod types;
pub mod validations;
