//! Connection ends written to and read from the store directly.
use vstd::prelude::*;

use crate::error::{ContractError, StdError};
use crate::ibc_types::ConnectionEnd;
use crate::state::{with_namespace, CwIbcStore, StoreView};
use crate::storage_keys::StorageKey;
use crate::types::ConnectionId;

verus! {

impl CwIbcStore {
    /// Stores `conn_end` under `conn_id`; the response's attributes name the
    /// method.
    pub fn set_connection(&mut self, conn_end: ConnectionEnd, conn_id: ConnectionId) -> (r: Result<Vec<(String, String)>, ContractError>)
        ensures
            r matches Ok(a) && a@.len() == 1 && a@[0].0@ == "method"@ && a@[0].1@ == "set_connection"@,
            final(self)@ == with_namespace(old(self)@,
                StoreView { connections: old(self)@.connections.insert(conn_id@, conn_end@), ..old(self)@ },
                StorageKey::Connections),
    {
        self.add_connection(conn_end, conn_id)?;
        let mut attributes: Vec<(String, String)> = Vec::new();
        attributes.push((String::from_str("method"), String::from_str("set_connection")));
        Ok(attributes)
    }

    /// The connection end stored under `conn_id`, which must be there.
    pub fn get_connection(&self, conn_id: ConnectionId) -> (r: ConnectionEnd)
        requires
            self@.connections.contains_key(conn_id@),
        ensures
            r@ == self@.connections[conn_id@],
    {
        self.connections.get(&conn_id).unwrap().duplicate()
    }

    /// Stores `conn_end` under `conn_id`.
    pub fn add_connection(&mut self, conn_end: ConnectionEnd, conn_id: ConnectionId) -> (r: Result<(), ContractError>)
        ensures
            r is Ok,
            final(self)@ == with_namespace(old(self)@,
                StoreView { connections: old(self)@.connections.insert(conn_id@, conn_end@), ..old(self)@ },
                StorageKey::Connections),
    {
        self.connections.insert(conn_id, conn_end);
        Ok(())
    }

    /// The connection end stored under `conn_id`; an error where there is none.
    pub fn query_connection(&self, conn_id: ConnectionId) -> (r: Result<ConnectionEnd, ContractError>)
        ensures
            match r {
                Ok(c) => self@.connections.contains_key(conn_id@) && c@ == self@.connections[conn_id@],
                Err(e) => !self@.connections.contains_key(conn_id@)
                    && (e matches ContractError::Std(StdError::NotFound { kind }) && kind@ == "connection end"@),
            },
    {
        match self.connections.get(&conn_id) {
            Some(c) => Ok(c.duplicate()),
            None => Err(ContractError::Std(StdError::NotFound { kind: String::from_str("connection end") })),
        }
    }
}

} // verus!
