//! Client registry, client counters and client lookups.
use vstd::prelude::*;

use crate::context::CwIbcCoreContext;
use crate::error::{not_found, ClientError, ContractError, StdError};
use crate::ibc_types::Height;
use crate::ics24_host::commitment::{
    client_state_path, client_state_path_spec, consensus_state_path, consensus_state_path_spec,
};
use crate::light_client::light_client::LightClient;
use crate::state::{LastProcessedOn, StoreView};
use crate::store::KeyLike;
use crate::types::{ClientId, ClientType};

verus! {

impl CwIbcCoreContext {
    /// Adds one to the client counter and returns the new value.
    pub fn increase_client_counter(&mut self) -> (r: Result<u64, ContractError>)
        requires
            old(self)@.store.next_client_sequence matches Some(n) ==> n < u64::MAX,
        ensures
            match old(self)@.store.next_client_sequence {
                Some(n) => r == Ok::<u64, ContractError>((n + 1) as u64) && final(self)@
                    == old(self)@.with_store(
                    StoreView { next_client_sequence: Some((n + 1) as u64), ..old(self)@.store },
                ),
                None => final(self)@ == old(self)@ && (r matches Err(e) && not_found(e, "u64"@)),
            },
    {
        match self.store.next_client_sequence {
            Some(n) => {
                self.store.next_client_sequence = Some(n + 1);
                Ok(n + 1)
            },
            None => Err(ContractError::Std(StdError::NotFound { kind: String::from_str("u64") })),
        }
    }

    /// The client counter.
    pub fn client_counter(&self) -> (r: Result<u64, ContractError>)
        ensures
            match self@.store.next_client_sequence {
                Some(n) => r == Ok::<u64, ContractError>(n),
                None => r == Err::<u64, ContractError>(ContractError::InvalidNextClientSequence),
            },
    {
        match self.store.next_client_sequence {
            Some(n) => Ok(n),
            None => Err(ContractError::InvalidNextClientSequence),
        }
    }

    /// Sets the client counter to `sequence_no`.
    pub fn init_client_counter(&mut self, sequence_no: u64) -> (r: Result<(), ContractError>)
        ensures
            r is Ok,
            final(self)@ == old(self)@.with_store(
                StoreView { next_client_sequence: Some(sequence_no), ..old(self)@.store },
            ),
    {
        self.store.next_client_sequence = Some(sequence_no);
        Ok(())
    }

    /// The type of a client.
    pub fn get_client_type(&self, client_id: &ClientId) -> (r: Result<ClientType, ContractError>)
        ensures
            match r {
                Ok(t) => self@.store.client_types.contains_key(client_id@) && t@
                    == self@.store.client_types[client_id@],
                Err(e) => !self@.store.client_types.contains_key(client_id@) && (e matches ContractError::InvalidClientId { client_id: c } && c@ == client_id@),
            },
    {
        match self.store.client_types.get(client_id) {
            Some(t) => Ok(t.duplicate()),
            None => Err(ContractError::InvalidClientId { client_id: String::from_str(client_id.as_str()) }),
        }
    }

    /// The light-client address registered for a client type.
    pub fn get_client_from_registry(&self, client_type: &ClientType) -> (r: Result<String, ContractError>)
        ensures
            match r {
                Ok(a) => self@.store.client_registry.contains_key(client_type@) && a@
                    == self@.store.client_registry[client_type@],
                Err(e) => !self@.store.client_registry.contains_key(client_type@) && (e matches ContractError::InvalidClientType { client_type: c } && c@ == client_type@),
            },
    {
        match self.store.client_registry.get(client_type) {
            Some(a) => Ok(a.clone()),
            None => Err(ContractError::InvalidClientType { client_type: String::from_str(client_type.as_str()) }),
        }
    }

    /// The light client that runs a client.
    pub fn get_client_implementations(&self, client_id: &ClientId) -> (r: Result<LightClient, ContractError>)
        ensures
            match r {
                Ok(c) => self@.store.client_implementations.contains_key(client_id@) && c.address@
                    == self@.store.client_implementations[client_id@],
                Err(e) => !self@.store.client_implementations.contains_key(client_id@) && (e matches ContractError::InvalidClientId { client_id: c } && c@ == client_id@),
            },
    {
        match self.store.client_implementations.get(client_id) {
            Some(a) => Ok(LightClient::new(a.clone())),
            None => Err(ContractError::InvalidClientId { client_id: String::from_str(client_id.as_str()) }),
        }
    }

    /// Records the type of a client.
    pub fn store_client_type(&mut self, client_id: &ClientId, client_type: ClientType) -> (r: Result<(), ContractError>)
        ensures
            r is Ok,
            final(self)@ == old(self)@.with_store(
                StoreView {
                    client_types: old(self)@.store.client_types.insert(client_id@, client_type@),
                    ..old(self)@.store
                },
            ),
    {
        self.store.client_types.insert(client_id.duplicate(), client_type);
        Ok(())
    }

    /// Registers the light-client address for a client type.
    pub fn store_client_into_registry(&mut self, client_type: ClientType, client: String) -> (r: Result<(), ContractError>)
        ensures
            r is Ok,
            final(self)@ == old(self)@.with_store(
                StoreView {
                    client_registry: old(self)@.store.client_registry.insert(client_type@, client@),
                    ..old(self)@.store
                },
            ),
    {
        self.store.client_registry.insert(client_type, client);
        Ok(())
    }

    /// Records the light client that runs a client.
    pub fn store_client_implementations(&mut self, client_id: &ClientId, client: LightClient) -> (r: Result<(), ContractError>)
        ensures
            r is Ok,
            final(self)@ == old(self)@.with_store(
                StoreView {
                    client_implementations: old(self)@.store.client_implementations.insert(
                        client_id@,
                        client.address@,
                    ),
                    ..old(self)@.store
                },
            ),
    {
        self.store.client_implementations.insert(client_id.duplicate(), client.address);
        Ok(())
    }

    /// Succeeds exactly when no light client is registered for the client type.
    pub fn check_client_registered(&self, client_type: &ClientType) -> (r: Result<(), ContractError>)
        ensures
            r is Ok <==> !self@.store.client_registry.contains_key(client_type@),
            r is Err ==> (r matches Err(ContractError::IbcClientError { error: ClientError::Other { description } })
                && description@ == "Client Implementation Already Exist"@),
    {
        if self.store.client_registry.contains_key(client_type) {
            return Err(ContractError::IbcClientError {
                error: ClientError::Other { description: String::from_str("Client Implementation Already Exist") },
            });
        }
        Ok(())
    }

    /// The light client that runs a client, or `ClientNotFound`.
    pub fn get_client(&self, client_id: &ClientId) -> (r: Result<LightClient, ContractError>)
        ensures
            match r {
                Ok(c) => self@.store.client_implementations.contains_key(client_id@) && c.address@
                    == self@.store.client_implementations[client_id@],
                Err(e) => !self@.store.client_implementations.contains_key(client_id@) && e == ContractError::IbcClientError { error: ClientError::ClientNotFound { client_id: *client_id } },
            },
    {
        match self.get_client_implementations(client_id) {
            Ok(c) => Ok(c),
            Err(_) => Err(ContractError::IbcClientError { error: ClientError::ClientNotFound { client_id: client_id.duplicate() } }),
        }
    }

    /// The bytes committed under `key`.
    pub fn get_commitment(&self, key: &Vec<u8>) -> (r: Result<Vec<u8>, ContractError>)
        ensures
            match r {
                Ok(c) => self@.store.commitments.contains_key(key@) && c@ == self@.store.commitments[key@],
                Err(e) => !self@.store.commitments.contains_key(key@) && e == ContractError::InvalidCommitmentKey,
            },
    {
        match self.store.commitments.get(key) {
            Some(c) => Ok(crate::encoding::copy_bytes(c.as_slice())),
            None => Err(ContractError::InvalidCommitmentKey),
        }
    }

    /// The host accepts any description of itself that a counterparty holds.
    pub fn validate_self_client(&self, client_state_of_host_on_counterparty: &Vec<u8>) -> (r: Result<(), ContractError>)
        ensures
            r is Ok,
    {
        Ok(())
    }

    /// The encoded state of a client, as its light client handed it over.
    pub fn client_state_any(&self, client_id: &ClientId) -> (r: Result<Vec<u8>, ContractError>)
        ensures
            match self@.store.client_states.get(client_id@) {
                Some(b) => r matches Ok(v) && v@ == b,
                None => r matches Err(e) && not_found(e, "client state"@),
            },
    {
        match self.store.client_states.get(client_id) {
            Some(b) => Ok(crate::encoding::copy_bytes(b.as_slice())),
            None => Err(ContractError::Std(StdError::NotFound { kind: String::from_str("client state") })),
        }
    }

    /// The encoded consensus state of a client, as its light client handed it
    /// over.
    pub fn consensus_state_any(&self, client_id: &ClientId) -> (r: Result<Vec<u8>, ContractError>)
        ensures
            match self@.store.consensus_states.get(client_id@) {
                Some(b) => r matches Ok(v) && v@ == b,
                None => r matches Err(e) && not_found(e, "consensus state"@),
            },
    {
        match self.store.consensus_states.get(client_id) {
            Some(b) => Ok(crate::encoding::copy_bytes(b.as_slice())),
            None => Err(ContractError::Std(StdError::NotFound { kind: String::from_str("consensus state") })),
        }
    }

    /// Records the host height and time at which `client_id` was processed.
    pub fn store_last_processed_on(&mut self, client_id: &ClientId, host_height: u64, host_time: u64) -> (r: Result<(), ContractError>)
        ensures
            r is Ok,
            final(self)@ == old(self)@.with_store(StoreView {
                last_processed_on: old(self)@.store.last_processed_on.insert(client_id@, LastProcessedOn { height: host_height, timestamp: host_time }),
                ..old(self)@.store
            }),
    {
        self.store.last_processed_on.insert(client_id.duplicate(), LastProcessedOn { height: host_height, timestamp: host_time });
        Ok(())
    }

    /// When `client_id` was last processed.
    pub fn last_processed_on(&self, client_id: &ClientId) -> (r: Result<LastProcessedOn, ContractError>)
        ensures
            match self@.store.last_processed_on.get(client_id@) {
                Some(l) => r == Ok::<LastProcessedOn, ContractError>(l),
                None => r matches Err(e) && not_found(e, "last processed on"@),
            },
    {
        match self.store.last_processed_on.get(client_id) {
            Some(l) => Ok(*l),
            None => Err(ContractError::Std(StdError::NotFound { kind: String::from_str("last processed on") })),
        }
    }

    /// Stores the encoded state of `client_id` and the commitment to it under
    /// the client state's path, and marks the client as processed at the host's
    /// height and time.
    pub fn store_client_state(&mut self, client_id: &ClientId, client_state_any: Vec<u8>, client_state_hash: Vec<u8>, host_height: u64, host_time: u64) -> (r: Result<(), ContractError>)
        ensures
            r is Ok,
            final(self)@ == old(self)@.with_store(StoreView {
                client_states: old(self)@.store.client_states.insert(client_id@, client_state_any@),
                commitments: old(self)@.store.commitments.insert(client_state_path_spec(client_id@), client_state_hash@),
                last_processed_on: old(self)@.store.last_processed_on.insert(client_id@, LastProcessedOn { height: host_height, timestamp: host_time }),
                ..old(self)@.store
            }),
    {
        self.store.client_states.insert(client_id.duplicate(), client_state_any);
        self.store.commitments.insert(client_state_path(client_id), client_state_hash);
        self.store_last_processed_on(client_id, host_height, host_time)
    }

    /// Stores the encoded consensus state of `client_id` at `height` and the
    /// commitment to it under the consensus state's path.
    pub fn store_consensus_state(&mut self, client_id: &ClientId, height: &Height, consensus_state_any: Vec<u8>, consensus_state_hash: Vec<u8>) -> (r: Result<(), ContractError>)
        ensures
            r is Ok,
            final(self)@ == old(self)@.with_store(StoreView {
                consensus_states: old(self)@.store.consensus_states.insert(client_id@, consensus_state_any@),
                commitments: old(self)@.store.commitments.insert(consensus_state_path_spec(client_id@, *height), consensus_state_hash@),
                ..old(self)@.store
            }),
    {
        self.store.consensus_states.insert(client_id.duplicate(), consensus_state_any);
        self.store.commitments.insert(consensus_state_path(client_id, height), consensus_state_hash);
        Ok(())
    }

    /// The height at which a client was updated: revision zero at `height`,
    /// which must not be zero.
    pub fn client_update_height(&self, client_id: &ClientId, height: u64) -> (r: Result<Height, ContractError>)
        ensures
            height == 0 ==> r == Err::<Height, ContractError>(ContractError::IbcClientError { error: ClientError::InvalidHeight }),
            height != 0 ==> r == Ok::<Height, ContractError>(Height { revision_number: 0, revision_height: height }),
    {
        if height == 0 {
            return Err(ContractError::IbcClientError { error: ClientError::InvalidHeight });
        }
        Ok(Height::new(0, height))
    }

    /// The longest time a block is expected to take: sixty seconds.
    pub fn max_expected_time_per_block(&self) -> (r: u64)
        ensures
            r == 60,
    {
        60
    }
}

} // verus!
