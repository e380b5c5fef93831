//! Creating, updating, upgrading and freezing clients.
use vstd::prelude::*;

use crate::constants::EXECUTE_UPDATE_CLIENT;
use crate::encoding::{keccak256, keccak256_digest};
use crate::context::{ContextView, CwIbcCoreContext};
use crate::error::{not_found, ClientError, ContractError};
use crate::ibc_types::Height;
use crate::ics04_channel::packet::packet_types::ClientFacts;
use crate::ics24_host::commitment::{
    client_state_path, client_state_path_spec, consensus_state_path, consensus_state_path_spec,
};
use crate::light_client::light_client::LightClient;
use crate::state::{LastProcessedOn, StoreView};
use crate::store::KeyLike;
use crate::types::{ibc_client_id_for, ClientId, ClientType};

verus! {

/// A request to create a client, with the client and consensus states as the
/// light client encodes them.
#[derive(Debug)]
pub struct MsgCreateClient {
    pub client_state: Option<Vec<u8>>,
    pub consensus_state: Option<Vec<u8>>,
}

/// What the host reads of the client state of a new client: its type and its
/// latest height.
#[derive(Debug)]
pub struct DecodedClient {
    pub client_type: ClientType,
    pub latest_height: Height,
}

/// What a light client answers to an update or an upgrade.
#[derive(Debug)]
pub struct ClientUpdate {
    pub client_id: ClientId,
    pub height: Height,
    pub client_state_commitment: Vec<u8>,
    pub consensus_state_commitment: Vec<u8>,
}

/// What a light client answers to misbehaviour.
#[derive(Debug)]
pub struct MisbehaviourUpdate {
    pub client_id: ClientId,
    pub client_state_commitment: Vec<u8>,
}

/// A created client and the light client that runs it.
#[derive(Debug)]
pub struct CreateClientOutcome {
    pub client_id: ClientId,
    pub light_client_address: String,
}

/// The host after the commitment to the state of client `id` is stored and
/// the client is marked as processed at the host's height and time.
pub open spec fn with_client_commitment(c: ContextView, id: Seq<char>, commitment: Seq<u8>, host_height: u64, host_time: u64) -> ContextView {
    c.with_store(StoreView {
        commitments: c.store.commitments.insert(client_state_path_spec(id), commitment),
        last_processed_on: c.store.last_processed_on.insert(id, LastProcessedOn { height: host_height, timestamp: host_time }),
        ..c.store
    })
}

/// The host after the commitment to the consensus state of client `id` at
/// `height` is stored.
pub open spec fn with_consensus_commitment(c: ContextView, id: Seq<char>, height: Height, commitment: Seq<u8>) -> ContextView {
    c.with_store(StoreView {
        commitments: c.store.commitments.insert(consensus_state_path_spec(id, height), commitment),
        ..c.store
    })
}

impl CwIbcCoreContext {
    /// Stores the commitment to the state of `client_id`, and marks the client as
    /// processed at the host's height and time.
    pub fn store_client_commitment(&mut self, client_id: &ClientId, commitment: Vec<u8>, host_height: u64, host_time: u64) -> (r: Result<(), ContractError>)
        ensures
            r is Ok,
            final(self)@ == with_client_commitment(old(self)@, client_id@, commitment@, host_height, host_time),
    {
        let path = client_state_path(client_id);
        self.store.commitments.insert(path, commitment);
        self.store.last_processed_on.insert(client_id.duplicate(), LastProcessedOn { height: host_height, timestamp: host_time });
        Ok(())
    }

    /// Stores the commitment to the consensus state of `client_id` at `height`.
    pub fn store_consensus_commitment(&mut self, client_id: &ClientId, height: &Height, commitment: Vec<u8>) -> (r: Result<(), ContractError>)
        ensures
            r is Ok,
            final(self)@ == with_consensus_commitment(old(self)@, client_id@, *height, commitment@),
    {
        let path = consensus_state_path(client_id, height);
        self.store.commitments.insert(path, commitment);
        Ok(())
    }

    /// The identifier of the next client of `client_type`; the client counter
    /// goes up by one.
    pub fn generate_client_identifier(&mut self, client_type: &ClientType) -> (r: Result<ClientId, ContractError>)
        requires
            old(self)@.store.next_client_sequence matches Some(n) ==> n < u64::MAX,
        ensures
            match old(self)@.store.next_client_sequence {
                None => final(self)@ == old(self)@ && r == Err::<ClientId, ContractError>(ContractError::InvalidNextClientSequence),
                Some(n) => match ibc_client_id_for(client_type@, n) {
                    None => final(self)@ == old(self)@ && (r matches Err(ContractError::IbcClientError { error: ClientError::InvalidClientIdentifier { client_type: t, counter } }) && t@ == client_type@ && counter == n),
                    Some(id) => r matches Ok(c) && c@ == id && final(self)@ == old(self)@.with_store(
                        StoreView { next_client_sequence: Some((n + 1) as u64), ..old(self)@.store },
                    ),
                },
            },
    {
        let counter = self.client_counter()?;
        let client_id = match ClientId::new(client_type, counter) {
            Some(c) => c,
            None => {
                return Err(ContractError::IbcClientError {
                    error: ClientError::InvalidClientIdentifier { client_type: String::from_str(client_type.as_str()), counter },
                });
            },
        };
        self.increase_client_counter()?;
        Ok(client_id)
    }

    /// Registers the light client at `light_client` for `client_type`, which
    /// must not have one yet.
    pub fn register_client(&mut self, client_type: ClientType, light_client: String) -> (r: Result<(), ContractError>)
        ensures
            old(self)@.store.client_registry.contains_key(client_type@) ==> final(self)@ == old(self)@
                && (r matches Err(ContractError::IbcClientError { error: ClientError::Other { description } }) && description@ == "Client Implementation Already Exist"@),
            !old(self)@.store.client_registry.contains_key(client_type@) ==> r is Ok && final(self)@ == old(self)@.with_store(StoreView {
                client_registry: old(self)@.store.client_registry.insert(client_type@, light_client@),
                ..old(self)@.store
            }),
    {
        self.check_client_registered(&client_type)?;
        self.store_client_into_registry(client_type, light_client)
    }

    /// Registers `light_client` for `client_type` on behalf of `sender`, which
    /// must be the owner; then as [`Self::register_client`]. Nothing changes
    /// on failure.
    pub fn register_client_by_owner(&mut self, sender: &String, client_type: ClientType, light_client: String) -> (r: Result<(), ContractError>)
        ensures
            match old(self)@.owner {
                None => final(self)@ == old(self)@ && (r matches Err(e) && not_found(e, "owner"@)),
                Some(o) => if o != sender@ {
                    final(self)@ == old(self)@ && r == Err::<(), ContractError>(ContractError::Unauthorized)
                } else if old(self)@.store.client_registry.contains_key(client_type@) {
                    final(self)@ == old(self)@
                        && (r matches Err(ContractError::IbcClientError { error: ClientError::Other { description } }) && description@ == "Client Implementation Already Exist"@)
                } else {
                    r is Ok && final(self)@ == old(self)@.with_store(StoreView {
                        client_registry: old(self)@.store.client_registry.insert(client_type@, light_client@),
                        ..old(self)@.store
                    })
                },
            },
    {
        self.check_sender_is_owner(sender)?;
        self.register_client(client_type, light_client)
    }

    /// Creates a client from its encoded states: both must be given, the client
    /// type must have a registered light client, and the client takes the next
    /// identifier of its type. The client's type, its light client and the
    /// Keccak-256 commitments to both encoded states are stored. Nothing
    /// changes on failure.
    pub fn create_client(&mut self, msg: &MsgCreateClient, decoded: DecodedClient, host_height: u64, host_time: u64) -> (r: Result<CreateClientOutcome, ContractError>)
        requires
            old(self)@.store.next_client_sequence matches Some(n) ==> n < u64::MAX,
        ensures
            ({
                let c = old(self)@;
                let ty = decoded.client_type@;
                if msg.client_state is None {
                    final(self)@ == c && r == Err::<CreateClientOutcome, ContractError>(ContractError::IbcClientError { error: ClientError::MissingRawClientState })
                } else if msg.consensus_state is None {
                    final(self)@ == c && r == Err::<CreateClientOutcome, ContractError>(ContractError::IbcClientError { error: ClientError::MissingRawConsensusState })
                } else if c.store.next_client_sequence is None {
                    final(self)@ == c && r == Err::<CreateClientOutcome, ContractError>(ContractError::InvalidNextClientSequence)
                } else if ibc_client_id_for(ty, c.store.next_client_sequence.unwrap()) is None {
                    final(self)@ == c && (r matches Err(ContractError::IbcClientError { error: ClientError::InvalidClientIdentifier { client_type: t, counter } })
                        && t@ == ty && counter == c.store.next_client_sequence.unwrap())
                } else if !c.store.client_registry.contains_key(ty) {
                    final(self)@ == c && (r matches Err(ContractError::InvalidClientType { client_type }) && client_type@ == ty)
                } else {
                    let n = c.store.next_client_sequence.unwrap();
                    let id = ibc_client_id_for(ty, n).unwrap();
                    let address = c.store.client_registry[ty];
                    let d = c.with_store(StoreView {
                        next_client_sequence: Some((n + 1) as u64),
                        client_types: c.store.client_types.insert(id, ty),
                        client_implementations: c.store.client_implementations.insert(id, address),
                        ..c.store
                    });
                    &&& r matches Ok(o) && o.client_id@ == id && o.light_client_address@ == address
                    &&& final(self)@ == with_consensus_commitment(
                        with_client_commitment(d, id, keccak256_digest(msg.client_state.unwrap()@), host_height, host_time),
                        id, decoded.latest_height, keccak256_digest(msg.consensus_state.unwrap()@))
                }
            }),
    {
        if msg.client_state.is_none() {
            return Err(ContractError::IbcClientError { error: ClientError::MissingRawClientState });
        }
        if msg.consensus_state.is_none() {
            return Err(ContractError::IbcClientError { error: ClientError::MissingRawConsensusState });
        }
        let counter = self.client_counter()?;
        let client_id = match ClientId::new(&decoded.client_type, counter) {
            Some(c) => c,
            None => {
                return Err(ContractError::IbcClientError {
                    error: ClientError::InvalidClientIdentifier { client_type: String::from_str(decoded.client_type.as_str()), counter },
                });
            },
        };
        let light_client_address = self.get_client_from_registry(&decoded.client_type)?;
        self.increase_client_counter()?;
        self.store_client_type(&client_id, decoded.client_type)?;
        self.store_client_implementations(&client_id, LightClient::new(light_client_address.clone()))?;
        let client_state_commitment = match &msg.client_state {
            Some(bytes) => keccak256(bytes.as_slice()),
            None => Vec::new(),
        };
        let consensus_state_commitment = match &msg.consensus_state {
            Some(bytes) => keccak256(bytes.as_slice()),
            None => Vec::new(),
        };
        self.store_client_commitment(&client_id, client_state_commitment, host_height, host_time)?;
        self.store_consensus_commitment(&client_id, &decoded.latest_height, consensus_state_commitment)?;
        Ok(CreateClientOutcome { client_id, light_client_address })
    }

    /// Forwards a header to the light client of `client_id`: the header must be
    /// given, the client must have a light client and must not be frozen. Gives
    /// the light client's address.
    pub fn update_client(&self, client_id: &ClientId, header: &Option<Vec<u8>>, client: &ClientFacts) -> (r: Result<String, ContractError>)
        ensures
            if header is None {
                r == Err::<String, ContractError>(ContractError::IbcClientError { error: ClientError::MissingRawHeader })
            } else if !self@.store.client_implementations.contains_key(client_id@) {
                r == Err::<String, ContractError>(ContractError::IbcClientError { error: ClientError::ClientNotFound { client_id: *client_id } })
            } else if client.frozen {
                r == Err::<String, ContractError>(ContractError::IbcClientError { error: ClientError::ClientFrozen { client_id: *client_id } })
            } else {
                r matches Ok(a) && a@ == self@.store.client_implementations[client_id@]
            },
    {
        if header.is_none() {
            return Err(ContractError::IbcClientError { error: ClientError::MissingRawHeader });
        }
        let light_client = self.get_client(client_id)?;
        if client.frozen {
            return Err(ContractError::IbcClientError { error: ClientError::ClientFrozen { client_id: client_id.duplicate() } });
        }
        Ok(light_client.get_address())
    }

    /// The light client's answer to an update of `client_id`: a failure fails
    /// with its message, an empty answer fails; otherwise the update's callback
    /// data is forgotten and the commitments to the client's new states are
    /// stored. Gives the new height.
    pub fn execute_update_client_reply(&mut self, client_id: &ClientId, reply: Result<Option<ClientUpdate>, String>, host_height: u64, host_time: u64) -> (r: Result<Height, ContractError>)
        ensures
            match reply {
                Err(msg) => final(self)@ == old(self)@ && (r matches Err(ContractError::IbcClientError { error: ClientError::Other { description } }) && description@ == msg@),
                Ok(None) => final(self)@ == old(self)@ && (r matches Err(ContractError::IbcClientError { error: ClientError::Other { description } }) && description@ == "UNKNOWN ERROR"@),
                Ok(Some(u)) => {
                    let cleared = old(self)@.with_store(StoreView { callback_data: old(self)@.store.callback_data.remove(EXECUTE_UPDATE_CLIENT), ..old(self)@.store });
                    r == Ok::<Height, ContractError>(u.height) && final(self)@ == with_consensus_commitment(
                        with_client_commitment(cleared, client_id@, u.client_state_commitment@, host_height, host_time),
                        client_id@, u.height, u.consensus_state_commitment@)
                },
            },
    {
        match reply {
            Err(msg) => Err(ContractError::IbcClientError { error: ClientError::Other { description: msg } }),
            Ok(None) => Err(ContractError::IbcClientError { error: ClientError::Other { description: String::from_str("UNKNOWN ERROR") } }),
            Ok(Some(u)) => {
                self.clear_callback_data(EXECUTE_UPDATE_CLIENT);
                let height = u.height;
                self.store_client_commitment(client_id, u.client_state_commitment, host_height, host_time)?;
                self.store_consensus_commitment(client_id, &height, u.consensus_state_commitment)?;
                Ok(height)
            },
        }
    }

    /// Asks the light client of `client_id` to upgrade it: both new states must
    /// be given, the client must not be frozen, and the consensus state at its
    /// latest height (of time `old_consensus_time`, in nanoseconds) must be
    /// neither in the future nor older than the trusting period at `now`. Gives
    /// the light client's address.
    pub fn upgrade_client(&self, client_id: &ClientId, new_client_state: &Option<Vec<u8>>, new_consensus_state: &Option<Vec<u8>>, client: &ClientFacts, trusting_period: u64, old_consensus_time: u64, now: u64) -> (r: Result<String, ContractError>)
        ensures
            if new_client_state is None {
                r == Err::<String, ContractError>(ContractError::IbcClientError { error: ClientError::MissingRawClientState })
            } else if new_consensus_state is None {
                r == Err::<String, ContractError>(ContractError::IbcClientError { error: ClientError::MissingRawConsensusState })
            } else if client.frozen {
                r == Err::<String, ContractError>(ContractError::IbcClientError { error: ClientError::ClientFrozen { client_id: *client_id } })
            } else if now < old_consensus_time {
                r == Err::<String, ContractError>(ContractError::IbcClientError { error: ClientError::InvalidConsensusStateTimestamp { time1: old_consensus_time, time2: now } })
            } else if (now - old_consensus_time) / 1_000_000_000 > trusting_period {
                r == Err::<String, ContractError>(ContractError::IbcClientError { error: ClientError::HeaderNotWithinTrustPeriod { latest_time: old_consensus_time, update_time: now } })
            } else if !self@.store.client_implementations.contains_key(client_id@) {
                r == Err::<String, ContractError>(ContractError::IbcClientError { error: ClientError::ClientNotFound { client_id: *client_id } })
            } else {
                r matches Ok(a) && a@ == self@.store.client_implementations[client_id@]
            },
    {
        if new_client_state.is_none() {
            return Err(ContractError::IbcClientError { error: ClientError::MissingRawClientState });
        }
        if new_consensus_state.is_none() {
            return Err(ContractError::IbcClientError { error: ClientError::MissingRawConsensusState });
        }
        if client.frozen {
            return Err(ContractError::IbcClientError { error: ClientError::ClientFrozen { client_id: client_id.duplicate() } });
        }
        if now < old_consensus_time {
            return Err(ContractError::IbcClientError { error: ClientError::InvalidConsensusStateTimestamp { time1: old_consensus_time, time2: now } });
        }
        let elapsed = (now - old_consensus_time) / 1_000_000_000;
        if elapsed > trusting_period {
            return Err(ContractError::IbcClientError { error: ClientError::HeaderNotWithinTrustPeriod { latest_time: old_consensus_time, update_time: now } });
        }
        let light_client = self.get_client(client_id)?;
        Ok(light_client.get_address())
    }

    /// The light client's answer to an upgrade: a failure fails with its
    /// message, an empty answer fails; otherwise the commitments to the client's
    /// new states are stored. Gives the client and its new height.
    pub fn execute_upgrade_client_reply(&mut self, reply: Result<Option<ClientUpdate>, String>, host_height: u64, host_time: u64) -> (r: Result<(ClientId, Height), ContractError>)
        ensures
            match reply {
                Err(msg) => final(self)@ == old(self)@ && (r matches Err(ContractError::IbcClientError { error: ClientError::Other { description } }) && description@ == msg@),
                Ok(None) => final(self)@ == old(self)@ && (r matches Err(ContractError::IbcClientError { error: ClientError::Other { description } }) && description@ == "Invalid Response Data"@),
                Ok(Some(u)) => (r matches Ok((id, h)) && id@ == u.client_id@ && h == u.height) && final(self)@ == with_consensus_commitment(
                    with_client_commitment(old(self)@, u.client_id@, u.client_state_commitment@, host_height, host_time),
                    u.client_id@, u.height, u.consensus_state_commitment@),
            },
    {
        match reply {
            Err(msg) => Err(ContractError::IbcClientError { error: ClientError::Other { description: msg } }),
            Ok(None) => Err(ContractError::IbcClientError { error: ClientError::Other { description: String::from_str("Invalid Response Data") } }),
            Ok(Some(u)) => {
                let height = u.height;
                self.store_client_commitment(&u.client_id, u.client_state_commitment, host_height, host_time)?;
                self.store_consensus_commitment(&u.client_id, &height, u.consensus_state_commitment)?;
                Ok((u.client_id, height))
            },
        }
    }

    /// Forwards misbehaviour to the light client of `client_id`, which must not
    /// be frozen. Gives the light client's address.
    pub fn misbehaviour(&self, client_id: &ClientId, client: &ClientFacts) -> (r: Result<String, ContractError>)
        ensures
            if client.frozen {
                r == Err::<String, ContractError>(ContractError::IbcClientError { error: ClientError::ClientFrozen { client_id: *client_id } })
            } else if !self@.store.client_implementations.contains_key(client_id@) {
                r == Err::<String, ContractError>(ContractError::IbcClientError { error: ClientError::ClientNotFound { client_id: *client_id } })
            } else {
                r matches Ok(a) && a@ == self@.store.client_implementations[client_id@]
            },
    {
        if client.frozen {
            return Err(ContractError::IbcClientError { error: ClientError::ClientFrozen { client_id: client_id.duplicate() } });
        }
        let light_client = self.get_client(client_id)?;
        Ok(light_client.get_address())
    }

    /// The light client's answer to misbehaviour: a failure fails with its
    /// message, an empty answer fails; otherwise the commitment to the client's
    /// new (frozen) state is stored. Gives the client.
    pub fn execute_misbehaviour_reply(&mut self, reply: Result<Option<MisbehaviourUpdate>, String>, host_height: u64, host_time: u64) -> (r: Result<ClientId, ContractError>)
        ensures
            match reply {
                Err(msg) => final(self)@ == old(self)@ && (r matches Err(ContractError::IbcClientError { error: ClientError::Other { description } }) && description@ == msg@),
                Ok(None) => final(self)@ == old(self)@ && (r matches Err(ContractError::IbcClientError { error: ClientError::Other { description } }) && description@ == "Invalid Response Data"@),
                Ok(Some(u)) => (r matches Ok(id) && id@ == u.client_id@)
                    && final(self)@ == with_client_commitment(old(self)@, u.client_id@, u.client_state_commitment@, host_height, host_time),
            },
    {
        match reply {
            Err(msg) => Err(ContractError::IbcClientError { error: ClientError::Other { description: msg } }),
            Ok(None) => Err(ContractError::IbcClientError { error: ClientError::Other { description: String::from_str("Invalid Response Data") } }),
            Ok(Some(u)) => {
                self.store_client_commitment(&u.client_id, u.client_state_commitment, host_height, host_time)?;
                Ok(u.client_id)
            },
        }
    }
}

} // verus!
