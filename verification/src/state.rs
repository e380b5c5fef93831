//! The state of the host: every map and counter that the handlers read and write.
use vstd::prelude::*;

use crate::ibc_types::{ChannelEnd, ChannelEndView, ConnectionEnd, ConnectionEndView};
use crate::storage_keys::StorageKey;
use crate::store::StoreMap;
use crate::types::{ChannelId, ClientId, ClientType, ConnectionId, ModuleId, PortId};

verus! {

/// When a client was last updated: host height and time.
#[derive(Debug, Clone, Copy, PartialEq, Eq, Structural)]
pub struct LastProcessedOn {
    pub height: u64,
    pub timestamp: u64,
}

impl View for LastProcessedOn {
    type V = LastProcessedOn;

    open spec fn view(&self) -> LastProcessedOn {
        *self
    }
}

/// What the store holds, every key and value taken by its view.
pub struct StoreView {
    pub client_registry: Map<Seq<char>, Seq<char>>,
    pub client_types: Map<Seq<char>, Seq<char>>,
    pub client_states: Map<Seq<char>, Seq<u8>>,
    pub consensus_states: Map<Seq<char>, Seq<u8>>,
    pub client_implementations: Map<Seq<char>, Seq<char>>,
    pub next_sequence_send: Map<(Seq<char>, Seq<char>), u64>,
    pub next_sequence_recv: Map<(Seq<char>, Seq<char>), u64>,
    pub next_sequence_ack: Map<(Seq<char>, Seq<char>), u64>,
    pub next_client_sequence: Option<u64>,
    pub next_connection_sequence: Option<u64>,
    pub next_channel_sequence: Option<u64>,
    pub client_connections: Map<Seq<char>, Seq<char>>,
    pub connections: Map<Seq<char>, ConnectionEndView>,
    pub channels: Map<(Seq<char>, Seq<char>), ChannelEndView>,
    pub port_to_module: Map<Seq<char>, Seq<char>>,
    pub capabilities: Map<Seq<u8>, Seq<String>>,
    pub commitments: Map<Seq<u8>, Seq<u8>>,
    pub expected_time_per_block: Option<u64>,
    pub packet_receipts: Map<(Seq<char>, Seq<char>, u64), u64>,
    pub last_processed_on: Map<Seq<char>, LastProcessedOn>,
    pub callback_data: Map<u64, Seq<u8>>,
}

/// Whether the stores `a` and `b` hold the same in namespace `k` (namespaces
/// that the store does not keep hold the same in every store).
pub open spec fn same_in_namespace(a: StoreView, b: StoreView, k: StorageKey) -> bool {
    match k {
        StorageKey::ClientRegistry => a.client_registry == b.client_registry,
        StorageKey::ClientTypes => a.client_types == b.client_types,
        StorageKey::ClientStates => a.client_states == b.client_states,
        StorageKey::ConsensusStates => a.consensus_states == b.consensus_states,
        StorageKey::ClientImpls => a.client_implementations == b.client_implementations,
        StorageKey::NextSequenceSend => a.next_sequence_send == b.next_sequence_send,
        StorageKey::NextSequenceReceieve => a.next_sequence_recv == b.next_sequence_recv,
        StorageKey::NextSequenceAcknowledgement => a.next_sequence_ack == b.next_sequence_ack,
        StorageKey::NextClientSequence => a.next_client_sequence == b.next_client_sequence,
        StorageKey::NextConnectionSequence => a.next_connection_sequence == b.next_connection_sequence,
        StorageKey::NextChannelSequence => a.next_channel_sequence == b.next_channel_sequence,
        StorageKey::ClientConnection => a.client_connections == b.client_connections,
        StorageKey::Connections => a.connections == b.connections,
        StorageKey::Channels => a.channels == b.channels,
        StorageKey::PortToModule => a.port_to_module == b.port_to_module,
        StorageKey::Capabilities => a.capabilities == b.capabilities,
        StorageKey::Commitments => a.commitments == b.commitments,
        StorageKey::BlockTime => a.expected_time_per_block == b.expected_time_per_block,
        StorageKey::PacketReceipts => a.packet_receipts == b.packet_receipts,
        StorageKey::LastProcessedOn => a.last_processed_on == b.last_processed_on,
        StorageKey::CallbackData => a.callback_data == b.callback_data,
        _ => true,
    }
}

/// The store `s` after a write to namespace `k` alone, which leaves that
/// namespace holding what it holds in `from`.
pub open spec fn with_namespace(s: StoreView, from: StoreView, k: StorageKey) -> StoreView {
    StoreView {
            client_registry: if k == StorageKey::ClientRegistry { from.client_registry } else { s.client_registry },
            client_types: if k == StorageKey::ClientTypes { from.client_types } else { s.client_types },
            client_states: if k == StorageKey::ClientStates { from.client_states } else { s.client_states },
            consensus_states: if k == StorageKey::ConsensusStates { from.consensus_states } else { s.consensus_states },
            client_implementations: if k == StorageKey::ClientImpls { from.client_implementations } else { s.client_implementations },
            next_sequence_send: if k == StorageKey::NextSequenceSend { from.next_sequence_send } else { s.next_sequence_send },
            next_sequence_recv: if k == StorageKey::NextSequenceReceieve { from.next_sequence_recv } else { s.next_sequence_recv },
            next_sequence_ack: if k == StorageKey::NextSequenceAcknowledgement { from.next_sequence_ack } else { s.next_sequence_ack },
            next_client_sequence: if k == StorageKey::NextClientSequence { from.next_client_sequence } else { s.next_client_sequence },
            next_connection_sequence: if k == StorageKey::NextConnectionSequence { from.next_connection_sequence } else { s.next_connection_sequence },
            next_channel_sequence: if k == StorageKey::NextChannelSequence { from.next_channel_sequence } else { s.next_channel_sequence },
            client_connections: if k == StorageKey::ClientConnection { from.client_connections } else { s.client_connections },
            connections: if k == StorageKey::Connections { from.connections } else { s.connections },
            channels: if k == StorageKey::Channels { from.channels } else { s.channels },
            port_to_module: if k == StorageKey::PortToModule { from.port_to_module } else { s.port_to_module },
            capabilities: if k == StorageKey::Capabilities { from.capabilities } else { s.capabilities },
            commitments: if k == StorageKey::Commitments { from.commitments } else { s.commitments },
            expected_time_per_block: if k == StorageKey::BlockTime { from.expected_time_per_block } else { s.expected_time_per_block },
            packet_receipts: if k == StorageKey::PacketReceipts { from.packet_receipts } else { s.packet_receipts },
            last_processed_on: if k == StorageKey::LastProcessedOn { from.last_processed_on } else { s.last_processed_on },
            callback_data: if k == StorageKey::CallbackData { from.callback_data } else { s.callback_data },
    }
}

/// The host's maps and counters.
pub struct CwIbcStore {
    /// Client type to the address of its light-client contract.
    pub client_registry: StoreMap<ClientType, String>,
    pub client_types: StoreMap<ClientId, ClientType>,
    /// Encoded client states, as the light clients hand them back.
    pub client_states: StoreMap<ClientId, Vec<u8>>,
    /// Encoded consensus states, as the light clients hand them back.
    pub consensus_states: StoreMap<ClientId, Vec<u8>>,
    /// Client to the address of the light-client contract that runs it.
    pub client_implementations: StoreMap<ClientId, String>,
    pub next_sequence_send: StoreMap<(PortId, ChannelId), u64>,
    pub next_sequence_recv: StoreMap<(PortId, ChannelId), u64>,
    pub next_sequence_ack: StoreMap<(PortId, ChannelId), u64>,
    pub next_client_sequence: Option<u64>,
    pub next_connection_sequence: Option<u64>,
    pub next_channel_sequence: Option<u64>,
    pub client_connections: StoreMap<ClientId, ConnectionId>,
    pub connections: StoreMap<ConnectionId, ConnectionEnd>,
    pub channels: StoreMap<(PortId, ChannelId), ChannelEnd>,
    pub port_to_module: StoreMap<PortId, ModuleId>,
    /// Capability name to the addresses that hold it.
    pub capabilities: StoreMap<Vec<u8>, Vec<String>>,
    /// Commitment path to committed bytes (packet commitments, receipts,
    /// acknowledgements).
    pub commitments: StoreMap<Vec<u8>, Vec<u8>>,
    /// In seconds.
    pub expected_time_per_block: Option<u64>,
    pub packet_receipts: StoreMap<(PortId, ChannelId, u64), u64>,
    pub last_processed_on: StoreMap<ClientId, LastProcessedOn>,
    pub callback_data: StoreMap<u64, Vec<u8>>,
}

impl View for CwIbcStore {
    type V = StoreView;

    open spec fn view(&self) -> StoreView {
        StoreView {
            client_registry: self.client_registry@,
            client_types: self.client_types@,
            client_states: self.client_states@,
            consensus_states: self.consensus_states@,
            client_implementations: self.client_implementations@,
            next_sequence_send: self.next_sequence_send@,
            next_sequence_recv: self.next_sequence_recv@,
            next_sequence_ack: self.next_sequence_ack@,
            next_client_sequence: self.next_client_sequence,
            next_connection_sequence: self.next_connection_sequence,
            next_channel_sequence: self.next_channel_sequence,
            client_connections: self.client_connections@,
            connections: self.connections@,
            channels: self.channels@,
            port_to_module: self.port_to_module@,
            capabilities: self.capabilities@,
            commitments: self.commitments@,
            expected_time_per_block: self.expected_time_per_block,
            packet_receipts: self.packet_receipts@,
            last_processed_on: self.last_processed_on@,
            callback_data: self.callback_data@,
        }
    }
}

impl CwIbcStore {
    /// An empty store.
    pub fn new() -> (r: CwIbcStore)
        ensures
            r.empty(),
    {
        CwIbcStore {
            client_registry: StoreMap::new(),
            client_types: StoreMap::new(),
            client_states: StoreMap::new(),
            consensus_states: StoreMap::new(),
            client_implementations: StoreMap::new(),
            next_sequence_send: StoreMap::new(),
            next_sequence_recv: StoreMap::new(),
            next_sequence_ack: StoreMap::new(),
            next_client_sequence: None,
            next_connection_sequence: None,
            next_channel_sequence: None,
            client_connections: StoreMap::new(),
            connections: StoreMap::new(),
            channels: StoreMap::new(),
            port_to_module: StoreMap::new(),
            capabilities: StoreMap::new(),
            commitments: StoreMap::new(),
            expected_time_per_block: None,
            packet_receipts: StoreMap::new(),
            last_processed_on: StoreMap::new(),
            callback_data: StoreMap::new(),
        }
    }

    /// Nothing is stored.
    pub open spec fn empty(&self) -> bool {
        &&& self@.client_registry.is_empty()
        &&& self@.client_types.is_empty()
        &&& self@.client_states.is_empty()
        &&& self@.consensus_states.is_empty()
        &&& self@.client_implementations.is_empty()
        &&& self@.next_sequence_send.is_empty()
        &&& self@.next_sequence_recv.is_empty()
        &&& self@.next_sequence_ack.is_empty()
        &&& self@.next_client_sequence is None
        &&& self@.next_connection_sequence is None
        &&& self@.next_channel_sequence is None
        &&& self@.client_connections.is_empty()
        &&& self@.connections.is_empty()
        &&& self@.channels.is_empty()
        &&& self@.port_to_module.is_empty()
        &&& self@.capabilities.is_empty()
        &&& self@.commitments.is_empty()
        &&& self@.expected_time_per_block is None
        &&& self@.packet_receipts.is_empty()
        &&& self@.last_processed_on.is_empty()
        &&& self@.callback_data.is_empty()
    }

    pub fn client_registry(&self) -> (r: &StoreMap<ClientType, String>)
        ensures
            r@ == self.client_registry@,
    {
        &self.client_registry
    }

    pub fn client_types(&self) -> (r: &StoreMap<ClientId, ClientType>)
        ensures
            r@ == self.client_types@,
    {
        &self.client_types
    }

    pub fn client_implementations(&self) -> (r: &StoreMap<ClientId, String>)
        ensures
            r@ == self.client_implementations@,
    {
        &self.client_implementations
    }

    pub fn next_sequence_send(&self) -> (r: &StoreMap<(PortId, ChannelId), u64>)
        ensures
            r@ == self.next_sequence_send@,
    {
        &self.next_sequence_send
    }

    pub fn next_sequence_recv(&self) -> (r: &StoreMap<(PortId, ChannelId), u64>)
        ensures
            r@ == self.next_sequence_recv@,
    {
        &self.next_sequence_recv
    }

    pub fn next_sequence_ack(&self) -> (r: &StoreMap<(PortId, ChannelId), u64>)
        ensures
            r@ == self.next_sequence_ack@,
    {
        &self.next_sequence_ack
    }

    pub fn next_client_sequence(&self) -> (r: Option<u64>)
        ensures
            r == self.next_client_sequence,
    {
        self.next_client_sequence
    }

    pub fn next_connection_sequence(&self) -> (r: Option<u64>)
        ensures
            r == self.next_connection_sequence,
    {
        self.next_connection_sequence
    }

    pub fn next_channel_sequence(&self) -> (r: Option<u64>)
        ensures
            r == self.next_channel_sequence,
    {
        self.next_channel_sequence
    }

    pub fn connections(&self) -> (r: &StoreMap<ConnectionId, ConnectionEnd>)
        ensures
            r@ == self.connections@,
    {
        &self.connections
    }

    pub fn client_connections(&self) -> (r: &StoreMap<ClientId, ConnectionId>)
        ensures
            r@ == self.client_connections@,
    {
        &self.client_connections
    }

    pub fn channels(&self) -> (r: &StoreMap<(PortId, ChannelId), ChannelEnd>)
        ensures
            r@ == self.channels@,
    {
        &self.channels
    }

    pub fn port_to_module(&self) -> (r: &StoreMap<PortId, ModuleId>)
        ensures
            r@ == self.port_to_module@,
    {
        &self.port_to_module
    }

    pub fn capabilities(&self) -> (r: &StoreMap<Vec<u8>, Vec<String>>)
        ensures
            r@ == self.capabilities@,
    {
        &self.capabilities
    }

    pub fn commitments_(&self) -> (r: &StoreMap<Vec<u8>, Vec<u8>>)
        ensures
            r@ == self.commitments@,
    {
        &self.commitments
    }

    pub fn expected_time_per_block(&self) -> (r: Option<u64>)
        ensures
            r == self.expected_time_per_block,
    {
        self.expected_time_per_block
    }

    pub fn packet_receipts(&self) -> (r: &StoreMap<(PortId, ChannelId, u64), u64>)
        ensures
            r@ == self.packet_receipts@,
    {
        &self.packet_receipts
    }

    pub fn last_processed_on(&self) -> (r: &StoreMap<ClientId, LastProcessedOn>)
        ensures
            r@ == self.last_processed_on@,
    {
        &self.last_processed_on
    }

    pub fn client_states(&self) -> (r: &StoreMap<ClientId, Vec<u8>>)
        ensures
            r@ == self.client_states@,
    {
        &self.client_states
    }

    pub fn consensus_states(&self) -> (r: &StoreMap<ClientId, Vec<u8>>)
        ensures
            r@ == self.consensus_states@,
    {
        &self.consensus_states
    }

    pub fn callback_data(&self) -> (r: &StoreMap<u64, Vec<u8>>)
        ensures
            r@ == self.callback_data@,
    {
        &self.callback_data
    }
}

} // verus!
