//! Names of the storage namespaces of the host.
use vstd::prelude::*;

verus! {

/// A storage namespace.
#[derive(Debug, Clone, Copy, PartialEq, Eq, Structural)]
pub enum StorageKey {
    ClientRegistry,
    ClientTypes,
    ClientImpls,
    NextSequenceSend,
    NextSequenceReceieve,
    NextSequenceAcknowledgement,
    NextClientSequence,
    NextConnectionSequence,
    NextChannelSequence,
    Connections,
    ClientConnection,
    Channels,
    Router,
    PortToModule,
    Capabilities,
    Commitments,
    BlockTime,
    PacketReceipts,
    LastProcessedOn,
    ClientStates,
    ConsensusStates,
    CallbackData,
    BlockHeight,
    Owner,
}

/// The name of each namespace.
pub open spec fn storage_key_name(k: StorageKey) -> &'static str {
    match k {
        StorageKey::ClientRegistry => "client_registry",
        StorageKey::ClientTypes => "client_types",
        StorageKey::ClientImpls => "client_impls",
        StorageKey::NextSequenceSend => "next_sequence_send",
        StorageKey::NextSequenceReceieve => "next_sequence_recv",
        StorageKey::NextSequenceAcknowledgement => "next_sequence_ack",
        StorageKey::NextClientSequence => "next_client_sequence",
        StorageKey::NextConnectionSequence => "next_connection_sequence",
        StorageKey::NextChannelSequence => "next_channel_sequence",
        StorageKey::Connections => "connections",
        StorageKey::ClientConnection => "client_connections",
        StorageKey::Channels => "channels",
        StorageKey::Router => "router",
        StorageKey::PortToModule => "port_to_module",
        StorageKey::Capabilities => "capabilities",
        StorageKey::Commitments => "commitments",
        StorageKey::BlockTime => "block_time",
        StorageKey::PacketReceipts => "packet_receipts",
        StorageKey::LastProcessedOn => "last_processed_on",
        StorageKey::ClientStates => "client_states",
        StorageKey::ConsensusStates => "consensus_states",
        StorageKey::CallbackData => "callback_data",
        StorageKey::BlockHeight => "block_height",
        StorageKey::Owner => "owner",
    }
}

/// What tells the namespace names apart: the length of each name and its
/// fourth character from the end.
pub open spec fn name_mark(s: Seq<char>) -> (nat, char) {
    (s.len(), s[s.len() - 4])
}

/// The mark of each namespace name.
pub open spec fn mark_of(k: StorageKey) -> (nat, char) {
    match k {
        StorageKey::ClientRegistry => (15, 's'),
        StorageKey::ClientTypes => (12, 'y'),
        StorageKey::ClientImpls => (12, 'm'),
        StorageKey::NextSequenceSend => (18, 's'),
        StorageKey::NextSequenceReceieve => (18, 'r'),
        StorageKey::NextSequenceAcknowledgement => (17, '_'),
        StorageKey::NextClientSequence => (20, 'e'),
        StorageKey::NextConnectionSequence => (24, 'e'),
        StorageKey::NextChannelSequence => (21, 'e'),
        StorageKey::Connections => (11, 'i'),
        StorageKey::ClientConnection => (18, 'i'),
        StorageKey::Channels => (8, 'n'),
        StorageKey::Router => (6, 'u'),
        StorageKey::PortToModule => (14, 'd'),
        StorageKey::Capabilities => (12, 't'),
        StorageKey::Commitments => (11, 'e'),
        StorageKey::BlockTime => (10, 't'),
        StorageKey::PacketReceipts => (15, 'i'),
        StorageKey::LastProcessedOn => (17, 'd'),
        StorageKey::ClientStates => (13, 'a'),
        StorageKey::ConsensusStates => (16, 'a'),
        StorageKey::CallbackData => (13, 'd'),
        StorageKey::BlockHeight => (12, 'i'),
        StorageKey::Owner => (5, 'w'),
    }
}

proof fn lemma_name_mark(k: StorageKey)
    ensures
        name_mark(storage_key_name(k)@) == mark_of(k),
{
    match k {
        StorageKey::ClientRegistry => reveal_strlit("client_registry"),
        StorageKey::ClientTypes => reveal_strlit("client_types"),
        StorageKey::ClientImpls => reveal_strlit("client_impls"),
        StorageKey::NextSequenceSend => reveal_strlit("next_sequence_send"),
        StorageKey::NextSequenceReceieve => reveal_strlit("next_sequence_recv"),
        StorageKey::NextSequenceAcknowledgement => reveal_strlit("next_sequence_ack"),
        StorageKey::NextClientSequence => reveal_strlit("next_client_sequence"),
        StorageKey::NextConnectionSequence => reveal_strlit("next_connection_sequence"),
        StorageKey::NextChannelSequence => reveal_strlit("next_channel_sequence"),
        StorageKey::Connections => reveal_strlit("connections"),
        StorageKey::ClientConnection => reveal_strlit("client_connections"),
        StorageKey::Channels => reveal_strlit("channels"),
        StorageKey::Router => reveal_strlit("router"),
        StorageKey::PortToModule => reveal_strlit("port_to_module"),
        StorageKey::Capabilities => reveal_strlit("capabilities"),
        StorageKey::Commitments => reveal_strlit("commitments"),
        StorageKey::BlockTime => reveal_strlit("block_time"),
        StorageKey::PacketReceipts => reveal_strlit("packet_receipts"),
        StorageKey::LastProcessedOn => reveal_strlit("last_processed_on"),
        StorageKey::ClientStates => reveal_strlit("client_states"),
        StorageKey::ConsensusStates => reveal_strlit("consensus_states"),
        StorageKey::CallbackData => reveal_strlit("callback_data"),
        StorageKey::BlockHeight => reveal_strlit("block_height"),
        StorageKey::Owner => reveal_strlit("owner"),
    }
}

/// Each namespace has a name of its own: two different namespaces never
/// share a name, so what is stored in one is never read through another.
pub proof fn law_storage_keys_distinct(k1: StorageKey, k2: StorageKey)
    requires
        k1 != k2,
    ensures
        storage_key_name(k1)@ != storage_key_name(k2)@,
{
    lemma_name_mark(k1);
    lemma_name_mark(k2);
}

impl StorageKey {
    pub fn as_str(&self) -> (r: &'static str)
        ensures
            r@ == storage_key_name(*self)@,
    {
        match self {
            StorageKey::ClientRegistry => "client_registry",
            StorageKey::ClientTypes => "client_types",
            StorageKey::ClientImpls => "client_impls",
            StorageKey::NextSequenceSend => "next_sequence_send",
            StorageKey::NextSequenceReceieve => "next_sequence_recv",
            StorageKey::NextSequenceAcknowledgement => "next_sequence_ack",
            StorageKey::NextClientSequence => "next_client_sequence",
            StorageKey::NextConnectionSequence => "next_connection_sequence",
            StorageKey::NextChannelSequence => "next_channel_sequence",
            StorageKey::Connections => "connections",
            StorageKey::ClientConnection => "client_connections",
            StorageKey::Channels => "channels",
            StorageKey::Router => "router",
            StorageKey::PortToModule => "port_to_module",
            StorageKey::Capabilities => "capabilities",
            StorageKey::Commitments => "commitments",
            StorageKey::BlockTime => "block_time",
            StorageKey::PacketReceipts => "packet_receipts",
            StorageKey::LastProcessedOn => "last_processed_on",
            StorageKey::ClientStates => "client_states",
            StorageKey::ConsensusStates => "consensus_states",
            StorageKey::CallbackData => "callback_data",
            StorageKey::BlockHeight => "block_height",
            StorageKey::Owner => "owner",
        }
    }
}

} // verus!
