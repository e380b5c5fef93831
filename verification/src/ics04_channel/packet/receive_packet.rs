//! Receiving a packet on its destination channel.
use vstd::prelude::*;

use super::packet_types::{
    height_text, height_to_string, ClientFacts, ConsensusFacts, MsgRecvPacket, PacketView,
    VerifyPacketData,
};
use crate::context::{ContextView, CwIbcCoreContext};
use crate::error::{decode_error, not_found, ChannelError, ContractError, PacketError};
use crate::ibc_types::{
    timeout_expired, ChannelEnd, ChannelEndView, ConnectionEndView, ConnectionState, Height, Order,
    State,
};
use crate::ics04_channel::channel::receipt_ok_bytes;
use crate::ics24_host::commitment::{
    packet_commitment_path, packet_commitment_path_spec, packet_commitment_spec, receipt_path_spec,
};
use crate::ics04_channel::packet::functions::compute_packet_commitment;
use crate::state::StoreView;
use crate::types::{ChannelId, ConnectionId, PortId};

use crate::conversions::{module_packet, module_packet_of, ModulePacket};

verus! {

/// Whether a packet with `sequence` has already been received on a channel, or
/// the error that the check gives: unordered channels look for a receipt,
/// ordered ones compare with the next sequence to receive, which the sequence
/// may not exceed.
pub open spec fn already_received(c: ContextView, chan: ChannelEndView, port: Seq<char>, channel: Seq<char>, sequence: u64) -> Result<bool, Option<u64>> {
    match chan.ordering {
        Order::NoOrder => Ok(false),
        Order::Unordered => Ok(c.store.commitments.get(receipt_path_spec(port, channel, sequence)) == Some(receipt_ok_bytes())),
        Order::Ordered => match c.store.next_sequence_recv.get((port, channel)) {
            None => Err(None),
            Some(next) => if sequence > next {
                Err(Some(next))
            } else {
                Ok(sequence < next)
            },
        },
    }
}

/// How far a packet gets through the checks of the receiving chain, before any
/// proof is looked at.
pub enum RecvStep {
    ChannelMissing,
    ChannelNotOpen { state: State },
    WrongCounterparty,
    NextRecvMissing,
    SequenceAhead { next: u64 },
    AlreadyReceived,
    ConnectionMissing,
    ConnectionNotOpen,
    TimedOut,
    ClientFrozen,
    Proceed { conn: ConnectionEndView },
}

/// The checks of a received packet `p` against the host `c`, with the light
/// client's report on its client state and the host's block height.
pub open spec fn recv_step(c: ContextView, p: PacketView, client: ClientFacts, host_height: u64) -> RecvStep {
    let key = (p.destination_port, p.destination_channel);
    if !c.store.channels.contains_key(key) {
        RecvStep::ChannelMissing
    } else {
        let chan = c.store.channels[key];
        if chan.state != State::Open {
            RecvStep::ChannelNotOpen { state: chan.state }
        } else if !(chan.remote.port_id == p.source_port && chan.remote.channel_id == Some(p.source_channel)) {
            RecvStep::WrongCounterparty
        } else {
            match already_received(c, chan, p.destination_port, p.destination_channel, p.sequence) {
                Err(None) => RecvStep::NextRecvMissing,
                Err(Some(next)) => RecvStep::SequenceAhead { next },
                Ok(true) => RecvStep::AlreadyReceived,
                Ok(false) => {
                    let conn_id = chan.connection_hops[0];
                    if !c.store.connections.contains_key(conn_id) {
                        RecvStep::ConnectionMissing
                    } else {
                        let conn = c.store.connections[conn_id];
                        if conn.state != ConnectionState::Open {
                            RecvStep::ConnectionNotOpen
                        } else if timeout_expired(p.timeout_height, Height { revision_number: 0, revision_height: host_height }) {
                            RecvStep::TimedOut
                        } else if client.frozen {
                            RecvStep::ClientFrozen
                        } else {
                            RecvStep::Proceed { conn }
                        }
                    }
                },
            }
        }
    }
}

/// Every stored channel end names at least one connection.
pub open spec fn channels_have_hops(c: ContextView) -> bool {
    forall|k: (Seq<char>, Seq<char>)| #[trigger] c.store.channels.contains_key(k) ==> c.store.channels[k].connection_hops.len() > 0
}

/// Whether the error `e` is the one that the failing step `s` reports for
/// packet `p`.
pub open spec fn recv_step_error(s: RecvStep, p: PacketView, c: ContextView, client: ClientFacts, host_height: u64, e: ContractError) -> bool {
    match s {
        RecvStep::ChannelMissing => e matches ContractError::IbcChannelError { error: ChannelError::ChannelNotFound { port_id, channel_id } } && port_id@ == p.destination_port && channel_id@ == p.destination_channel,
        RecvStep::ChannelNotOpen { state } => e matches ContractError::IbcChannelError { error: ChannelError::InvalidChannelState { channel_id, state: s2 } } && channel_id@ == p.destination_channel && s2 == state,
        RecvStep::WrongCounterparty => e matches ContractError::IbcPacketError { error: PacketError::InvalidPacketCounterparty { port_id, channel_id } } && port_id@ == p.source_port && channel_id@ == p.source_channel,
        RecvStep::NextRecvMissing => not_found(e, "sequence"@),
        RecvStep::SequenceAhead { next } => e == ContractError::IbcPacketError { error: PacketError::InvalidPacketSequence { given_sequence: p.sequence, next_sequence: next } },
        RecvStep::ConnectionMissing => not_found(e, "connection end"@),
        RecvStep::ConnectionNotOpen => e matches ContractError::IbcPacketError { error: PacketError::ConnectionNotOpen { connection_id } } && connection_id@ == c.store.channels[(p.destination_port, p.destination_channel)].connection_hops[0],
        RecvStep::TimedOut => e == ContractError::IbcPacketError { error: PacketError::LowPacketHeight { chain_height: Height { revision_number: 0, revision_height: host_height }, timeout_height: p.timeout_height } },
        RecvStep::ClientFrozen => e matches ContractError::IbcPacketError { error: PacketError::FrozenClient { client_id } } && client_id@ == c.store.connections[c.store.channels[(p.destination_port, p.destination_channel)].connection_hops[0]].client_id,
        _ => false,
    }
}

/// The request to the light client for a received packet: the commitment that
/// the sending chain must hold under the packet's commitment path, at the proof
/// height, under the counterparty's prefix and the consensus root.
pub open spec fn recv_payload_matches(v: VerifyPacketData, msg: MsgRecvPacket, conn: ConnectionEndView, consensus: ConsensusFacts) -> bool {
    &&& v.height@ == height_text(msg.proof_height)
    &&& v.prefix@ == conn.counterparty.prefix
    &&& v.proof@ == msg.proof_commitment@
    &&& v.root@ == consensus.root@
    &&& v.commitment_path@ == packet_commitment_path_spec(msg.packet@.source_port, msg.packet@.source_channel, msg.packet.sequence)
    &&& v.commitment@ == packet_commitment_spec(msg.packet@.data, msg.packet.timeout_height, msg.packet.timeout_timestamp)
}

/// The host after `p` is received on a channel with `ordering`: unordered
/// channels store a receipt, ordered ones move the next sequence to receive
/// past the packet.
pub open spec fn recv_effect(c: ContextView, p: PacketView, ordering: Order) -> ContextView {
    match ordering {
        Order::Unordered => c.with_store(StoreView {
            commitments: c.store.commitments.insert(receipt_path_spec(p.destination_port, p.destination_channel, p.sequence), receipt_ok_bytes()),
            ..c.store
        }),
        Order::Ordered => c.with_store(StoreView {
            next_sequence_recv: c.store.next_sequence_recv.insert((p.destination_port, p.destination_channel), (p.sequence + 1) as u64),
            ..c.store
        }),
        Order::NoOrder => c,
    }
}

/// What the host does with a received packet once its proof is accepted.
#[derive(Debug)]
pub enum RecvOutcome {
    /// The packet was received before; nothing changes.
    AlreadyReceived,
    /// The packet is handed to the module at `module_address`.
    /// The packet is handed to the module at `module_address`, as `packet`.
    Delivered { module_address: String, connection_id: ConnectionId, ordering: Order, packet: ModulePacket },
}

/// A block at which a packet times out, as modules see it.
#[derive(Debug, Clone, Copy, PartialEq, Eq, Structural)]
pub struct TimeoutBlock {
    pub revision: u64,
    pub height: u64,
}

impl CwIbcCoreContext {
    /// `{revision}-{height}`, the text of a timeout block.
    pub fn timeout_height_to_str(&self, timeout: TimeoutBlock) -> (r: String)
        ensures
            r@ == height_text(Height { revision_number: timeout.revision, revision_height: timeout.height }),
    {
        height_to_string(&Height::new(timeout.revision, timeout.height))
    }

    /// Whether a packet with `sequence` was already received on `channel_end`,
    /// which is the end of `port_id` / `channel_id`.
    pub fn is_packet_already_received(&self, channel_end: &ChannelEnd, port_id: &PortId, channel_id: &ChannelId, sequence: u64) -> (r: Result<bool, ContractError>)
        ensures
            match already_received(self@, channel_end@, port_id@, channel_id@, sequence) {
                Ok(b) => r == Ok::<bool, ContractError>(b),
                Err(None) => r matches Err(e) && not_found(e, "sequence"@),
                Err(Some(next)) => r == Err::<bool, ContractError>(ContractError::IbcPacketError {
                    error: PacketError::InvalidPacketSequence { given_sequence: sequence, next_sequence: next },
                }),
            },
    {
        match channel_end.ordering {
            Order::NoOrder => Ok(false),
            Order::Unordered => {
                let received = self.get_packet_receipt(port_id, channel_id, sequence);
                Ok(received.is_ok())
            },
            Order::Ordered => {
                let next_seq_recv = self.get_next_sequence_recv(port_id, channel_id)?;
                if sequence > next_seq_recv {
                    return Err(ContractError::IbcPacketError {
                        error: PacketError::InvalidPacketSequence { given_sequence: sequence, next_sequence: next_seq_recv },
                    });
                }
                Ok(sequence < next_seq_recv)
            },
        }
    }

    /// The checks of a received packet before its proof: `Ok(None)` where the
    /// packet was already received, otherwise what the light client must verify.
    pub fn receive_packet_proof(&self, msg: &MsgRecvPacket, client: &ClientFacts, consensus: &ConsensusFacts, host_height: u64) -> (r: Result<Option<VerifyPacketData>, ContractError>)
        requires
            channels_have_hops(self@),
        ensures
            match recv_step(self@, msg.packet@, *client, host_height) {
                RecvStep::AlreadyReceived => r matches Ok(None),
                RecvStep::Proceed { conn } => r matches Ok(Some(v)) && recv_payload_matches(v, *msg, conn, *consensus),
                s => r matches Err(e) && recv_step_error(s, msg.packet@, self@, *client, host_height, e),
            },
    {
        let packet = &msg.packet;
        let channel_end = self.get_channel_end(&packet.destination_port, &packet.destination_channel)?;
        if channel_end.state != State::Open {
            return Err(ContractError::IbcChannelError {
                error: ChannelError::InvalidChannelState { channel_id: crate::store::KeyLike::duplicate(&packet.destination_channel), state: channel_end.state },
            });
        }
        if !channel_end.counterparty_matches(&packet.source_port, &packet.source_channel) {
            return Err(ContractError::IbcPacketError {
                error: PacketError::InvalidPacketCounterparty {
                    port_id: crate::store::KeyLike::duplicate(&packet.source_port),
                    channel_id: crate::store::KeyLike::duplicate(&packet.source_channel),
                },
            });
        }
        let already = self.is_packet_already_received(&channel_end, &packet.destination_port, &packet.destination_channel, packet.sequence)?;
        if already {
            return Ok(None);
        }
        proof {
            assert(self@.store.channels.contains_key((msg.packet@.destination_port, msg.packet@.destination_channel)));
        }
        let connection_id = &channel_end.connection_hops[0];
        let connection_end = self.connection_end(connection_id)?;
        if connection_end.state != ConnectionState::Open {
            return Err(ContractError::IbcPacketError {
                error: PacketError::ConnectionNotOpen { connection_id: crate::store::KeyLike::duplicate(connection_id) },
            });
        }
        let latest_height = Height::new(0, host_height);
        if packet.timeout_height.has_expired(&latest_height) {
            return Err(ContractError::IbcPacketError {
                error: PacketError::LowPacketHeight { chain_height: latest_height, timeout_height: packet.timeout_height },
            });
        }
        if client.frozen {
            return Err(ContractError::IbcPacketError {
                error: PacketError::FrozenClient { client_id: crate::store::KeyLike::duplicate(&connection_end.client_id) },
            });
        }
        let commitment = compute_packet_commitment(packet.data.as_slice(), &packet.timeout_height, packet.timeout_timestamp);
        let commitment_path = packet_commitment_path(&packet.source_port, &packet.source_channel, packet.sequence);
        Ok(Some(VerifyPacketData {
            height: height_to_string(&msg.proof_height),
            prefix: crate::encoding::copy_bytes(connection_end.counterparty.prefix.as_slice()),
            proof: crate::encoding::copy_bytes(msg.proof_commitment.as_slice()),
            root: crate::encoding::copy_bytes(consensus.root.as_slice()),
            commitment_path,
            commitment,
        }))
    }

    /// Receives a packet: the checks of [`Self::receive_packet_proof`], the light
    /// client's verdict on the proof, the module bound to the destination port,
    /// and then the receipt (unordered channels) or the next sequence to receive
    /// (ordered channels). Nothing changes on failure or for a packet received
    /// before.
    pub fn validate_receive_packet(&mut self, msg: &MsgRecvPacket, client: &ClientFacts, consensus: &ConsensusFacts, host_height: u64, proof_verified: bool) -> (r: Result<RecvOutcome, ContractError>)
        requires
            channels_have_hops(old(self)@),
            old(self)@.store.channels.get((msg.packet@.destination_port, msg.packet@.destination_channel)) matches Some(c)
                && c.ordering == Order::Ordered
                && old(self)@.store.next_sequence_recv.get((msg.packet@.destination_port, msg.packet@.destination_channel)) == Some(msg.packet.sequence)
                ==> msg.packet.sequence < u64::MAX,
        ensures
            match recv_step(old(self)@, msg.packet@, *client, host_height) {
                RecvStep::AlreadyReceived => final(self)@ == old(self)@ && (r matches Ok(RecvOutcome::AlreadyReceived)),
                RecvStep::Proceed { conn } => {
                    let p = msg.packet@;
                    let chan = old(self)@.store.channels[(p.destination_port, p.destination_channel)];
                    let cap = vstd::utf8::encode_utf8(p.destination_port);
                    if !proof_verified {
                        final(self)@ == old(self)@ && (r matches Err(ContractError::LightClientValidationFailed(t)) && t@ == "packet data"@)
                    } else if !old(self)@.store.capabilities.contains_key(cap) {
                        final(self)@ == old(self)@ && (r matches Err(e) && decode_error(e, "CapabilityNotFound"@))
                    } else if old(self)@.store.capabilities[cap].len() == 0 {
                        final(self)@ == old(self)@ && r == Err::<RecvOutcome, ContractError>(ContractError::Unauthorized)
                    } else {
                        &&& r matches Ok(RecvOutcome::Delivered { module_address, connection_id, ordering, packet })
                            && module_address@ == old(self)@.store.capabilities[cap][0]@
                            && packet@ == module_packet_of(p, false)
                            && connection_id@ == chan.connection_hops[0] && ordering == chan.ordering
                        &&& final(self)@ == recv_effect(old(self)@, p, chan.ordering)
                    }
                },
                s => final(self)@ == old(self)@ && (r matches Err(e) && recv_step_error(s, msg.packet@, old(self)@, *client, host_height, e)),
            },
    {
        let verify = self.receive_packet_proof(msg, client, consensus, host_height)?;
        if verify.is_none() {
            return Ok(RecvOutcome::AlreadyReceived);
        }
        if !proof_verified {
            return Err(ContractError::LightClientValidationFailed(String::from_str("packet data")));
        }
        let packet = &msg.packet;
        let port_key = crate::encoding::copy_bytes(packet.destination_port.as_bytes());
        let holders = self.lookup_modules(&port_key)?;
        proof {
            assert(crate::ibc_types::strings_view(holders@).len() == holders@.len());
            assert(crate::ibc_types::strings_view(self@.store.capabilities[port_key@]).len() == self@.store.capabilities[port_key@].len());
        }
        let channel_end = self.get_channel_end(&packet.destination_port, &packet.destination_channel)?;
        let connection_id = crate::store::KeyLike::duplicate(&channel_end.connection_hops[0]);
        match channel_end.ordering {
            Order::Unordered => {
                self.store_packet_receipt(&packet.destination_port, &packet.destination_channel, packet.sequence)?;
            },
            Order::Ordered => {
                proof {
                    assert(old(self)@.store.next_sequence_recv.get((msg.packet@.destination_port, msg.packet@.destination_channel)) == Some(msg.packet.sequence));
                }
                self.increase_next_sequence_recv(&packet.destination_port, &packet.destination_channel)?;
            },
            Order::NoOrder => {},
        }
        proof {
            assert(crate::ibc_types::strings_view(holders@)[0] == holders@[0]@);
        }
        let module_packet = module_packet(packet, false);
        Ok(RecvOutcome::Delivered { module_address: holders[0].clone(), connection_id, ordering: channel_end.ordering, packet: module_packet })
    }
}

} // verus!
