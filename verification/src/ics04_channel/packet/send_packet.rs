//! Sending a packet from its source channel.
use vstd::prelude::*;

use super::packet_types::{ClientFacts, PacketView};
use super::receive_packet::channels_have_hops;
use crate::context::{ContextView, CwIbcCoreContext};
use crate::error::{not_found, ChannelError, ContractError, PacketError};
use crate::ibc_types::{strings_view, timeout_expired, timestamp_expired, Order, Packet, State};
use crate::ics04_channel::packet::functions::compute_packet_commitment;
use crate::ics24_host::commitment::{packet_commitment_path_spec, packet_commitment_spec};
use crate::state::StoreView;
use crate::types::ConnectionId;

verus! {

/// How far a packet gets through the checks of the sending chain.
pub enum SendStep {
    Unauthorized,
    ChannelMissing,
    ChannelNotOpen { state: State },
    WrongCounterparty,
    ConnectionMissing,
    ClientFrozen,
    TimedOutHeight,
    TimedOutTimestamp,
    NextSendMissing,
    WrongSequence { next: u64 },
    Proceed,
}

/// The checks of a packet `p` that `caller` sends, against the host `c`, with
/// the light client's report on the counterparty's client state and the
/// timestamp of its consensus state at the latest height.
pub open spec fn send_step(c: ContextView, caller: Seq<char>, p: PacketView, client: ClientFacts, consensus_timestamp: u64) -> SendStep {
    let key = (p.source_port, p.source_channel);
    let cap = vstd::utf8::encode_utf8(p.source_port);
    if !strings_view(c.store.capabilities[cap]).contains(caller) {
        SendStep::Unauthorized
    } else if !c.store.channels.contains_key(key) {
        SendStep::ChannelMissing
    } else {
        let chan = c.store.channels[key];
        if chan.state != State::Open {
            SendStep::ChannelNotOpen { state: chan.state }
        } else if !(chan.remote.port_id == p.destination_port && chan.remote.channel_id == Some(p.destination_channel)) {
            SendStep::WrongCounterparty
        } else if !c.store.connections.contains_key(chan.connection_hops[0]) {
            SendStep::ConnectionMissing
        } else if client.frozen {
            SendStep::ClientFrozen
        } else if timeout_expired(p.timeout_height, client.latest_height) {
            SendStep::TimedOutHeight
        } else if timestamp_expired(consensus_timestamp, p.timeout_timestamp) {
            SendStep::TimedOutTimestamp
        } else {
            match c.store.next_sequence_send.get(key) {
                None => SendStep::NextSendMissing,
                Some(next) => if p.sequence != next {
                    SendStep::WrongSequence { next }
                } else {
                    SendStep::Proceed
                },
            }
        }
    }
}

/// Whether `e` is the error that the failing step `s` reports.
pub open spec fn send_step_error(s: SendStep, p: PacketView, c: ContextView, client: ClientFacts, e: ContractError) -> bool {
    match s {
        SendStep::Unauthorized => e == ContractError::Unauthorized,
        SendStep::ChannelMissing => e matches ContractError::IbcChannelError { error: ChannelError::ChannelNotFound { port_id, channel_id } } && port_id@ == p.source_port && channel_id@ == p.source_channel,
        SendStep::ChannelNotOpen { state } => e matches ContractError::IbcPacketError { error: PacketError::InvalidChannelState { channel_id, state: s2 } } && channel_id@ == p.source_channel && s2 == state,
        SendStep::WrongCounterparty => e matches ContractError::IbcPacketError { error: PacketError::InvalidPacketCounterparty { port_id, channel_id } } && port_id@ == p.destination_port && channel_id@ == p.destination_channel,
        SendStep::ConnectionMissing => not_found(e, "connection end"@),
        SendStep::ClientFrozen => e matches ContractError::IbcPacketError { error: PacketError::FrozenClient { client_id } } && client_id@ == c.store.connections[c.store.channels[(p.source_port, p.source_channel)].connection_hops[0]].client_id,
        SendStep::TimedOutHeight => e == ContractError::IbcPacketError { error: PacketError::LowPacketHeight { chain_height: client.latest_height, timeout_height: p.timeout_height } },
        SendStep::TimedOutTimestamp => e == ContractError::IbcPacketError { error: PacketError::LowPacketTimestamp },
        SendStep::NextSendMissing => not_found(e, "sequence"@),
        SendStep::WrongSequence { next } => e == ContractError::IbcPacketError { error: PacketError::InvalidPacketSequence { given_sequence: p.sequence, next_sequence: next } },
        SendStep::Proceed => false,
    }
}

/// The host after `p` is sent at host height `height`: the next sequence to
/// send is one past the packet's, the packet's commitment is stored under its
/// path, and the height of the send is recorded for the packet.
pub open spec fn send_effect(c: ContextView, p: PacketView, height: u64) -> ContextView {
    c.with_store(StoreView {
        next_sequence_send: c.store.next_sequence_send.insert((p.source_port, p.source_channel), (p.sequence + 1) as u64),
        commitments: c.store.commitments.insert(
            packet_commitment_path_spec(p.source_port, p.source_channel, p.sequence),
            packet_commitment_spec(p.data, p.timeout_height, p.timeout_timestamp),
        ),
        packet_receipts: c.store.packet_receipts.insert((p.source_port, p.source_channel, p.sequence), height),
        ..c.store
    })
}

/// What a sent packet leaves for the event of the send.
#[derive(Debug)]
pub struct SendOutcome {
    pub connection_id: ConnectionId,
    pub ordering: Order,
}

impl CwIbcCoreContext {
    /// Sends `packet` on behalf of `caller`, which must hold the capability of
    /// the source port, at host height `block_height`: after the checks of
    /// [`send_step`], the next sequence to send goes up by one, the packet's
    /// commitment is stored under its commitment path and the height of the
    /// send is recorded. Nothing changes on failure.
    pub fn send_packet(&mut self, caller: &String, packet: &Packet, client: &ClientFacts, consensus_timestamp: u64, block_height: u64) -> (r: Result<SendOutcome, ContractError>)
        requires
            channels_have_hops(old(self)@),
            old(self)@.store.capabilities.contains_key(vstd::utf8::encode_utf8(packet@.source_port)),
            old(self)@.store.next_sequence_send.get((packet@.source_port, packet@.source_channel)) == Some(packet.sequence) ==> packet.sequence < u64::MAX,
        ensures
            match send_step(old(self)@, caller@, packet@, *client, consensus_timestamp) {
                SendStep::Proceed => {
                    let p = packet@;
                    let chan = old(self)@.store.channels[(p.source_port, p.source_channel)];
                    &&& r matches Ok(o) && o.connection_id@ == chan.connection_hops[0] && o.ordering == chan.ordering
                    &&& final(self)@ == send_effect(old(self)@, p, block_height)
                },
                s => final(self)@ == old(self)@ && (r matches Err(e) && send_step_error(s, packet@, old(self)@, *client, e)),
            },
    {
        let port_key = crate::encoding::copy_bytes(packet.source_port.as_bytes());
        if !self.authenticate_capability(caller, &port_key) {
            return Err(ContractError::Unauthorized);
        }
        let channel_end = self.get_channel_end(&packet.source_port, &packet.source_channel)?;
        if channel_end.state != State::Open {
            return Err(ContractError::IbcPacketError {
                error: PacketError::InvalidChannelState { channel_id: crate::store::KeyLike::duplicate(&packet.source_channel), state: channel_end.state },
            });
        }
        if !channel_end.counterparty_matches(&packet.destination_port, &packet.destination_channel) {
            return Err(ContractError::IbcPacketError {
                error: PacketError::InvalidPacketCounterparty {
                    port_id: crate::store::KeyLike::duplicate(&packet.destination_port),
                    channel_id: crate::store::KeyLike::duplicate(&packet.destination_channel),
                },
            });
        }
        proof {
            assert(self@.store.channels.contains_key((packet@.source_port, packet@.source_channel)));
        }
        let connection_id = crate::store::KeyLike::duplicate(&channel_end.connection_hops[0]);
        let connection_end = self.connection_end(&connection_id)?;
        if client.frozen {
            return Err(ContractError::IbcPacketError {
                error: PacketError::FrozenClient { client_id: crate::store::KeyLike::duplicate(&connection_end.client_id) },
            });
        }
        let latest_height = client.latest_height;
        if packet.timeout_height.has_expired(&latest_height) {
            return Err(ContractError::IbcPacketError {
                error: PacketError::LowPacketHeight { chain_height: latest_height, timeout_height: packet.timeout_height },
            });
        }
        if consensus_timestamp != 0 && packet.timeout_timestamp != 0 && consensus_timestamp > packet.timeout_timestamp {
            return Err(ContractError::IbcPacketError { error: PacketError::LowPacketTimestamp });
        }
        let next_seq_send = self.get_next_sequence_send(&packet.source_port, &packet.source_channel)?;
        if packet.sequence != next_seq_send {
            return Err(ContractError::IbcPacketError {
                error: PacketError::InvalidPacketSequence { given_sequence: packet.sequence, next_sequence: next_seq_send },
            });
        }
        self.increase_next_sequence_send(&packet.source_port, &packet.source_channel)?;
        let commitment = compute_packet_commitment(packet.data.as_slice(), &packet.timeout_height, packet.timeout_timestamp);
        self.store_packet_commitment(&packet.source_port, &packet.source_channel, packet.sequence, commitment)?;
        self.store_sent_packet(&packet.source_port, &packet.source_channel, packet.sequence, block_height)?;
        Ok(SendOutcome { connection_id, ordering: channel_end.ordering })
    }
}

} // verus!
