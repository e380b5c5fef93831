//! Acknowledging a sent packet on its source channel.
use vstd::prelude::*;

use super::packet_types::{
    height_text, height_to_string, ClientFacts, ConsensusFacts, MsgAcknowledgement, PacketView,
    VerifyPacketAcknowledgement,
};
use super::receive_packet::channels_have_hops;
use crate::context::{ContextView, CwIbcCoreContext};
use crate::error::{decode_error, not_found, ChannelError, ConnectionError, ContractError, PacketError};
use crate::ibc_types::{ConnectionEndView, ConnectionState, Order, State};
use crate::ics03_connection::delay::{channel_delay_fits, delay_result};
use crate::ics04_channel::packet::functions::compute_packet_commitment;
use crate::ics24_host::commitment::{
    ack_path_spec, acknowledgement_commitment_path, packet_commitment_path_spec,
    packet_commitment_spec,
};
use crate::state::StoreView;
use crate::types::ConnectionId;

use crate::conversions::{module_packet, module_packet_of, ModulePacket};

verus! {

/// How far an acknowledgement gets through the checks of the sending chain,
/// before its proof is looked at.
pub enum AckStep {
    ChannelMissing,
    ChannelNotOpen,
    WrongCounterparty,
    ConnectionMissing,
    ConnectionNotOpen,
    CommitmentMissing,
    CommitmentMismatch,
    NextAckMissing,
    WrongSequence { next: u64 },
    ClientFrozen,
    LastUpdateMissing,
    DelayNotPassed { error: ConnectionError },
    Proceed { conn: ConnectionEndView },
}

/// The checks of an acknowledgement of packet `p`, against the host `c`.
pub open spec fn ack_step(c: ContextView, p: PacketView, client: ClientFacts, host_time: u64, host_height: u64) -> AckStep {
    let key = (p.source_port, p.source_channel);
    if !c.store.channels.contains_key(key) {
        AckStep::ChannelMissing
    } else {
        let chan = c.store.channels[key];
        let conn_id = chan.connection_hops[0];
        let path = packet_commitment_path_spec(p.source_port, p.source_channel, p.sequence);
        if chan.state != State::Open {
            AckStep::ChannelNotOpen
        } else if !(chan.remote.port_id == p.destination_port && chan.remote.channel_id == Some(p.destination_channel)) {
            AckStep::WrongCounterparty
        } else if !c.store.connections.contains_key(conn_id) {
            AckStep::ConnectionMissing
        } else if c.store.connections[conn_id].state != ConnectionState::Open {
            AckStep::ConnectionNotOpen
        } else if !c.store.commitments.contains_key(path) {
            AckStep::CommitmentMissing
        } else if c.store.commitments[path] != packet_commitment_spec(p.data, p.timeout_height, p.timeout_timestamp) {
            AckStep::CommitmentMismatch
        } else if chan.ordering == Order::Ordered && !c.store.next_sequence_ack.contains_key(key) {
            AckStep::NextAckMissing
        } else if chan.ordering == Order::Ordered && c.store.next_sequence_ack[key] != p.sequence {
            AckStep::WrongSequence { next: c.store.next_sequence_ack[key] }
        } else if client.frozen {
            AckStep::ClientFrozen
        } else {
            let conn = c.store.connections[conn_id];
            match delay_result(c, conn.client_id, conn.delay_period, host_time, host_height) {
                None => AckStep::LastUpdateMissing,
                Some(Some(error)) => AckStep::DelayNotPassed { error },
                Some(None) => AckStep::Proceed { conn },
            }
        }
    }
}

/// Whether `e` is the error that the failing step `s` reports.
pub open spec fn ack_step_error(s: AckStep, p: PacketView, c: ContextView, e: ContractError) -> bool {
    let chan = c.store.channels[(p.source_port, p.source_channel)];
    match s {
        AckStep::ChannelMissing => e matches ContractError::IbcChannelError { error: ChannelError::ChannelNotFound { port_id, channel_id } } && port_id@ == p.source_port && channel_id@ == p.source_channel,
        AckStep::ChannelNotOpen => e matches ContractError::IbcPacketError { error: PacketError::ChannelClosed { channel_id } } && channel_id@ == p.source_channel,
        AckStep::WrongCounterparty => e matches ContractError::IbcPacketError { error: PacketError::InvalidPacketCounterparty { port_id, channel_id } } && port_id@ == p.destination_port && channel_id@ == p.destination_channel,
        AckStep::ConnectionMissing => not_found(e, "connection end"@),
        AckStep::ConnectionNotOpen => e matches ContractError::IbcPacketError { error: PacketError::ConnectionNotOpen { connection_id } } && connection_id@ == chan.connection_hops[0],
        AckStep::CommitmentMissing => decode_error(e, "PacketCommitmentNotFound"@),
        AckStep::CommitmentMismatch => e == ContractError::IbcPacketError { error: PacketError::IncorrectPacketCommitment { sequence: p.sequence } },
        AckStep::NextAckMissing => not_found(e, "sequence"@),
        AckStep::WrongSequence { next } => e == ContractError::IbcPacketError { error: PacketError::InvalidPacketSequence { given_sequence: p.sequence, next_sequence: next } },
        AckStep::ClientFrozen => e matches ContractError::IbcPacketError { error: PacketError::FrozenClient { client_id } } && client_id@ == c.store.connections[chan.connection_hops[0]].client_id,
        AckStep::LastUpdateMissing => not_found(e, "last processed on"@),
        AckStep::DelayNotPassed { error } => e == ContractError::IbcConnectionError { error },
        AckStep::Proceed { .. } => false,
    }
}

/// What the light client must verify of an acknowledgement: that the
/// receiving chain holds it under the acknowledgement path of the packet.
pub open spec fn ack_payload_matches(v: VerifyPacketAcknowledgement, msg: MsgAcknowledgement, conn: ConnectionEndView, consensus: ConsensusFacts) -> bool {
    &&& v.height@ == height_text(msg.proof_height)
    &&& v.prefix@ == conn.counterparty.prefix
    &&& v.proof@ == msg.proof_acked@
    &&& v.root@ == consensus.root@
    &&& v.ack_path@ == ack_path_spec(msg.packet@.destination_port, msg.packet@.destination_channel, msg.packet.sequence)
    &&& v.ack@ == msg.acknowledgement@
}

/// The host after the acknowledgement of `p` on a channel with `ordering`:
/// the packet's commitment is gone, the height recorded for its send is
/// reset to zero and, on ordered channels, the next sequence to acknowledge is
/// one past the packet's.
pub open spec fn ack_effect(c: ContextView, p: PacketView, ordering: Order) -> ContextView {
    c.with_store(StoreView {
        commitments: c.store.commitments.remove(packet_commitment_path_spec(p.source_port, p.source_channel, p.sequence)),
        packet_receipts: c.store.packet_receipts.insert((p.source_port, p.source_channel, p.sequence), 0),
        next_sequence_ack: if ordering == Order::Ordered {
            c.store.next_sequence_ack.insert((p.source_port, p.source_channel), (p.sequence + 1) as u64)
        } else {
            c.store.next_sequence_ack
        },
        ..c.store
    })
}

/// An accepted acknowledgement: the module to hand it to, and what the event
/// of the acknowledgement needs.
#[derive(Debug)]
pub struct AckOutcome {
    pub module_address: String,
    pub connection_id: ConnectionId,
    pub ordering: Order,
    /// The packet as the module sees it.
    pub packet: ModulePacket,
}

impl CwIbcCoreContext {
    /// The checks of an acknowledgement before its proof, and what the light
    /// client must then verify.
    pub fn acknowledgement_packet_proof(&self, msg: &MsgAcknowledgement, client: &ClientFacts, consensus: &ConsensusFacts, host_time: u64, host_height: u64) -> (r: Result<VerifyPacketAcknowledgement, ContractError>)
        requires
            channels_have_hops(self@),
            channel_delay_fits(self@, msg.packet@.source_port, msg.packet@.source_channel),
        ensures
            match ack_step(self@, msg.packet@, *client, host_time, host_height) {
                AckStep::Proceed { conn } => r matches Ok(v) && ack_payload_matches(v, *msg, conn, *consensus),
                s => r matches Err(e) && ack_step_error(s, msg.packet@, self@, e),
            },
    {
        let packet = &msg.packet;
        let channel_end = self.get_channel_end(&packet.source_port, &packet.source_channel)?;
        if channel_end.state != State::Open {
            return Err(ContractError::IbcPacketError {
                error: PacketError::ChannelClosed { channel_id: crate::store::KeyLike::duplicate(&packet.source_channel) },
            });
        }
        if !channel_end.counterparty_matches(&packet.destination_port, &packet.destination_channel) {
            return Err(ContractError::IbcPacketError {
                error: PacketError::InvalidPacketCounterparty {
                    port_id: crate::store::KeyLike::duplicate(&packet.destination_port),
                    channel_id: crate::store::KeyLike::duplicate(&packet.destination_channel),
                },
            });
        }
        proof {
            assert(self@.store.channels.contains_key((msg.packet@.source_port, msg.packet@.source_channel)));
        }
        let connection_id = &channel_end.connection_hops[0];
        let connection_end = self.connection_end(connection_id)?;
        if connection_end.state != ConnectionState::Open {
            return Err(ContractError::IbcPacketError {
                error: PacketError::ConnectionNotOpen { connection_id: crate::store::KeyLike::duplicate(connection_id) },
            });
        }
        let commitment_on_a = self.get_packet_commitment(&packet.source_port, &packet.source_channel, packet.sequence)?;
        let computed = compute_packet_commitment(packet.data.as_slice(), &packet.timeout_height, packet.timeout_timestamp);
        if !crate::encoding::bytes_eq(commitment_on_a.as_slice(), computed.as_slice()) {
            return Err(ContractError::IbcPacketError {
                error: PacketError::IncorrectPacketCommitment { sequence: packet.sequence },
            });
        }
        if channel_end.ordering == Order::Ordered {
            let next_seq_ack = self.get_next_sequence_ack(&packet.source_port, &packet.source_channel)?;
            if packet.sequence != next_seq_ack {
                return Err(ContractError::IbcPacketError {
                    error: PacketError::InvalidPacketSequence { given_sequence: packet.sequence, next_sequence: next_seq_ack },
                });
            }
        }
        if client.frozen {
            return Err(ContractError::IbcPacketError {
                error: PacketError::FrozenClient { client_id: crate::store::KeyLike::duplicate(&connection_end.client_id) },
            });
        }
        proof {
            assert(self@.store.connections.contains_key(channel_end@.connection_hops[0]));
        }
        self.verify_connection_delay_passed(host_time, host_height, &connection_end)?;
        Ok(VerifyPacketAcknowledgement {
            height: height_to_string(&msg.proof_height),
            prefix: crate::encoding::copy_bytes(connection_end.counterparty.prefix.as_slice()),
            proof: crate::encoding::copy_bytes(msg.proof_acked.as_slice()),
            root: crate::encoding::copy_bytes(consensus.root.as_slice()),
            ack_path: acknowledgement_commitment_path(&packet.destination_port, &packet.destination_channel, packet.sequence),
            ack: crate::encoding::copy_bytes(msg.acknowledgement.as_slice()),
        })
    }

    /// Accepts an acknowledgement: the checks of
    /// [`Self::acknowledgement_packet_proof`], the light client's verdict, the
    /// module bound to the source port; then the packet's commitment is deleted
    /// and, on ordered channels, the next sequence to acknowledge goes up by one.
    /// Nothing changes on failure.
    pub fn acknowledgement_packet_validate(&mut self, msg: &MsgAcknowledgement, client: &ClientFacts, consensus: &ConsensusFacts, host_time: u64, host_height: u64, proof_verified: bool) -> (r: Result<AckOutcome, ContractError>)
        requires
            channels_have_hops(old(self)@),
            channel_delay_fits(old(self)@, msg.packet@.source_port, msg.packet@.source_channel),
            old(self)@.store.channels.get((msg.packet@.source_port, msg.packet@.source_channel)) matches Some(c)
                && c.ordering == Order::Ordered
                && old(self)@.store.next_sequence_ack.get((msg.packet@.source_port, msg.packet@.source_channel)) == Some(msg.packet.sequence)
                ==> msg.packet.sequence < u64::MAX,
        ensures
            match ack_step(old(self)@, msg.packet@, *client, host_time, host_height) {
                AckStep::Proceed { conn } => {
                    let p = msg.packet@;
                    let chan = old(self)@.store.channels[(p.source_port, p.source_channel)];
                    let cap = vstd::utf8::encode_utf8(p.source_port);
                    if !proof_verified {
                        final(self)@ == old(self)@ && (r matches Err(ContractError::LightClientValidationFailed(t)) && t@ == "packet acknowledgement"@)
                    } else if !old(self)@.store.capabilities.contains_key(cap) {
                        final(self)@ == old(self)@ && (r matches Err(e) && decode_error(e, "CapabilityNotFound"@))
                    } else if old(self)@.store.capabilities[cap].len() == 0 {
                        final(self)@ == old(self)@ && r == Err::<AckOutcome, ContractError>(ContractError::Unauthorized)
                    } else {
                        &&& r matches Ok(o) && o.module_address@ == old(self)@.store.capabilities[cap][0]@
                            && o.connection_id@ == chan.connection_hops[0] && o.ordering == chan.ordering
                            && o.packet@ == module_packet_of(p, true)
                        &&& final(self)@ == ack_effect(old(self)@, p, chan.ordering)
                    }
                },
                s => final(self)@ == old(self)@ && (r matches Err(e) && ack_step_error(s, msg.packet@, old(self)@, e)),
            },
    {
        let _verify = self.acknowledgement_packet_proof(msg, client, consensus, host_time, host_height)?;
        if !proof_verified {
            return Err(ContractError::LightClientValidationFailed(String::from_str("packet acknowledgement")));
        }
        let packet = &msg.packet;
        let port_key = crate::encoding::copy_bytes(packet.source_port.as_bytes());
        let holders = self.lookup_modules(&port_key)?;
        proof {
            assert(crate::ibc_types::strings_view(holders@).len() == holders@.len());
            assert(crate::ibc_types::strings_view(self@.store.capabilities[port_key@]).len() == self@.store.capabilities[port_key@].len());
            assert(crate::ibc_types::strings_view(holders@)[0] == holders@[0]@);
        }
        let channel_end = self.get_channel_end(&packet.source_port, &packet.source_channel)?;
        let connection_id = crate::store::KeyLike::duplicate(&channel_end.connection_hops[0]);
        self.delete_packet_commitment(&packet.source_port, &packet.source_channel, packet.sequence)?;
        self.store_sent_packet(&packet.source_port, &packet.source_channel, packet.sequence, 0)?;
        if channel_end.ordering == Order::Ordered {
            self.increase_next_sequence_ack(&packet.source_port, &packet.source_channel)?;
        }
        let module_packet = module_packet(&msg.packet, true);
        Ok(AckOutcome { module_address: holders[0].clone(), connection_id, ordering: channel_end.ordering, packet: module_packet })
    }
}

} // verus!
