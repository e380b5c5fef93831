//! Timing out a sent packet that the counterparty did not receive in time.
use vstd::prelude::*;

use super::packet_types::{
    unreceived_payload, unreceived_payload_matches, ConsensusFacts, LightClientPacketMessage,
    MsgTimeout, PacketView,
};
use super::receive_packet::channels_have_hops;
use crate::context::{ContextView, CwIbcCoreContext};
use crate::error::{decode_error, not_found, ChannelError, ConnectionError, ContractError, PacketError};
use crate::ibc_types::{timeout_expired, ChannelEndView, ConnectionEndView, Height, Order, State};
use crate::ics03_connection::delay::{channel_delay_fits, delay_result};
use crate::ics04_channel::packet::functions::compute_packet_commitment;
use crate::ics24_host::commitment::{packet_commitment_path_spec, packet_commitment_spec};
use crate::state::StoreView;
use crate::types::ConnectionId;

use crate::conversions::{module_packet, module_packet_of, ModulePacket};

verus! {

/// How far a timeout gets through the checks of the sending chain, before
/// its proof is looked at.
pub enum TimeoutStep {
    ChannelMissing,
    ChannelNotOpen,
    WrongCounterparty,
    ConnectionMissing,
    CommitmentMissing,
    CommitmentMismatch,
    HeightNotReached,
    LastUpdateMissing,
    DelayNotPassed { error: ConnectionError },
    SequenceBelowNextRecv,
    Proceed { conn: ConnectionEndView },
}

/// The checks of a timeout of packet `p` at `proof_height`, against the host
/// `c`, where the counterparty reports `next_seq_recv`.
pub open spec fn timeout_step(c: ContextView, p: PacketView, proof_height: Height, next_seq_recv: u64, host_time: u64, host_height: u64) -> TimeoutStep {
    let key = (p.source_port, p.source_channel);
    if !c.store.channels.contains_key(key) {
        TimeoutStep::ChannelMissing
    } else {
        let chan = c.store.channels[key];
        let conn_id = chan.connection_hops[0];
        let path = packet_commitment_path_spec(p.source_port, p.source_channel, p.sequence);
        if chan.state != State::Open {
            TimeoutStep::ChannelNotOpen
        } else if !(chan.remote.port_id == p.destination_port && chan.remote.channel_id == Some(p.destination_channel)) {
            TimeoutStep::WrongCounterparty
        } else if !c.store.connections.contains_key(conn_id) {
            TimeoutStep::ConnectionMissing
        } else if !c.store.commitments.contains_key(path) {
            TimeoutStep::CommitmentMissing
        } else if c.store.commitments[path] != packet_commitment_spec(p.data, p.timeout_height, p.timeout_timestamp) {
            TimeoutStep::CommitmentMismatch
        } else if !timeout_expired(p.timeout_height, proof_height) {
            TimeoutStep::HeightNotReached
        } else {
            let conn = c.store.connections[conn_id];
            match delay_result(c, conn.client_id, conn.delay_period, host_time, host_height) {
                None => TimeoutStep::LastUpdateMissing,
                Some(Some(error)) => TimeoutStep::DelayNotPassed { error },
                Some(None) => if chan.ordering == Order::Ordered && p.sequence < next_seq_recv {
                    TimeoutStep::SequenceBelowNextRecv
                } else {
                    TimeoutStep::Proceed { conn }
                },
            }
        }
    }
}

/// Whether `e` is the error that the failing step `s` reports.
pub open spec fn timeout_step_error(s: TimeoutStep, p: PacketView, proof_height: Height, next_seq_recv: u64, e: ContractError) -> bool {
    match s {
        TimeoutStep::ChannelMissing => e matches ContractError::IbcChannelError { error: ChannelError::ChannelNotFound { port_id, channel_id } } && port_id@ == p.source_port && channel_id@ == p.source_channel,
        TimeoutStep::ChannelNotOpen => e matches ContractError::IbcPacketError { error: PacketError::ChannelClosed { channel_id } } && channel_id@ == p.source_channel,
        TimeoutStep::WrongCounterparty => e matches ContractError::IbcPacketError { error: PacketError::InvalidPacketCounterparty { port_id, channel_id } } && port_id@ == p.destination_port && channel_id@ == p.destination_channel,
        TimeoutStep::ConnectionMissing => not_found(e, "connection end"@),
        TimeoutStep::CommitmentMissing => decode_error(e, "PacketCommitmentNotFound"@),
        TimeoutStep::CommitmentMismatch => e == ContractError::IbcPacketError { error: PacketError::IncorrectPacketCommitment { sequence: p.sequence } },
        TimeoutStep::HeightNotReached => e == ContractError::IbcPacketError { error: PacketError::PacketTimeoutHeightNotReached { timeout_height: p.timeout_height, chain_height: proof_height } },
        TimeoutStep::LastUpdateMissing => not_found(e, "last processed on"@),
        TimeoutStep::DelayNotPassed { error } => e == ContractError::IbcConnectionError { error },
        TimeoutStep::SequenceBelowNextRecv => e == ContractError::IbcPacketError { error: PacketError::InvalidPacketSequence { given_sequence: p.sequence, next_sequence: next_seq_recv } },
        TimeoutStep::Proceed { .. } => false,
    }
}

/// The host after the timeout of `p` sent on the channel end `chan`: the
/// packet's commitment is gone and an ordered channel is closed.
pub open spec fn timeout_effect(c: ContextView, p: PacketView, chan: ChannelEndView) -> ContextView {
    c.with_store(StoreView {
        commitments: c.store.commitments.remove(packet_commitment_path_spec(p.source_port, p.source_channel, p.sequence)),
        channels: if chan.ordering == Order::Ordered {
            c.store.channels.insert((p.source_port, p.source_channel), ChannelEndView { state: State::Closed, ..chan })
        } else {
            c.store.channels
        },
        ..c.store
    })
}

/// An accepted timeout: the module to tell, and what the event needs.
#[derive(Debug)]
pub struct TimeoutOutcome {
    pub module_address: String,
    pub connection_id: ConnectionId,
    pub ordering: Order,
    /// The packet as the module sees it.
    pub packet: ModulePacket,
}

impl CwIbcCoreContext {
    /// The checks of a timeout before its proof, and what the light client must
    /// then verify.
    pub fn timeout_packet_proof(&self, msg: &MsgTimeout, consensus: &ConsensusFacts, host_time: u64, host_height: u64) -> (r: Result<LightClientPacketMessage, ContractError>)
        requires
            channels_have_hops(self@),
            channel_delay_fits(self@, msg.packet@.source_port, msg.packet@.source_channel),
        ensures
            match timeout_step(self@, msg.packet@, msg.proof_height, msg.next_sequence_recv, host_time, host_height) {
                TimeoutStep::Proceed { conn } => r matches Ok(v) && unreceived_payload_matches(
                    v, self@.store.channels[(msg.packet@.source_port, msg.packet@.source_channel)].ordering,
                    msg.packet@, msg.proof_height, msg.proof_unreceived@, conn, consensus.root@),
                s => r matches Err(e) && timeout_step_error(s, msg.packet@, msg.proof_height, msg.next_sequence_recv, e),
            },
    {
        let packet = &msg.packet;
        let channel_end = self.get_channel_end(&packet.source_port, &packet.source_channel)?;
        if channel_end.state != State::Open {
            return Err(ContractError::IbcPacketError {
                error: PacketError::ChannelClosed { channel_id: crate::store::KeyLike::duplicate(&packet.source_channel) },
            });
        }
        if !channel_end.counterparty_matches(&packet.destination_port, &packet.destination_channel) {
            return Err(ContractError::IbcPacketError {
                error: PacketError::InvalidPacketCounterparty {
                    port_id: crate::store::KeyLike::duplicate(&packet.destination_port),
                    channel_id: crate::store::KeyLike::duplicate(&packet.destination_channel),
                },
            });
        }
        proof {
            assert(self@.store.channels.contains_key((msg.packet@.source_port, msg.packet@.source_channel)));
        }
        let connection_end = self.connection_end(&channel_end.connection_hops[0])?;
        let commitment_on_a = self.get_packet_commitment(&packet.source_port, &packet.source_channel, packet.sequence)?;
        let expected = compute_packet_commitment(packet.data.as_slice(), &packet.timeout_height, packet.timeout_timestamp);
        if !crate::encoding::bytes_eq(commitment_on_a.as_slice(), expected.as_slice()) {
            return Err(ContractError::IbcPacketError {
                error: PacketError::IncorrectPacketCommitment { sequence: packet.sequence },
            });
        }
        if !packet.timeout_height.has_expired(&msg.proof_height) {
            return Err(ContractError::IbcPacketError {
                error: PacketError::PacketTimeoutHeightNotReached { timeout_height: packet.timeout_height, chain_height: msg.proof_height },
            });
        }
        proof {
            assert(self@.store.connections.contains_key(channel_end@.connection_hops[0]));
        }
        self.verify_connection_delay_passed(host_time, host_height, &connection_end)?;
        if channel_end.ordering == Order::Ordered && packet.sequence < msg.next_sequence_recv {
            return Err(ContractError::IbcPacketError {
                error: PacketError::InvalidPacketSequence { given_sequence: packet.sequence, next_sequence: msg.next_sequence_recv },
            });
        }
        Ok(unreceived_payload(channel_end.ordering, packet, &msg.proof_height, &msg.proof_unreceived, &connection_end.counterparty.prefix, &consensus.root))
    }

    /// Accepts a timeout: the checks of [`Self::timeout_packet_proof`], the light
    /// client's verdict and the module bound to the source port; then the
    /// packet's commitment is deleted and an ordered channel is closed. Nothing
    /// changes on failure.
    pub fn timeout_packet_validate_to_light_client(&mut self, msg: &MsgTimeout, consensus: &ConsensusFacts, host_time: u64, host_height: u64, proof_verified: bool) -> (r: Result<TimeoutOutcome, ContractError>)
        requires
            channels_have_hops(old(self)@),
            channel_delay_fits(old(self)@, msg.packet@.source_port, msg.packet@.source_channel),
        ensures
            match timeout_step(old(self)@, msg.packet@, msg.proof_height, msg.next_sequence_recv, host_time, host_height) {
                TimeoutStep::Proceed { conn } => {
                    let p = msg.packet@;
                    let key = (p.source_port, p.source_channel);
                    let chan = old(self)@.store.channels[key];
                    let cap = vstd::utf8::encode_utf8(p.source_port);
                    if !proof_verified {
                        final(self)@ == old(self)@ && (r matches Err(ContractError::LightClientValidationFailed(t)) && t@ == "packet timeout"@)
                    } else if !old(self)@.store.capabilities.contains_key(cap) {
                        final(self)@ == old(self)@ && (r matches Err(e) && decode_error(e, "CapabilityNotFound"@))
                    } else if old(self)@.store.capabilities[cap].len() == 0 {
                        final(self)@ == old(self)@ && r == Err::<TimeoutOutcome, ContractError>(ContractError::Unauthorized)
                    } else {
                        &&& r matches Ok(o) && o.module_address@ == old(self)@.store.capabilities[cap][0]@
                            && o.connection_id@ == chan.connection_hops[0] && o.ordering == chan.ordering
                            && o.packet@ == module_packet_of(p, false)
                        &&& final(self)@ == timeout_effect(old(self)@, p, chan)
                    }
                },
                s => final(self)@ == old(self)@ && (r matches Err(e) && timeout_step_error(s, msg.packet@, msg.proof_height, msg.next_sequence_recv, e)),
            },
    {
        let _verify = self.timeout_packet_proof(msg, consensus, host_time, host_height)?;
        if !proof_verified {
            return Err(ContractError::LightClientValidationFailed(String::from_str("packet timeout")));
        }
        let packet = &msg.packet;
        let port_key = crate::encoding::copy_bytes(packet.source_port.as_bytes());
        let holders = self.lookup_modules(&port_key)?;
        proof {
            assert(crate::ibc_types::strings_view(holders@).len() == holders@.len());
            assert(crate::ibc_types::strings_view(self@.store.capabilities[port_key@]).len() == self@.store.capabilities[port_key@].len());
            assert(crate::ibc_types::strings_view(holders@)[0] == holders@[0]@);
        }
        let mut channel_end = self.get_channel_end(&packet.source_port, &packet.source_channel)?;
        let connection_id = crate::store::KeyLike::duplicate(&channel_end.connection_hops[0]);
        let ordering = channel_end.ordering;
        self.delete_packet_commitment(&packet.source_port, &packet.source_channel, packet.sequence)?;
        if ordering == Order::Ordered {
            channel_end.state = State::Closed;
            self.store_channel_end(&packet.source_port, &packet.source_channel, channel_end)?;
        }
        let module_packet = module_packet(&msg.packet, false);
        Ok(TimeoutOutcome { module_address: holders[0].clone(), connection_id, ordering, packet: module_packet })
    }
}

} // verus!
