//! Timing out a sent packet because the counterparty closed the channel.
use vstd::prelude::*;

use super::packet_types::{height_text, height_to_string, unreceived_payload, unreceived_payload_matches, ClientFacts, ConsensusFacts, LightClientPacketMessage, MsgTimeoutOnClose, PacketView, VerifyChannelState};
use super::receive_packet::channels_have_hops;
use crate::context::{ContextView, CwIbcCoreContext};
use crate::error::{decode_error, not_found, ChannelError, ConnectionError, ContractError, PacketError};
use crate::ibc_types::{ChannelEnd, ChannelEndView, ConnectionEndView, Counterparty, CounterpartyView, Order, State};
use crate::ics03_connection::delay::{channel_delay_fits, delay_result};
use crate::ics04_channel::channel::{channel_end_encoding, encode_channel_end};
use crate::ics04_channel::packet::functions::compute_packet_commitment;
use crate::ics24_host::commitment::{channel_path, channel_path_spec, packet_commitment_path_spec, packet_commitment_spec};
use crate::state::StoreView;
use crate::types::ConnectionId;

use crate::conversions::{module_packet, module_packet_of, ModulePacket};

verus! {

/// How far a timeout on close gets through the checks of the sending chain.
pub enum CloseTimeoutStep {
    ChannelMissing,
    WrongCounterparty,
    ConnectionMissing,
    CommitmentMissing,
    CommitmentMismatch,
    ClientFrozen,
    CounterpartyConnectionUnknown,
    LastUpdateMissing,
    DelayNotPassed { error: ConnectionError },
    SequenceBelowNextRecv,
    Proceed { conn: ConnectionEndView },
}

/// The checks of a timeout on close of packet `p`, against the host `c`.
pub open spec fn close_timeout_step(c: ContextView, p: PacketView, client: ClientFacts, next_seq_recv: u64, host_time: u64, host_height: u64) -> CloseTimeoutStep {
    let key = (p.source_port, p.source_channel);
    if !c.store.channels.contains_key(key) {
        CloseTimeoutStep::ChannelMissing
    } else {
        let chan = c.store.channels[key];
        let conn_id = chan.connection_hops[0];
        let path = packet_commitment_path_spec(p.source_port, p.source_channel, p.sequence);
        if !(chan.remote.port_id == p.destination_port && chan.remote.channel_id == Some(p.destination_channel)) {
            CloseTimeoutStep::WrongCounterparty
        } else if !c.store.connections.contains_key(conn_id) {
            CloseTimeoutStep::ConnectionMissing
        } else if !c.store.commitments.contains_key(path) {
            CloseTimeoutStep::CommitmentMissing
        } else if c.store.commitments[path] != packet_commitment_spec(p.data, p.timeout_height, p.timeout_timestamp) {
            CloseTimeoutStep::CommitmentMismatch
        } else if client.frozen {
            CloseTimeoutStep::ClientFrozen
        } else if c.store.connections[conn_id].counterparty.connection_id is None {
            CloseTimeoutStep::CounterpartyConnectionUnknown
        } else {
            let conn = c.store.connections[conn_id];
            match delay_result(c, conn.client_id, conn.delay_period, host_time, host_height) {
                None => CloseTimeoutStep::LastUpdateMissing,
                Some(Some(error)) => CloseTimeoutStep::DelayNotPassed { error },
                Some(None) => if chan.ordering == Order::Ordered && p.sequence < next_seq_recv {
                    CloseTimeoutStep::SequenceBelowNextRecv
                } else {
                    CloseTimeoutStep::Proceed { conn }
                },
            }
        }
    }
}

/// Whether `e` is the error that the failing step `s` reports.
pub open spec fn close_timeout_step_error(s: CloseTimeoutStep, p: PacketView, c: ContextView, next_seq_recv: u64, e: ContractError) -> bool {
    let chan = c.store.channels[(p.source_port, p.source_channel)];
    match s {
        CloseTimeoutStep::ChannelMissing => e matches ContractError::IbcChannelError { error: ChannelError::ChannelNotFound { port_id, channel_id } } && port_id@ == p.source_port && channel_id@ == p.source_channel,
        CloseTimeoutStep::WrongCounterparty => e matches ContractError::IbcPacketError { error: PacketError::InvalidPacketCounterparty { port_id, channel_id } } && port_id@ == p.destination_port && channel_id@ == p.destination_channel,
        CloseTimeoutStep::ConnectionMissing => not_found(e, "connection end"@),
        CloseTimeoutStep::CommitmentMissing => decode_error(e, "PacketCommitmentNotFound"@),
        CloseTimeoutStep::CommitmentMismatch => e == ContractError::IbcPacketError { error: PacketError::IncorrectPacketCommitment { sequence: p.sequence } },
        CloseTimeoutStep::ClientFrozen => e matches ContractError::IbcPacketError { error: PacketError::FrozenClient { client_id } } && client_id@ == c.store.connections[chan.connection_hops[0]].client_id,
        CloseTimeoutStep::CounterpartyConnectionUnknown => e matches ContractError::IbcPacketError { error: PacketError::UndefinedConnectionCounterparty { connection_id } } && connection_id@ == chan.connection_hops[0],
        CloseTimeoutStep::LastUpdateMissing => not_found(e, "last processed on"@),
        CloseTimeoutStep::DelayNotPassed { error } => e == ContractError::IbcConnectionError { error },
        CloseTimeoutStep::SequenceBelowNextRecv => e == ContractError::IbcPacketError { error: PacketError::InvalidPacketSequence { given_sequence: p.sequence, next_sequence: next_seq_recv } },
        CloseTimeoutStep::Proceed { .. } => false,
    }
}

/// The closed channel end that the counterparty must hold: closed, with the
/// same ordering and version, pointing back at the source end, over the
/// counterparty's connection.
pub open spec fn expected_closed_end(chan: ChannelEndView, p: PacketView, conn: ConnectionEndView) -> ChannelEndView {
    ChannelEndView {
        state: State::Closed,
        ordering: chan.ordering,
        remote: CounterpartyView { port_id: p.source_port, channel_id: Some(p.source_channel) },
        connection_hops: seq![conn.counterparty.connection_id.unwrap()],
        version: chan.version,
    }
}

/// The request to the light client for the counterparty's closed channel end.
pub open spec fn close_payload_matches(v: VerifyChannelState, msg: MsgTimeoutOnClose, chan: ChannelEndView, conn: ConnectionEndView, root: Seq<u8>) -> bool {
    &&& v.proof_height@ == height_text(msg.proof_height)
    &&& v.counterparty_prefix@ == conn.counterparty.prefix
    &&& v.proof@ == msg.proof_close@
    &&& v.root@ == root
    &&& v.counterparty_chan_end_path@ == channel_path_spec(msg.packet@.destination_port, msg.packet@.destination_channel)
    &&& v.expected_counterparty_channel_end@ == channel_end_encoding(expected_closed_end(chan, msg.packet@, conn))
    &&& v.client_id@ == conn.client_id
}

/// An accepted timeout on close: the module to tell, and what the event needs.
#[derive(Debug)]
pub struct CloseTimeoutOutcome {
    pub module_address: String,
    pub connection_id: ConnectionId,
    pub ordering: Order,
    /// The packet as the module sees it.
    pub packet: ModulePacket,
}

impl CwIbcCoreContext {
    /// The checks of a timeout on close before its proofs, and what the light
    /// client must then verify: the counterparty's closed channel end and the
    /// absence of the packet there.
    pub fn timeout_on_close_packet_proof(&self, msg: &MsgTimeoutOnClose, client: &ClientFacts, consensus: &ConsensusFacts, host_time: u64, host_height: u64) -> (r: Result<(VerifyChannelState, LightClientPacketMessage), ContractError>)
        requires
            channels_have_hops(self@),
            channel_delay_fits(self@, msg.packet@.source_port, msg.packet@.source_channel),
        ensures
            match close_timeout_step(self@, msg.packet@, *client, msg.next_sequence_recv, host_time, host_height) {
                CloseTimeoutStep::Proceed { conn } => {
                    let chan = self@.store.channels[(msg.packet@.source_port, msg.packet@.source_channel)];
                    r matches Ok((v, u)) && close_payload_matches(v, *msg, chan, conn, consensus.root@)
                        && unreceived_payload_matches(u, chan.ordering, msg.packet@, msg.proof_height, msg.proof_unreceived@, conn, consensus.root@)
                },
                s => r matches Err(e) && close_timeout_step_error(s, msg.packet@, self@, msg.next_sequence_recv, e),
            },
    {
        let packet = &msg.packet;
        let channel_end = self.get_channel_end(&packet.source_port, &packet.source_channel)?;
        if !channel_end.counterparty_matches(&packet.destination_port, &packet.destination_channel) {
            return Err(ContractError::IbcPacketError {
                error: PacketError::InvalidPacketCounterparty {
                    port_id: crate::store::KeyLike::duplicate(&packet.destination_port),
                    channel_id: crate::store::KeyLike::duplicate(&packet.destination_channel),
                },
            });
        }
        proof {
            assert(self@.store.channels.contains_key((msg.packet@.source_port, msg.packet@.source_channel)));
        }
        let connection_id = &channel_end.connection_hops[0];
        let connection_end = self.connection_end(connection_id)?;
        let commitment_on_a = self.get_packet_commitment(&packet.source_port, &packet.source_channel, packet.sequence)?;
        let expected = compute_packet_commitment(packet.data.as_slice(), &packet.timeout_height, packet.timeout_timestamp);
        if !crate::encoding::bytes_eq(commitment_on_a.as_slice(), expected.as_slice()) {
            return Err(ContractError::IbcPacketError {
                error: PacketError::IncorrectPacketCommitment { sequence: packet.sequence },
            });
        }
        if client.frozen {
            return Err(ContractError::IbcPacketError {
                error: PacketError::FrozenClient { client_id: crate::store::KeyLike::duplicate(&connection_end.client_id) },
            });
        }
        let conn_id_on_b = match &connection_end.counterparty.connection_id {
            Some(c) => crate::store::KeyLike::duplicate(c),
            None => {
                return Err(ContractError::IbcPacketError {
                    error: PacketError::UndefinedConnectionCounterparty { connection_id: crate::store::KeyLike::duplicate(connection_id) },
                });
            },
        };
        proof {
            assert(self@.store.connections.contains_key(channel_end@.connection_hops[0]));
        }
        self.verify_connection_delay_passed(host_time, host_height, &connection_end)?;
        if channel_end.ordering == Order::Ordered && packet.sequence < msg.next_sequence_recv {
            return Err(ContractError::IbcPacketError {
                error: PacketError::InvalidPacketSequence { given_sequence: packet.sequence, next_sequence: msg.next_sequence_recv },
            });
        }
        let mut hops: Vec<ConnectionId> = Vec::new();
        hops.push(conn_id_on_b);
        let expected_end = ChannelEnd {
            state: State::Closed,
            ordering: channel_end.ordering,
            remote: Counterparty::new(
                crate::store::KeyLike::duplicate(&packet.source_port),
                Some(crate::store::KeyLike::duplicate(&packet.source_channel)),
            ),
            connection_hops: hops,
            version: channel_end.version.clone(),
        };
        proof {
            assert(expected_end@.connection_hops =~= seq![connection_end@.counterparty.connection_id.unwrap()]);
        }
        let verify_channel_state = VerifyChannelState {
            proof_height: height_to_string(&msg.proof_height),
            counterparty_prefix: crate::encoding::copy_bytes(connection_end.counterparty.prefix.as_slice()),
            proof: crate::encoding::copy_bytes(msg.proof_close.as_slice()),
            root: crate::encoding::copy_bytes(consensus.root.as_slice()),
            counterparty_chan_end_path: channel_path(&packet.destination_port, &packet.destination_channel),
            expected_counterparty_channel_end: encode_channel_end(&expected_end),
            client_id: String::from_str(connection_end.client_id.as_str()),
        };
        let unreceived = unreceived_payload(channel_end.ordering, packet, &msg.proof_height, &msg.proof_unreceived, &connection_end.counterparty.prefix, &consensus.root);
        Ok((verify_channel_state, unreceived))
    }

    /// Accepts a timeout on close: the checks of
    /// [`Self::timeout_on_close_packet_proof`], the light client's verdict on
    /// both proofs and the module bound to the source port; then an ordered
    /// channel is closed. Nothing changes on failure.
    pub fn timeout_on_close_packet_validate_to_light_client(&mut self, msg: &MsgTimeoutOnClose, client: &ClientFacts, consensus: &ConsensusFacts, host_time: u64, host_height: u64, proof_verified: bool) -> (r: Result<CloseTimeoutOutcome, ContractError>)
        requires
            channels_have_hops(old(self)@),
            channel_delay_fits(old(self)@, msg.packet@.source_port, msg.packet@.source_channel),
        ensures
            match close_timeout_step(old(self)@, msg.packet@, *client, msg.next_sequence_recv, host_time, host_height) {
                CloseTimeoutStep::Proceed { conn } => {
                    let p = msg.packet@;
                    let key = (p.source_port, p.source_channel);
                    let chan = old(self)@.store.channels[key];
                    let cap = vstd::utf8::encode_utf8(p.source_port);
                    if !proof_verified {
                        final(self)@ == old(self)@ && (r matches Err(ContractError::LightClientValidationFailed(t)) && t@ == "timeout on close"@)
                    } else if !old(self)@.store.capabilities.contains_key(cap) {
                        final(self)@ == old(self)@ && (r matches Err(e) && decode_error(e, "CapabilityNotFound"@))
                    } else if old(self)@.store.capabilities[cap].len() == 0 {
                        final(self)@ == old(self)@ && r == Err::<CloseTimeoutOutcome, ContractError>(ContractError::Unauthorized)
                    } else {
                        &&& r matches Ok(o) && o.module_address@ == old(self)@.store.capabilities[cap][0]@
                            && o.connection_id@ == chan.connection_hops[0] && o.ordering == chan.ordering
                            && o.packet@ == module_packet_of(p, false)
                        &&& final(self)@ == if chan.ordering == Order::Ordered {
                            old(self)@.with_store(StoreView {
                                channels: old(self)@.store.channels.insert(key, ChannelEndView { state: State::Closed, ..chan }),
                                ..old(self)@.store
                            })
                        } else {
                            old(self)@
                        }
                    }
                },
                s => final(self)@ == old(self)@ && (r matches Err(e) && close_timeout_step_error(s, msg.packet@, old(self)@, msg.next_sequence_recv, e)),
            },
    {
        let _verify = self.timeout_on_close_packet_proof(msg, client, consensus, host_time, host_height)?;
        if !proof_verified {
            return Err(ContractError::LightClientValidationFailed(String::from_str("timeout on close")));
        }
        let packet = &msg.packet;
        let port_key = crate::encoding::copy_bytes(packet.source_port.as_bytes());
        let holders = self.lookup_modules(&port_key)?;
        proof {
            assert(crate::ibc_types::strings_view(holders@).len() == holders@.len());
            assert(crate::ibc_types::strings_view(self@.store.capabilities[port_key@]).len() == self@.store.capabilities[port_key@].len());
            assert(crate::ibc_types::strings_view(holders@)[0] == holders@[0]@);
        }
        let mut channel_end = self.get_channel_end(&packet.source_port, &packet.source_channel)?;
        let connection_id = crate::store::KeyLike::duplicate(&channel_end.connection_hops[0]);
        let ordering = channel_end.ordering;
        if ordering == Order::Ordered {
            channel_end.state = State::Closed;
            self.store_channel_end(&packet.source_port, &packet.source_channel, channel_end)?;
        }
        let module_packet = module_packet(&msg.packet, false);
        Ok(CloseTimeoutOutcome { module_address: holders[0].clone(), connection_id, ordering, packet: module_packet })
    }
}

} // verus!
