//! Writing the acknowledgement of a received packet.
use vstd::prelude::*;

use super::receive_packet::channels_have_hops;
use crate::constants::VALIDATE_ON_PACKET_RECEIVE_ON_MODULE;
use crate::context::CwIbcCoreContext;
use crate::encoding::{keccak256, keccak256_digest};
use crate::error::{ChannelError, ContractError, PacketError};
use crate::ibc_types::{strings_view, Order, Packet, State};
use crate::ics24_host::commitment::{ack_commitment_spec, ack_path_spec, compute_ack_commitment};
use crate::state::StoreView;
use crate::types::ConnectionId;

verus! {

/// A written acknowledgement: what its event needs.
#[derive(Debug)]
pub struct WriteAckOutcome {
    pub connection_id: ConnectionId,
    pub ordering: Order,
}

impl CwIbcCoreContext {
    /// Fails exactly when an acknowledgement of the packet is already stored.
    pub fn validate_write_acknowledgement(&self, packet: &Packet) -> (r: Result<(), ContractError>)
        ensures
            r is Ok <==> !self@.store.commitments.contains_key(ack_path_spec(packet@.destination_port, packet@.destination_channel, packet.sequence)),
            r is Err ==> r == Err::<(), ContractError>(ContractError::IbcPacketError { error: PacketError::AcknowledgementExists { sequence: packet.sequence } }),
    {
        if self.get_packet_acknowledgement(&packet.destination_port, &packet.destination_channel, packet.sequence).is_ok() {
            return Err(ContractError::IbcPacketError { error: PacketError::AcknowledgementExists { sequence: packet.sequence } });
        }
        Ok(())
    }

    /// The module bound to the destination port (`caller`) writes `ack` for a
    /// packet it received: the channel must be open and hold no acknowledgement
    /// of the packet yet; the Keccak-256 of `ack` is then stored under the
    /// acknowledgement path. Nothing changes on failure.
    pub fn write_acknowledgement(&mut self, caller: &String, packet: &Packet, ack: &Vec<u8>) -> (r: Result<WriteAckOutcome, ContractError>)
        requires
            channels_have_hops(old(self)@),
            old(self)@.store.capabilities.contains_key(vstd::utf8::encode_utf8(packet@.destination_port)),
        ensures
            ({
                let c = old(self)@;
                let p = packet@;
                let key = (p.destination_port, p.destination_channel);
                let path = ack_path_spec(p.destination_port, p.destination_channel, p.sequence);
                if !strings_view(c.store.capabilities[vstd::utf8::encode_utf8(p.destination_port)]).contains(caller@) {
                    final(self)@ == c && r == Err::<WriteAckOutcome, ContractError>(ContractError::Unauthorized)
                } else if ack@.len() == 0 {
                    final(self)@ == c && r == Err::<WriteAckOutcome, ContractError>(ContractError::IbcPacketError { error: PacketError::InvalidAcknowledgement })
                } else if !c.store.channels.contains_key(key) {
                    final(self)@ == c && (r matches Err(ContractError::IbcChannelError { error: ChannelError::ChannelNotFound { port_id: pp, channel_id: cc } }) && pp@ == p.destination_port && cc@ == p.destination_channel)
                } else if c.store.channels[key].state != State::Open {
                    final(self)@ == c && (r matches Err(ContractError::IbcChannelError { error: ChannelError::InvalidChannelState { channel_id, state } })
                        && channel_id@ == p.destination_channel && state == c.store.channels[key].state)
                } else if c.store.commitments.contains_key(path) {
                    final(self)@ == c && r == Err::<WriteAckOutcome, ContractError>(ContractError::IbcPacketError { error: PacketError::AcknowledgementExists { sequence: p.sequence } })
                } else {
                    &&& r matches Ok(o) && o.connection_id@ == c.store.channels[key].connection_hops[0] && o.ordering == c.store.channels[key].ordering
                    &&& final(self)@ == c.with_store(StoreView {
                        commitments: c.store.commitments.insert(path, keccak256_digest(ack@)),
                        ..c.store
                    })
                }
            }),
    {
        let port_key = crate::encoding::copy_bytes(packet.destination_port.as_bytes());
        if !self.authenticate_capability(caller, &port_key) {
            return Err(ContractError::Unauthorized);
        }
        if ack.len() == 0 {
            return Err(ContractError::IbcPacketError { error: PacketError::InvalidAcknowledgement });
        }
        let channel = self.get_channel_end(&packet.destination_port, &packet.destination_channel)?;
        if channel.state != State::Open {
            return Err(ContractError::IbcChannelError {
                error: ChannelError::InvalidChannelState { channel_id: crate::store::KeyLike::duplicate(&packet.destination_channel), state: channel.state },
            });
        }
        let ack_commitment = keccak256(ack.as_slice());
        self.validate_write_acknowledgement(packet)?;
        self.store_packet_acknowledgement(&packet.destination_port, &packet.destination_channel, packet.sequence, ack_commitment)?;
        Ok(WriteAckOutcome { connection_id: crate::store::KeyLike::duplicate(&channel.connection_hops[0]), ordering: channel.ordering })
    }

    /// The reply of the module to a delivered packet. A failed reply fails with
    /// its message. A successful one forgets the delivered packet's callback
    /// data and, where the module answered with a non-empty acknowledgement,
    /// stores its SHA-256 under the acknowledgement path (the channel must
    /// exist and hold no acknowledgement of the packet yet); it returns what the
    /// event of the written acknowledgement needs, if one was written.
    pub fn execute_receive_packet(&mut self, packet: &Packet, reply: Result<Vec<u8>, String>) -> (r: Result<Option<WriteAckOutcome>, ContractError>)
        requires
            channels_have_hops(old(self)@),
        ensures
            ({
                let c = old(self)@;
                let p = packet@;
                let key = (p.destination_port, p.destination_channel);
                let path = ack_path_spec(p.destination_port, p.destination_channel, p.sequence);
                let cleared = c.with_store(StoreView { callback_data: c.store.callback_data.remove(VALIDATE_ON_PACKET_RECEIVE_ON_MODULE), ..c.store });
                match reply {
                    Err(msg) => final(self)@ == c && (r matches Err(ContractError::IbcContextError { error }) && error@ == msg@),
                    Ok(ack) => if ack@.len() == 0 {
                        final(self)@ == cleared && r matches Ok(None)
                    } else if c.store.commitments.contains_key(path) {
                        final(self)@ == cleared && r == Err::<Option<WriteAckOutcome>, ContractError>(ContractError::IbcPacketError { error: PacketError::AcknowledgementExists { sequence: p.sequence } })
                    } else if !c.store.channels.contains_key(key) {
                        final(self)@ == cleared && (r matches Err(ContractError::IbcChannelError { error: ChannelError::ChannelNotFound { port_id: pp, channel_id: cc } }) && pp@ == p.destination_port && cc@ == p.destination_channel)
                    } else {
                        &&& r matches Ok(Some(o)) && o.connection_id@ == c.store.channels[key].connection_hops[0] && o.ordering == c.store.channels[key].ordering
                        &&& final(self)@ == cleared.with_store(StoreView {
                            commitments: c.store.commitments.insert(path, ack_commitment_spec(ack@)),
                            ..cleared.store
                        })
                    },
                }
            }),
    {
        match reply {
            Err(msg) => Err(ContractError::IbcContextError { error: msg }),
            Ok(ack) => {
                self.clear_callback_data(VALIDATE_ON_PACKET_RECEIVE_ON_MODULE);
                if ack.len() == 0 {
                    return Ok(None);
                }
                self.validate_write_acknowledgement(packet)?;
                let channel_end = self.get_channel_end(&packet.destination_port, &packet.destination_channel)?;
                self.store_packet_acknowledgement(&packet.destination_port, &packet.destination_channel, packet.sequence, compute_ack_commitment(ack.as_slice()))?;
                Ok(Some(WriteAckOutcome { connection_id: crate::store::KeyLike::duplicate(&channel_end.connection_hops[0]), ordering: channel_end.ordering }))
            },
        }
    }
}

} // verus!
