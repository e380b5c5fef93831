//! Ports bound to modules, and the capabilities of modules over them.
use vstd::prelude::*;

use crate::context::CwIbcCoreContext;
use crate::error::{decode_error, ContractError, PortError};
use crate::ibc_types::{strings_view, Packet};
use crate::ics24_host::commitment::{path_bytes, port_channel_suffix};
use crate::state::StoreView;
use crate::store::KeyLike;
use crate::types::{ChannelId, ModuleId, PortId};

verus! {

/// A channel handshake message, by the port that it acts on.
#[derive(Debug)]
pub enum ChannelMsg {
    OpenInit { port_id_on_a: PortId },
    OpenTry { port_id_on_b: PortId },
    OpenAck { port_id_on_a: PortId },
    OpenConfirm { port_id_on_b: PortId },
    CloseInit { port_id_on_a: PortId },
    CloseConfirm { port_id_on_b: PortId },
}

/// A packet message, with its packet.
#[derive(Debug)]
pub enum PacketMsg {
    Recv { packet: Packet },
    Ack { packet: Packet },
    Timeout { packet: Packet },
    TimeoutOnClose { packet: Packet },
}

/// The port that a channel message acts on.
pub open spec fn channel_msg_port(msg: ChannelMsg) -> Seq<char> {
    match msg {
        ChannelMsg::OpenInit { port_id_on_a } => port_id_on_a@,
        ChannelMsg::OpenTry { port_id_on_b } => port_id_on_b@,
        ChannelMsg::OpenAck { port_id_on_a } => port_id_on_a@,
        ChannelMsg::OpenConfirm { port_id_on_b } => port_id_on_b@,
        ChannelMsg::CloseInit { port_id_on_a } => port_id_on_a@,
        ChannelMsg::CloseConfirm { port_id_on_b } => port_id_on_b@,
    }
}

/// The port that a packet message acts on: the destination of a received
/// packet, the source otherwise.
pub open spec fn packet_msg_port(msg: PacketMsg) -> Seq<char> {
    match msg {
        PacketMsg::Recv { packet } => packet.destination_port@,
        PacketMsg::Ack { packet } => packet.source_port@,
        PacketMsg::Timeout { packet } => packet.source_port@,
        PacketMsg::TimeoutOnClose { packet } => packet.source_port@,
    }
}

/// `ports/{port}/channels/{channel}`, as bytes.
pub open spec fn channel_capability_path_spec(port: Seq<char>, channel: Seq<char>) -> Seq<u8> {
    path_bytes(port_channel_suffix(port, channel))
}

impl CwIbcCoreContext {
    /// The module bound to `port_id`.
    pub fn lookup_module_by_port(&self, port_id: &PortId) -> (r: Result<ModuleId, ContractError>)
        ensures
            match r {
                Ok(m) => self@.store.port_to_module.contains_key(port_id@) && m@ == self@.store.port_to_module[port_id@],
                Err(e) => !self@.store.port_to_module.contains_key(port_id@)
                    && e == ContractError::IbcPortError { error: PortError::UnknownPort { port_id: *port_id } },
            },
    {
        match self.store.port_to_module.get(port_id) {
            Some(m) => Ok(m.duplicate()),
            None => Err(ContractError::IbcPortError { error: PortError::UnknownPort { port_id: port_id.duplicate() } }),
        }
    }

    /// Binds `port_id` to `module_id`.
    pub fn store_module_by_port(&mut self, port_id: PortId, module_id: ModuleId) -> (r: Result<(), ContractError>)
        ensures
            r is Ok,
            final(self)@ == old(self)@.with_store(StoreView {
                port_to_module: old(self)@.store.port_to_module.insert(port_id@, module_id@),
                ..old(self)@.store
            }),
    {
        self.store.port_to_module.insert(port_id, module_id);
        Ok(())
    }

    /// The module bound to the port that a channel message acts on.
    pub fn lookup_module_channel(&self, msg: &ChannelMsg) -> (r: Result<ModuleId, ContractError>)
        ensures
            match r {
                Ok(m) => self@.store.port_to_module.contains_key(channel_msg_port(*msg)) && m@ == self@.store.port_to_module[channel_msg_port(*msg)],
                Err(e) => !self@.store.port_to_module.contains_key(channel_msg_port(*msg))
                    && (e matches ContractError::IbcPortError { error: PortError::UnknownPort { port_id } } && port_id@ == channel_msg_port(*msg)),
            },
    {
        let port_id = match msg {
            ChannelMsg::OpenInit { port_id_on_a } => port_id_on_a,
            ChannelMsg::OpenTry { port_id_on_b } => port_id_on_b,
            ChannelMsg::OpenAck { port_id_on_a } => port_id_on_a,
            ChannelMsg::OpenConfirm { port_id_on_b } => port_id_on_b,
            ChannelMsg::CloseInit { port_id_on_a } => port_id_on_a,
            ChannelMsg::CloseConfirm { port_id_on_b } => port_id_on_b,
        };
        self.lookup_module_by_port(port_id)
    }

    /// The module bound to the port that a packet message acts on.
    pub fn lookup_module_packet(&self, msg: &PacketMsg) -> (r: Result<ModuleId, ContractError>)
        ensures
            match r {
                Ok(m) => self@.store.port_to_module.contains_key(packet_msg_port(*msg)) && m@ == self@.store.port_to_module[packet_msg_port(*msg)],
                Err(e) => !self@.store.port_to_module.contains_key(packet_msg_port(*msg))
                    && (e matches ContractError::IbcPortError { error: PortError::UnknownPort { port_id } } && port_id@ == packet_msg_port(*msg)),
            },
    {
        let port_id = match msg {
            PacketMsg::Recv { packet } => &packet.destination_port,
            PacketMsg::Ack { packet } => &packet.source_port,
            PacketMsg::Timeout { packet } => &packet.source_port,
            PacketMsg::TimeoutOnClose { packet } => &packet.source_port,
        };
        self.lookup_module_by_port(port_id)
    }

    /// `address` claims the capability of `port_id` (which must exist and not be
    /// held by `address` yet).
    pub fn bind_port(&mut self, port_id: &PortId, address: String) -> (r: Result<(), ContractError>)
        ensures
            ({
                let name = vstd::utf8::encode_utf8(port_id@);
                let c = old(self)@;
                if !c.store.capabilities.contains_key(name) {
                    final(self)@ == c && (r matches Err(e) && decode_error(e, "KeyNotFound"@))
                } else if strings_view(c.store.capabilities[name]).contains(address@) {
                    final(self)@ == c && (r matches Err(ContractError::IbcContextError { error }) && error@ == "Capability already claimed"@)
                } else {
                    r is Ok && strings_view(final(self)@.store.capabilities[name]) == strings_view(c.store.capabilities[name]).push(address@)
                        && final(self)@.store.capabilities.dom() == c.store.capabilities.dom()
                        && (forall|k: Seq<u8>| k != name ==> #[trigger] final(self)@.store.capabilities[k] == c.store.capabilities[k])
                        && final(self)@ == c.with_store(StoreView { capabilities: final(self)@.store.capabilities, ..c.store })
                }
            }),
    {
        let name = crate::encoding::copy_bytes(port_id.as_bytes());
        self.claim_capability(name, address)
    }

    /// The capability path of a channel: `ports/{port}/channels/{channel}`.
    pub fn channel_capability_path(&self, port_id: &PortId, channel_id: &ChannelId) -> (r: Vec<u8>)
        ensures
            r@ == channel_capability_path_spec(port_id@, channel_id@),
    {
        let s = String::from_str("ports/").concat(port_id.as_str()).concat("/channels/").concat(channel_id.as_str());
        assert(s@ =~= port_channel_suffix(port_id@, channel_id@));
        crate::encoding::copy_bytes(s.as_str().as_bytes())
    }
}

} // verus!
