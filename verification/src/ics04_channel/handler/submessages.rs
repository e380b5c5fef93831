//! What a module is told at each step of a channel handshake: the channel as
//! the module sees it, from its own end.
use vstd::prelude::*;

use crate::error::{ChannelError, ContractError};
use crate::ibc_types::{ChannelEnd, Order};
use crate::types::{ChannelId, ConnectionId, PortId};

verus! {

/// One end of a channel, by port and channel identifier.
#[derive(Debug)]
pub struct ModuleEndpoint {
    pub port_id: String,
    pub channel_id: String,
}

/// The ordering of a channel as modules see it; it is always known.
#[derive(Debug, Clone, Copy, PartialEq, Eq, Structural)]
pub enum ModuleOrder {
    Unordered,
    Ordered,
}

/// A channel as a module sees it: its own end, the counterparty's end, the
/// ordering, the version and the connection it runs over.
#[derive(Debug)]
pub struct ModuleChannel {
    pub endpoint: ModuleEndpoint,
    pub counterparty_endpoint: ModuleEndpoint,
    pub order: ModuleOrder,
    pub version: String,
    pub connection_id: String,
}

/// A handshake step told to the module of a channel.
#[derive(Debug)]
pub enum ModuleChannelMsg {
    OpenInit { channel: ModuleChannel },
    OpenTry { channel: ModuleChannel, counterparty_version: String },
    OpenAck { channel: ModuleChannel, counterparty_version: String },
    OpenConfirm { channel: ModuleChannel },
    CloseInit { channel: ModuleChannel },
    CloseConfirm { channel: ModuleChannel },
}

/// An identifier that may be unknown, as text: empty when unknown.
pub open spec fn opt_text(o: Option<Seq<char>>) -> Seq<char> {
    match o {
        Some(t) => t,
        None => Seq::empty(),
    }
}

/// The order that modules see for a known channel ordering.
pub open spec fn module_order(o: Order) -> ModuleOrder {
    match o {
        Order::Ordered => ModuleOrder::Ordered,
        _ => ModuleOrder::Unordered,
    }
}

/// `channel` has the given ends, ordering, version and connection.
pub open spec fn module_channel_is(
    channel: ModuleChannel,
    port: Seq<char>,
    chan: Seq<char>,
    cp_port: Seq<char>,
    cp_chan: Seq<char>,
    order: ModuleOrder,
    version: Seq<char>,
    connection: Seq<char>,
) -> bool {
    &&& channel.endpoint.port_id@ == port
    &&& channel.endpoint.channel_id@ == chan
    &&& channel.counterparty_endpoint.port_id@ == cp_port
    &&& channel.counterparty_endpoint.channel_id@ == cp_chan
    &&& channel.order == order
    &&& channel.version@ == version
    &&& channel.connection_id@ == connection
}

fn module_channel(
    port_id: &PortId,
    channel_id: &ChannelId,
    cp_port: &PortId,
    cp_channel: String,
    order: ModuleOrder,
    version: &String,
    connection_id: &ConnectionId,
) -> (r: ModuleChannel)
    ensures
        module_channel_is(r, port_id@, channel_id@, cp_port@, cp_channel@, order, version@, connection_id@),
{
    ModuleChannel {
        endpoint: ModuleEndpoint { port_id: port_id.as_str().to_owned(), channel_id: channel_id.as_str().to_owned() },
        counterparty_endpoint: ModuleEndpoint { port_id: cp_port.as_str().to_owned(), channel_id: cp_channel },
        order,
        version: version.clone(),
        connection_id: connection_id.as_str().to_owned(),
    }
}

fn known_order(o: Order) -> (r: ModuleOrder)
    requires
        o != Order::NoOrder,
    ensures
        r == module_order(o),
{
    match o {
        Order::Ordered => ModuleOrder::Ordered,
        _ => ModuleOrder::Unordered,
    }
}

/// The module is asked to open `channel` on `port_id` / `channel_id`; the
/// counterparty's channel is not known yet (empty).
pub fn on_chan_open_init_submessage(channel: &ChannelEnd, port_id: &PortId, channel_id: &ChannelId, connection_id: &ConnectionId) -> (r: ModuleChannelMsg)
    requires
        channel.ordering != Order::NoOrder,
    ensures
        r matches ModuleChannelMsg::OpenInit { channel: c } && module_channel_is(c, port_id@, channel_id@, channel@.remote.port_id,
            opt_text(channel@.remote.channel_id), module_order(channel.ordering), channel@.version, connection_id@),
{
    let cp = channel.remote.channel_id_text();
    ModuleChannelMsg::OpenInit {
        channel: module_channel(port_id, channel_id, &channel.remote.port_id, cp, known_order(channel.ordering), &channel.version, connection_id),
    }
}

/// The module is asked to answer a channel that the counterparty opened; it
/// is told of an unordered channel and of the version the counterparty asked
/// for.
pub fn on_chan_open_try_submessage(channel: &ChannelEnd, port_id: &PortId, channel_id: &ChannelId, connection_id: &ConnectionId) -> (r: ModuleChannelMsg)
    requires
        channel.remote.channel_id is Some,
    ensures
        r matches ModuleChannelMsg::OpenTry { channel: c, counterparty_version: v } && v@ == channel@.version
            && module_channel_is(c, port_id@, channel_id@, channel@.remote.port_id, channel@.remote.channel_id.unwrap(),
            ModuleOrder::Unordered, channel@.version, connection_id@),
{
    let cp = channel.remote.channel_id_text();
    ModuleChannelMsg::OpenTry {
        channel: module_channel(port_id, channel_id, &channel.remote.port_id, cp, ModuleOrder::Unordered, &channel.version, connection_id),
        counterparty_version: channel.version.clone(),
    }
}

/// Whether `e` is the error of a channel whose ordering is not known.
pub open spec fn unknown_order_error(e: ContractError) -> bool {
    e matches ContractError::IbcChannelError { error: ChannelError::UnknownOrderType { type_id } } && type_id@ == "None"@
}

fn unknown_order() -> (r: ContractError)
    ensures
        unknown_order_error(r),
{
    ContractError::IbcChannelError { error: ChannelError::UnknownOrderType { type_id: String::from_str("None") } }
}

/// The module is told that the counterparty answered its channel; a channel
/// of unknown ordering is refused.
pub fn on_chan_open_ack_submessage(channel_end: &ChannelEnd, port_id: &PortId, channel_id: &ChannelId, connection_id: &ConnectionId) -> (r: Result<ModuleChannelMsg, ContractError>)
    requires
        channel_end.remote.channel_id is Some,
    ensures
        channel_end.ordering == Order::NoOrder ==> (r matches Err(e) && unknown_order_error(e)),
        channel_end.ordering != Order::NoOrder ==> (r matches Ok(ModuleChannelMsg::OpenAck { channel: c, counterparty_version: v })
            && v@ == channel_end@.version
            && module_channel_is(c, port_id@, channel_id@, channel_end@.remote.port_id, channel_end@.remote.channel_id.unwrap(),
            module_order(channel_end.ordering), channel_end@.version, connection_id@)),
{
    if channel_end.ordering == Order::NoOrder {
        return Err(unknown_order());
    }
    let cp = channel_end.remote.channel_id_text();
    Ok(ModuleChannelMsg::OpenAck {
        channel: module_channel(port_id, channel_id, &channel_end.remote.port_id, cp, known_order(channel_end.ordering), &channel_end.version, connection_id),
        counterparty_version: channel_end.version.clone(),
    })
}

/// The module is told that the counterparty confirmed the channel; a channel
/// of unknown ordering is refused.
pub fn on_chan_open_confirm_submessage(channel_end: &ChannelEnd, port_id: &PortId, channel_id: &ChannelId) -> (r: Result<ModuleChannelMsg, ContractError>)
    requires
        channel_end.remote.channel_id is Some,
        channel_end.connection_hops.len() > 0,
    ensures
        channel_end.ordering == Order::NoOrder ==> (r matches Err(e) && unknown_order_error(e)),
        channel_end.ordering != Order::NoOrder ==> (r matches Ok(ModuleChannelMsg::OpenConfirm { channel: c })
            && module_channel_is(c, port_id@, channel_id@, channel_end@.remote.port_id, channel_end@.remote.channel_id.unwrap(),
            module_order(channel_end.ordering), channel_end@.version, channel_end@.connection_hops[0])),
{
    if channel_end.ordering == Order::NoOrder {
        return Err(unknown_order());
    }
    let cp = channel_end.remote.channel_id_text();
    Ok(ModuleChannelMsg::OpenConfirm {
        channel: module_channel(port_id, channel_id, &channel_end.remote.port_id, cp, known_order(channel_end.ordering), &channel_end.version, &channel_end.connection_hops[0]),
    })
}

/// The module is asked to close its channel `port_id` / `channel_id`; it is
/// told of an unordered channel.
pub fn on_chan_close_init_submessage(port_id: &PortId, channel_id: &ChannelId, channel_end: &ChannelEnd, connection_id: &ConnectionId) -> (r: ModuleChannelMsg)
    requires
        channel_end.remote.channel_id is Some,
    ensures
        r matches ModuleChannelMsg::CloseInit { channel: c } && module_channel_is(c, port_id@, channel_id@, channel_end@.remote.port_id,
            channel_end@.remote.channel_id.unwrap(), ModuleOrder::Unordered, channel_end@.version, connection_id@),
{
    let cp = channel_end.remote.channel_id_text();
    ModuleChannelMsg::CloseInit {
        channel: module_channel(port_id, channel_id, &channel_end.remote.port_id, cp, ModuleOrder::Unordered, &channel_end.version, connection_id),
    }
}

/// The module is told that the counterparty closed the channel.
pub fn on_chan_close_confirm_submessage(channel_end: &ChannelEnd, port_id: &PortId, channel_id: &ChannelId) -> (r: Result<ModuleChannelMsg, ContractError>)
    requires
        channel_end.remote.channel_id is Some,
        channel_end.connection_hops.len() > 0,
        channel_end.ordering != Order::NoOrder,
    ensures
        r matches Ok(ModuleChannelMsg::CloseConfirm { channel: c }) && module_channel_is(c, port_id@, channel_id@, channel_end@.remote.port_id,
            channel_end@.remote.channel_id.unwrap(), module_order(channel_end.ordering), channel_end@.version, channel_end@.connection_hops[0]),
{
    let cp = channel_end.remote.channel_id_text();
    Ok(ModuleChannelMsg::CloseConfirm {
        channel: module_channel(port_id, channel_id, &channel_end.remote.port_id, cp, known_order(channel_end.ordering), &channel_end.version, &channel_end.connection_hops[0]),
    })
}

} // verus!
