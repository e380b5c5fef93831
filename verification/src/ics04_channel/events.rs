//! Events of channels and packets.
use vstd::prelude::*;

use crate::encoding::{decimal, hex_encode, hex_text, u64_to_decimal};
use crate::error::ContractError;
use crate::event::{event_type_name, Event, EventView, IbcEventType};
use crate::ibc_types::{order_name, ChannelEnd, ChannelEndView, Order, Packet, TimeoutHeight};
use crate::ics04_channel::packet::packet_types::{height_text, height_to_string, PacketView};
use crate::types::{ChannelId, ConnectionId};

verus! {

/// Whether the channel event of this kind names the counterparty's channel.
pub open spec fn names_counterparty_channel(t: IbcEventType) -> bool {
    t == IbcEventType::OpenTryChannel || t == IbcEventType::CloseInitChannel || t == IbcEventType::CloseConfirmChannel
        || t == IbcEventType::OpenAckChannel || t == IbcEventType::OpenConfirmChannel
}

/// The attributes of a channel event.
pub open spec fn channel_event_attributes(t: IbcEventType, port_id: Seq<char>, channel_id: Seq<char>, chan: ChannelEndView) -> Seq<(Seq<char>, Seq<char>)> {
    let base = seq![
        ("port_id"@, port_id),
        ("channel_id"@, channel_id),
        ("counterparty_port_id"@, chan.remote.port_id),
        ("connection_id"@, chan.connection_hops[0]),
        ("version"@, chan.version),
    ];
    if names_counterparty_channel(t) {
        base.push(("counterparty_channel_id"@, chan.remote.channel_id.unwrap()))
    } else {
        base
    }
}

/// The event of a step of the channel handshake; other kinds of event are
/// refused.
pub fn create_channel_event(event_type: IbcEventType, port_id: &str, channel_id: &str, channel: &ChannelEnd) -> (r: Result<Event, ContractError>)
    requires
        channel@.connection_hops.len() > 0,
        names_counterparty_channel(event_type) ==> channel@.remote.channel_id is Some,
    ensures
        if event_type == IbcEventType::OpenInitChannel || names_counterparty_channel(event_type) {
            r matches Ok(e) && e@ == (EventView { ty: event_type_name(event_type)@, attributes: channel_event_attributes(event_type, port_id@, channel_id@, channel@) })
        } else {
            r matches Err(ContractError::InvalidEventType { event, event_type: t }) && event@ == "Channel Event"@
                && t@ == event_type_name(event_type)@
        },
{
    let event = Event::new(event_type.as_str())
        .add_attribute("port_id", String::from_str(port_id))
        .add_attribute("channel_id", String::from_str(channel_id))
        .add_attribute("counterparty_port_id", String::from_str(channel.remote.port_id.as_str()))
        .add_attribute("connection_id", String::from_str(channel.connection_hops[0].as_str()))
        .add_attribute("version", channel.version.clone());
    match event_type {
        IbcEventType::OpenInitChannel => {
            assert(event@.attributes =~= channel_event_attributes(event_type, port_id@, channel_id@, channel@));
            Ok(event)
        },
        IbcEventType::OpenTryChannel | IbcEventType::CloseInitChannel | IbcEventType::CloseConfirmChannel
        | IbcEventType::OpenAckChannel | IbcEventType::OpenConfirmChannel => {
            let cp = match &channel.remote.channel_id {
                Some(c) => String::from_str(c.as_str()),
                None => String::new(),
            };
            let event = event.add_attribute("counterparty_channel_id", cp);
            assert(event@.attributes =~= channel_event_attributes(event_type, port_id@, channel_id@, channel@));
            Ok(event)
        },
        _ => Err(ContractError::InvalidEventType {
            event: String::from_str("Channel Event"),
            event_type: String::from_str(event_type.as_str()),
        }),
    }
}

/// A channel identifier was generated.
pub fn create_channel_id_generated_event(channel_id: &ChannelId) -> (r: Event)
    ensures
        r@ == (EventView { ty: "channel_id_created"@, attributes: seq![("channel_id"@, channel_id@)] }),
{
    let r = Event::new("channel_id_created").add_attribute("channel_id", String::from_str(channel_id.as_str()));
    assert(r@.attributes =~= seq![("channel_id"@, channel_id@)]);
    r
}

/// The text of a timeout height: `{revision}-{height}`, or `0-0` for none.
pub open spec fn timeout_text(t: TimeoutHeight) -> Seq<char> {
    match t {
        TimeoutHeight::Never => seq!['0', '-', '0'],
        TimeoutHeight::At(h) => height_text(h),
    }
}

/// The attributes of a packet event.
pub open spec fn packet_event_attributes(p: PacketView, ordering: Order, connection_id: Seq<char>) -> Seq<(Seq<char>, Seq<char>)> {
    seq![
        ("packet_sequence"@, decimal(p.sequence as nat)),
        ("packet_src_port"@, p.source_port),
        ("packet_src_channel"@, p.source_channel),
        ("packet_dst_port"@, p.destination_port),
        ("packet_dst_channel"@, p.destination_channel),
        ("packet_channel_ordering"@, order_name(ordering)),
        ("packet_connection"@, connection_id),
        ("packet_timeout_height"@, timeout_text(p.timeout_height)),
        ("packet_timeout_timestamp"@, decimal(p.timeout_timestamp as nat)),
        ("packet_data_hex"@, hex_text(p.data)),
    ]
}

/// Whether a packet event of this kind is known.
pub open spec fn is_packet_event(t: IbcEventType) -> bool {
    t == IbcEventType::SendPacket || t == IbcEventType::ReceivePacket || t == IbcEventType::AckPacket
        || t == IbcEventType::Timeout || t == IbcEventType::WriteAck
}

/// The event of a packet; a written acknowledgement also carries the
/// acknowledgement and, again, the data. Other kinds of event are refused.
pub fn create_packet_event(event_type: IbcEventType, packet: &Packet, channel_order: Order, connection_id: &ConnectionId, ack: Option<Vec<u8>>) -> (r: Result<Event, ContractError>)
    requires
        event_type == IbcEventType::WriteAck ==> ack is Some,
    ensures
        if !is_packet_event(event_type) {
            r matches Err(ContractError::InvalidEventType { event, event_type: t }) && event@ == "Packet Event"@
                && t@ == event_type_name(event_type)@
        } else if event_type == IbcEventType::WriteAck {
            r matches Ok(e) && e@ == (EventView {
                ty: event_type_name(event_type)@,
                attributes: packet_event_attributes(packet@, channel_order, connection_id@)
                    .push(("packet_ack_hex"@, hex_text(ack.unwrap()@)))
                    .push(("packet_data_hex"@, hex_text(packet@.data))),
            })
        } else {
            r matches Ok(e) && e@ == (EventView { ty: event_type_name(event_type)@, attributes: packet_event_attributes(packet@, channel_order, connection_id@) })
        },
{
    let timeout_height = match packet.timeout_height {
        TimeoutHeight::Never => {
            let s = String::from_str("0-0");
            proof {
                reveal_strlit("0-0");
            }
            assert(s@ =~= seq!['0', '-', '0']);
            s
        },
        TimeoutHeight::At(h) => height_to_string(&h),
    };
    let event = Event::new(event_type.as_str())
        .add_attribute("packet_sequence", u64_to_decimal(packet.sequence))
        .add_attribute("packet_src_port", String::from_str(packet.source_port.as_str()))
        .add_attribute("packet_src_channel", String::from_str(packet.source_channel.as_str()))
        .add_attribute("packet_dst_port", String::from_str(packet.destination_port.as_str()))
        .add_attribute("packet_dst_channel", String::from_str(packet.destination_channel.as_str()))
        .add_attribute("packet_channel_ordering", String::from_str(channel_order.as_str()))
        .add_attribute("packet_connection", String::from_str(connection_id.as_str()))
        .add_attribute("packet_timeout_height", timeout_height)
        .add_attribute("packet_timeout_timestamp", u64_to_decimal(packet.timeout_timestamp))
        .add_attribute("packet_data_hex", hex_encode(packet.data.as_slice()));
    assert(event@.attributes =~= packet_event_attributes(packet@, channel_order, connection_id@));
    match event_type {
        IbcEventType::SendPacket | IbcEventType::ReceivePacket | IbcEventType::AckPacket | IbcEventType::Timeout => Ok(event),
        IbcEventType::WriteAck => {
            let ack_hex = match &ack {
                Some(a) => hex_encode(a.as_slice()),
                None => String::new(),
            };
            let event = event.add_attribute("packet_ack_hex", ack_hex).add_attribute("packet_data_hex", hex_encode(packet.data.as_slice()));
            Ok(event)
        },
        _ => Err(ContractError::InvalidEventType {
            event: String::from_str("Packet Event"),
            event_type: String::from_str(event_type.as_str()),
        }),
    }
}

} // verus!
