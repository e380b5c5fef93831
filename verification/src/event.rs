//! Events that the host emits, and the kinds of IBC events.
use vstd::prelude::*;

verus! {

/// An event: a type and its attributes, in order.
#[derive(Debug)]
pub struct Event {
    pub ty: String,
    pub attributes: Vec<(String, String)>,
}

/// An event taken by its view.
pub struct EventView {
    pub ty: Seq<char>,
    pub attributes: Seq<(Seq<char>, Seq<char>)>,
}

impl View for Event {
    type V = EventView;

    open spec fn view(&self) -> EventView {
        EventView { ty: self.ty@, attributes: self.attributes@.map_values(|a: (String, String)| (a.0@, a.1@)) }
    }
}

impl Event {
    /// An event of type `ty` without attributes.
    pub fn new(ty: &str) -> (r: Event)
        ensures
            r@.ty == ty@,
            r@.attributes.len() == 0,
    {
        let r = Event { ty: String::from_str(ty), attributes: Vec::new() };
        assert(r@.attributes =~= Seq::<(Seq<char>, Seq<char>)>::empty());
        r
    }

    /// This event with the attribute `key` = `value` added at the end.
    pub fn add_attribute(self, key: &str, value: String) -> (r: Event)
        ensures
            r@.ty == self@.ty,
            r@.attributes == self@.attributes.push((key@, value@)),
    {
        let mut attributes = self.attributes;
        let ghost before = attributes@;
        attributes.push((String::from_str(key), value));
        let r = Event { ty: self.ty, attributes };
        assert(r@.attributes =~= self@.attributes.push((key@, value@)));
        r
    }
}

/// The kinds of IBC events.
#[derive(Debug, Clone, Copy, PartialEq, Eq, Structural)]
pub enum IbcEventType {
    CreateClient,
    UpdateClient,
    UpgradeClient,
    ClientMisbehaviour,
    OpenInitConnection,
    OpenTryConnection,
    OpenAckConnection,
    OpenConfirmConnection,
    OpenInitChannel,
    OpenTryChannel,
    OpenAckChannel,
    OpenConfirmChannel,
    CloseInitChannel,
    CloseConfirmChannel,
    SendPacket,
    ReceivePacket,
    WriteAck,
    AckPacket,
    Timeout,
}

/// The name of each kind of event.
pub open spec fn event_type_name(t: IbcEventType) -> &'static str {
    match t {
        IbcEventType::CreateClient => "create_client",
        IbcEventType::UpdateClient => "update_client",
        IbcEventType::UpgradeClient => "upgrade_client",
        IbcEventType::ClientMisbehaviour => "client_misbehaviour",
        IbcEventType::OpenInitConnection => "connection_open_init",
        IbcEventType::OpenTryConnection => "connection_open_try",
        IbcEventType::OpenAckConnection => "connection_open_ack",
        IbcEventType::OpenConfirmConnection => "connection_open_confirm",
        IbcEventType::OpenInitChannel => "channel_open_init",
        IbcEventType::OpenTryChannel => "channel_open_try",
        IbcEventType::OpenAckChannel => "channel_open_ack",
        IbcEventType::OpenConfirmChannel => "channel_open_confirm",
        IbcEventType::CloseInitChannel => "channel_close_init",
        IbcEventType::CloseConfirmChannel => "channel_close_confirm",
        IbcEventType::SendPacket => "send_packet",
        IbcEventType::ReceivePacket => "recv_packet",
        IbcEventType::WriteAck => "write_acknowledgement",
        IbcEventType::AckPacket => "acknowledge_packet",
        IbcEventType::Timeout => "timeout_packet",
    }
}

impl IbcEventType {
    pub fn as_str(&self) -> (r: &'static str)
        ensures
            r@ == event_type_name(*self)@,
    {
        match self {
            IbcEventType::CreateClient => "create_client",
            IbcEventType::UpdateClient => "update_client",
            IbcEventType::UpgradeClient => "upgrade_client",
            IbcEventType::ClientMisbehaviour => "client_misbehaviour",
            IbcEventType::OpenInitConnection => "connection_open_init",
            IbcEventType::OpenTryConnection => "connection_open_try",
            IbcEventType::OpenAckConnection => "connection_open_ack",
            IbcEventType::OpenConfirmConnection => "connection_open_confirm",
            IbcEventType::OpenInitChannel => "channel_open_init",
            IbcEventType::OpenTryChannel => "channel_open_try",
            IbcEventType::OpenAckChannel => "channel_open_ack",
            IbcEventType::OpenConfirmChannel => "channel_open_confirm",
            IbcEventType::CloseInitChannel => "channel_close_init",
            IbcEventType::CloseConfirmChannel => "channel_close_confirm",
            IbcEventType::SendPacket => "send_packet",
            IbcEventType::ReceivePacket => "recv_packet",
            IbcEventType::WriteAck => "write_acknowledgement",
            IbcEventType::AckPacket => "acknowledge_packet",
            IbcEventType::Timeout => "timeout_packet",
        }
    }
}

} // verus!
