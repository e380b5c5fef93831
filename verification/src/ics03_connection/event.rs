//! Events of the connection handshake.
use vstd::prelude::*;

use crate::error::ContractError;
use crate::event::{event_type_name, Event, EventView, IbcEventType};
use crate::ibc_types::opt_id;
use crate::types::{ClientId, ConnectionId};

verus! {

/// The attributes of a connection event: the connection, its client, the
/// counterparty's client and, past the init step, the counterparty's
/// connection (empty where unknown).
pub open spec fn connection_event_attributes(
    event_type: IbcEventType,
    connection_id: Seq<char>,
    client_id: Seq<char>,
    counterparty_client_id: Seq<char>,
    counterparty_connection_id: Option<Seq<char>>,
) -> Seq<(Seq<char>, Seq<char>)> {
    let base = seq![("connection_id"@, connection_id), ("client_id"@, client_id), ("counterparty_client_id"@, counterparty_client_id)];
    if event_type == IbcEventType::OpenInitConnection {
        base
    } else {
        base.push(("counterparty_connection_id"@, match counterparty_connection_id { Some(c) => c, None => Seq::empty() }))
    }
}

/// The event of a step of the connection handshake; other kinds of event are
/// refused.
pub fn create_connection_event(
    event_type: IbcEventType,
    connection_id: &ConnectionId,
    client_id: &ClientId,
    counterparty_client_id: &ClientId,
    counterparty_connection_id: Option<ConnectionId>,
) -> (r: Result<Event, ContractError>)
    ensures
        match event_type {
            IbcEventType::OpenInitConnection | IbcEventType::OpenTryConnection | IbcEventType::OpenAckConnection | IbcEventType::OpenConfirmConnection
                => r matches Ok(e) && e@ == (EventView {
                    ty: event_type_name(event_type)@,
                    attributes: connection_event_attributes(event_type, connection_id@, client_id@, counterparty_client_id@, opt_id(counterparty_connection_id)),
                }),
            _ => r matches Err(ContractError::InvalidEventType { event, event_type: t }) && event@ == "Connection Event"@
                && t@ == event_type_name(event_type)@,
        },
{
    let event = Event::new(event_type.as_str())
        .add_attribute("connection_id", String::from_str(connection_id.as_str()))
        .add_attribute("client_id", String::from_str(client_id.as_str()))
        .add_attribute("counterparty_client_id", String::from_str(counterparty_client_id.as_str()));
    match event_type {
        IbcEventType::OpenInitConnection => {
            assert(event@.attributes =~= connection_event_attributes(event_type, connection_id@, client_id@, counterparty_client_id@, opt_id(counterparty_connection_id)));
            Ok(event)
        },
        IbcEventType::OpenTryConnection | IbcEventType::OpenAckConnection | IbcEventType::OpenConfirmConnection => {
            let value = match &counterparty_connection_id {
                Some(c) => String::from_str(c.as_str()),
                None => String::new(),
            };
            let event = event.add_attribute("counterparty_connection_id", value);
            assert(event@.attributes =~= connection_event_attributes(event_type, connection_id@, client_id@, counterparty_client_id@, opt_id(counterparty_connection_id)));
            Ok(event)
        },
        _ => Err(ContractError::InvalidEventType {
            event: String::from_str("Connection Event"),
            event_type: String::from_str(event_type.as_str()),
        }),
    }
}

/// The event of an opened connection.
pub fn event_open_init(conn_id: &ConnectionId, client_id: &ClientId, counterparty_client_id: &ClientId) -> (r: Event)
    ensures
        r@ == (EventView {
            ty: event_type_name(IbcEventType::OpenInitConnection)@,
            attributes: connection_event_attributes(IbcEventType::OpenInitConnection, conn_id@, client_id@, counterparty_client_id@, None),
        }),
{
    let r = Event::new(IbcEventType::OpenInitConnection.as_str())
        .add_attribute("connection_id", String::from_str(conn_id.as_str()))
        .add_attribute("client_id", String::from_str(client_id.as_str()))
        .add_attribute("counterparty_client_id", String::from_str(counterparty_client_id.as_str()));
    assert(r@.attributes =~= connection_event_attributes(IbcEventType::OpenInitConnection, conn_id@, client_id@, counterparty_client_id@, None));
    r
}

/// The event of an answered connection; the connection identifier also
/// stands as the counterparty's.
pub fn event_open_try(conn_id: &ConnectionId, client_id: &ClientId, counterparty_client_id: &ClientId) -> (r: Event)
    ensures
        r@ == (EventView {
            ty: event_type_name(IbcEventType::OpenTryConnection)@,
            attributes: connection_event_attributes(IbcEventType::OpenTryConnection, conn_id@, client_id@, counterparty_client_id@, Some(conn_id@)),
        }),
{
    let r = Event::new(IbcEventType::OpenTryConnection.as_str())
        .add_attribute("connection_id", String::from_str(conn_id.as_str()))
        .add_attribute("client_id", String::from_str(client_id.as_str()))
        .add_attribute("counterparty_client_id", String::from_str(counterparty_client_id.as_str()))
        .add_attribute("counterparty_connection_id", String::from_str(conn_id.as_str()));
    assert(r@.attributes =~= connection_event_attributes(IbcEventType::OpenTryConnection, conn_id@, client_id@, counterparty_client_id@, Some(conn_id@)));
    r
}

} // verus!
