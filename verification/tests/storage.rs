use cw_ibc_core::context::CwIbcCoreContext;
use cw_ibc_core::state::CwIbcStore;
use cw_ibc_core::query::{QueryMsg, QueryResponse};
use cw_ibc_core::ibc_types::{
    ConnectionCounterparty, ConnectionEnd, ConnectionState, Version,
};
use cw_ibc_core::types::{ClientId, ClientType, ConnectionId};

fn default_connection_end() -> ConnectionEnd {
    ConnectionEnd {
        state: ConnectionState::Uninitialized,
        client_id: ClientId::from_string("07-tendermint-0".to_string()).unwrap(),
        counterparty: ConnectionCounterparty {
            client_id: ClientId::from_string("07-tendermint-0".to_string()).unwrap(),
            connection_id: None,
            prefix: b"ibc".to_vec(),
        },
        versions: vec![Version {
            identifier: "1".to_string(),
            features: vec!["ORDER_ORDERED".to_string(), "ORDER_UNORDERED".to_string()],
        }],
        delay_period: 0,
    }
}

#[test]
fn test_set_connection() {
    let mut contract = CwIbcStore::new();
    let conn_id = ConnectionId::new(0);
    let actual_response = contract.set_connection(default_connection_end(), conn_id).unwrap();
    let expected_response = vec![("method".to_string(), "set_connection".to_string())];
    assert_eq!(actual_response, expected_response);
}

#[test]
fn test_get_connection() {
    let mut contract = CwIbcStore::new();
    let conn_id = ConnectionId::new(0);
    contract.set_connection(default_connection_end(), conn_id.clone()).unwrap();
    let response = contract.get_connection(conn_id);
    let expected = default_connection_end();
    assert_eq!(response.state, expected.state);
    assert_eq!(response.client_id, expected.client_id);
    assert_eq!(response.counterparty.client_id, expected.counterparty.client_id);
    assert_eq!(response.counterparty.connection_id, expected.counterparty.connection_id);
    assert_eq!(response.counterparty.prefix, expected.counterparty.prefix);
    assert_eq!(response.versions.len(), expected.versions.len());
    for (got, want) in response.versions.iter().zip(expected.versions.iter()) {
        assert_eq!(got.identifier, want.identifier);
        assert_eq!(got.features, want.features);
    }
    assert_eq!(response.delay_period, expected.delay_period);
}

#[test]
fn test_connection_sequence() {
    let mut ctx = CwIbcCoreContext::new();
    ctx.connection_next_sequence_init(0).unwrap();
    let result = ctx.connection_counter().unwrap();
    assert_eq!(0, result);
    let increment_sequence = ctx.increase_connection_counter();
    assert_eq!(1, increment_sequence.unwrap());
}

#[test]
fn test_query_next_client_sequence() {
    let mut ctx = CwIbcCoreContext::new();
    ctx.instantiate("sender".to_string()).unwrap();
    let msg = QueryMsg::GetNextClientSequence;
    match ctx.query(&msg).unwrap() {
        QueryResponse::Number(n) => assert_eq!(0, n),
        _ => panic!("the next client sequence is answered as a number"),
    }
    ctx.increase_client_counter().unwrap();
    match ctx.query(&msg).unwrap() {
        QueryResponse::Number(n) => assert_eq!(1, n),
        _ => panic!("the next client sequence is answered as a number"),
    }
}

#[test]
fn test_query_get_client_registry() {
    let client_type_str = "test_client_type".to_string();
    let client = "test_client".to_string();
    let mut ctx = CwIbcCoreContext::new();
    ctx.instantiate("sender".to_string()).unwrap();
    ctx.store_client_into_registry(ClientType::new(client_type_str.clone()), client.clone()).unwrap();
    let msg = QueryMsg::GetClientRegistry { client_type: client_type_str };
    match ctx.query(&msg).unwrap() {
        QueryResponse::Text(t) => assert_eq!(client, t),
        _ => panic!("a client registry entry is answered as text"),
    }
}

#[test]
fn missing_connection_is_not_found() {
    let ctx = CwIbcCoreContext::new();
    assert!(ctx.connection_end(&ConnectionId::new(3)).is_err());
}

#[test]
fn counters_start_unset_and_fail() {
    let mut ctx = CwIbcCoreContext::new();
    assert!(ctx.client_counter().is_err());
    assert!(ctx.increase_client_counter().is_err());
    assert!(ctx.increase_connection_counter().is_err());
    assert!(ctx.increase_channel_sequence().is_err());
    assert!(ctx.channel_counter().is_err());
}

#[test]
fn instantiate_sets_counters_and_owner() {
    let mut ctx = CwIbcCoreContext::new();
    ctx.instantiate("owner".to_string()).unwrap();
    assert_eq!(ctx.channel_counter().unwrap(), 0);
    assert_eq!(ctx.connection_counter().unwrap(), 0);
    assert!(ctx.check_sender_is_owner(&"owner".to_string()).is_ok());
    assert!(ctx.check_sender_is_owner(&"other".to_string()).is_err());
}

#[test]
fn client_connection_index_round_trip() {
    let mut ctx = CwIbcCoreContext::new();
    let client_id = ClientId::from_string("iconclient-0".to_string()).unwrap();
    assert!(ctx.check_for_connection(&client_id).is_ok());
    ctx.store_connection_to_client(&client_id, &ConnectionId::new(4)).unwrap();
    assert_eq!(ctx.client_connection(&client_id).unwrap().as_str(), "connection-4");
    assert!(ctx.check_for_connection(&client_id).is_err());
}
