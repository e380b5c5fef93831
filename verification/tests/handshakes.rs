use cw_ibc_core::context::CwIbcCoreContext;
use cw_ibc_core::conversions::RawConnectionCounterparty;
use cw_ibc_core::error::{ChannelError, ConnectionError, ContractError};
use cw_ibc_core::ibc_types::{
    ChannelEnd, ConnectionCounterparty, ConnectionEnd, ConnectionState, Counterparty, Height, Order,
    State, Version,
};
use cw_ibc_core::ics03_connection::conn_types::{
    MsgConnectionOpenAck, MsgConnectionOpenConfirm, MsgConnectionOpenInit, MsgConnectionOpenTry,
};
use cw_ibc_core::ics04_channel::handler::submessages::{
    on_chan_close_confirm_submessage, on_chan_open_ack_submessage, on_chan_open_init_submessage,
    on_chan_open_try_submessage, ModuleChannelMsg, ModuleOrder,
};
use cw_ibc_core::ics04_channel::packet::packet_types::{ClientFacts, ConsensusFacts};
use cw_ibc_core::query::{QueryMsg, QueryResponse};
use cw_ibc_core::types::{ChannelId, ClientId, ConnectionId, PortId};
use cw_ibc_core::validations::{ensure_connection_state, ensure_consensus_height_valid};
use prost::Message;
use sha3::{Digest, Keccak256};

fn sent_connection_end(bytes: &[u8]) -> ibc::core::connection::types::proto::v1::ConnectionEnd {
    ibc::core::connection::types::proto::v1::ConnectionEnd::decode(bytes).unwrap()
}

fn sent_channel_end(bytes: &[u8]) -> ibc::core::channel::types::proto::v1::Channel {
    ibc::core::channel::types::proto::v1::Channel::decode(bytes).unwrap()
}

fn live() -> ClientFacts {
    ClientFacts { frozen: false, latest_height: Height::new(0, 10) }
}

fn consensus() -> ConsensusFacts {
    ConsensusFacts { root: vec![3u8; 32], timestamp: 1 }
}

fn our_client() -> ClientId {
    ClientId::from_string("iconclient-0".to_string()).unwrap()
}

fn their_client() -> ClientId {
    ClientId::from_string("07-tendermint-0".to_string()).unwrap()
}

fn default_version() -> Version {
    Version {
        identifier: "1".to_string(),
        features: vec!["ORDER_ORDERED".to_string(), "ORDER_UNORDERED".to_string()],
    }
}

fn host() -> CwIbcCoreContext {
    let mut ctx = CwIbcCoreContext::new();
    ctx.instantiate("owner".to_string()).unwrap();
    ctx
}

fn init_msg(version: Option<Version>) -> MsgConnectionOpenInit {
    MsgConnectionOpenInit {
        client_id: our_client(),
        counterparty: Some(RawConnectionCounterparty {
            client_id: "07-tendermint-0".to_string(),
            connection_id: String::new(),
            prefix: Some(b"ibc".to_vec()),
        }),
        version,
        delay_period: 0,
    }
}

fn keccak_of_encoding(end: ibc::core::connection::types::proto::v1::ConnectionEnd) -> String {
    hex::encode(Keccak256::digest(end.encode_to_vec()))
}

fn commitment_at(ctx: &CwIbcCoreContext, path: &str) -> String {
    match ctx.query(&QueryMsg::GetCommitment { key: path.as_bytes().to_vec() }).unwrap() {
        QueryResponse::Text(t) => t,
        _ => panic!("a commitment is answered in hexadecimal"),
    }
}

#[test]
fn open_init_stores_an_init_end_and_its_commitment() {
    let mut ctx = host();
    let id = ctx.connection_open_init(init_msg(None), &live()).unwrap();
    assert_eq!(id.as_str(), "connection-0");
    assert_eq!(ctx.connection_counter().unwrap(), 1);
    let end = ctx.connection_end(&id).unwrap();
    assert_eq!(end.state, ConnectionState::Init);
    assert_eq!(end.versions.len(), 1);
    assert_eq!(end.versions[0].features, default_version().features);
    assert_eq!(ctx.client_connection(&our_client()).unwrap(), id);
    let raw = ibc::core::connection::types::proto::v1::ConnectionEnd {
        client_id: "iconclient-0".to_string(),
        versions: vec![ibc::core::connection::types::proto::v1::Version {
            identifier: "1".to_string(),
            features: vec!["ORDER_ORDERED".to_string(), "ORDER_UNORDERED".to_string()],
        }],
        state: 1,
        counterparty: Some(ibc::core::connection::types::proto::v1::Counterparty {
            client_id: "07-tendermint-0".to_string(),
            connection_id: String::new(),
            prefix: Some(ibc::core::commitment_types::proto::v1::MerklePrefix { key_prefix: b"ibc".to_vec() }),
        }),
        delay_period: 0,
    };
    assert_eq!(commitment_at(&ctx, "connections/connection-0"), keccak_of_encoding(raw.clone()));
    match ctx.query(&QueryMsg::GetConnection { connection_id: "connection-0".to_string() }).unwrap() {
        QueryResponse::Text(t) => assert_eq!(t, hex::encode(raw.encode_to_vec())),
        _ => panic!("a connection is answered in hexadecimal"),
    }
}

#[test]
fn open_init_with_unknown_version_fails() {
    let mut ctx = host();
    let odd = Version { identifier: "2".to_string(), features: vec!["ORDER_ORDERED".to_string()] };
    assert_eq!(
        ctx.connection_open_init(init_msg(Some(odd)), &live()).unwrap_err(),
        ContractError::IbcConnectionError { error: ConnectionError::EmptyVersions }
    );
    assert_eq!(ctx.connection_counter().unwrap(), 0);
}

#[test]
fn open_init_before_instantiate_fails() {
    let mut ctx = CwIbcCoreContext::new();
    assert!(ctx.connection_open_init(init_msg(None), &live()).is_err());
}

#[test]
fn connection_opens_through_init_and_ack() {
    let mut ctx = host();
    let id = ctx.connection_open_init(init_msg(None), &live()).unwrap();
    let ack = MsgConnectionOpenAck {
        connection_id: id.clone(),
        counterparty_connection_id: ConnectionId::new(9),
        client_state: Some(vec![1]),
        version: default_version(),
        proof_try: vec![2],
        proof_client: vec![3],
        proof_consensus: vec![4],
        proof_height: Height::new(0, 5),
        consensus_height: Height::new(0, 5),
    };
    let payload = ctx
        .connection_open_ack_proof(&ack, &live(), &consensus(), &vec![5], 10, &b"wasm".to_vec())
        .unwrap();
    assert_eq!(payload.client_id, "iconclient-0");
    let state = &payload.verify_connection_state;
    assert_eq!(state.counterparty_conn_end_path, b"connections/connection-9".to_vec());
    let sent = sent_connection_end(&state.expected_counterparty_connection_end);
    assert_eq!(sent.state, 2);
    assert_eq!(sent.counterparty.unwrap().prefix.unwrap().key_prefix, b"wasm".to_vec());
    assert_eq!(state.counterparty_prefix, b"\"ibc\"".to_vec());
    assert_eq!(payload.verify_client_full_state.counterparty_prefix, b"\"ibc\"".to_vec());
    assert_eq!(payload.verify_client_consensus_state.counterparty_prefix, b"\"ibc\"".to_vec());
    assert_eq!(state.proof_height, "0-5");
    assert_eq!(
        payload.verify_client_full_state.client_state_path,
        b"clients/07-tendermint-0/clientState".to_vec()
    );
    assert_eq!(
        payload.verify_client_consensus_state.conesenus_state_path,
        b"clients/07-tendermint-0/consensusStates/0-5".to_vec()
    );
    let rejected = ctx.connection_open_ack(&ack, &live(), &consensus(), &vec![5], 10, &b"wasm".to_vec(), false);
    assert!(matches!(rejected, Err(ContractError::LightClientValidationFailed(_))));
    assert_eq!(ctx.connection_end(&id).unwrap().state, ConnectionState::Init);
    ctx.connection_open_ack(&ack, &live(), &consensus(), &vec![5], 10, &b"wasm".to_vec(), true)
        .unwrap();
    let end = ctx.connection_end(&id).unwrap();
    assert_eq!(end.state, ConnectionState::Open);
    assert_eq!(end.counterparty.connection_id, Some(ConnectionId::new(9)));
    let again = ctx.connection_open_ack(&ack, &live(), &consensus(), &vec![5], 10, &b"wasm".to_vec(), true);
    assert_eq!(
        again.unwrap_err(),
        ContractError::IbcConnectionError { error: ConnectionError::ConnectionMismatch { connection_id: id } }
    );
}

#[test]
fn ack_with_consensus_height_ahead_fails() {
    let mut ctx = host();
    let id = ctx.connection_open_init(init_msg(None), &live()).unwrap();
    let ack = MsgConnectionOpenAck {
        connection_id: id,
        counterparty_connection_id: ConnectionId::new(9),
        client_state: Some(vec![1]),
        version: default_version(),
        proof_try: vec![],
        proof_client: vec![],
        proof_consensus: vec![],
        proof_height: Height::new(0, 5),
        consensus_height: Height::new(0, 11),
    };
    assert_eq!(
        ctx.connection_open_ack(&ack, &live(), &consensus(), &vec![], 10, &b"wasm".to_vec(), true).unwrap_err(),
        ContractError::IbcConnectionError {
            error: ConnectionError::InvalidConsensusHeight {
                target_height: Height::new(0, 11),
                current_height: Height::new(0, 10),
            }
        }
    );
}

fn try_msg() -> MsgConnectionOpenTry {
    MsgConnectionOpenTry {
        client_id: our_client(),
        client_state: Some(vec![1]),
        counterparty: Some(RawConnectionCounterparty {
            client_id: "07-tendermint-0".to_string(),
            connection_id: "connection-3".to_string(),
            prefix: Some(b"ibc".to_vec()),
        }),
        counterparty_versions: vec![default_version()],
        delay_period: 0,
        proof_init: vec![6],
        proof_client: vec![7],
        proof_consensus: vec![8],
        proof_height: Height::new(0, 4),
        consensus_height: Height::new(0, 4),
    }
}

#[test]
fn connection_opens_through_try_and_confirm() {
    let mut ctx = host();
    let payload = ctx
        .connection_open_try_proof(&try_msg(), &live(), &consensus(), &vec![9], 10, &b"wasm".to_vec())
        .unwrap();
    assert_eq!(
        payload.verify_connection_state.counterparty_conn_end_path,
        b"connections/connection-3".to_vec()
    );
    assert_eq!(sent_connection_end(&payload.verify_connection_state.expected_counterparty_connection_end).state, 1);
    let id = ctx
        .connection_open_try(&try_msg(), &live(), &consensus(), &vec![9], 10, &b"wasm".to_vec(), true)
        .unwrap();
    assert_eq!(id.as_str(), "connection-0");
    assert_eq!(ctx.connection_end(&id).unwrap().state, ConnectionState::TryOpen);
    let confirm = MsgConnectionOpenConfirm { connection_id: id.clone(), proof_ack: vec![1], proof_height: Height::new(0, 6) };
    let request = ctx.connection_open_confirm_proof(&confirm, &live(), &consensus(), &b"wasm".to_vec()).unwrap();
    assert_eq!(sent_connection_end(&request.expected_counterparty_connection_end).state, 3);
    assert_eq!(request.counterparty_prefix, b"\"ibc\"".to_vec());
    assert_eq!(request.counterparty_conn_end_path, b"connections/connection-3".to_vec());
    ctx.connection_open_confirm(&confirm, &live(), &consensus(), &b"wasm".to_vec(), true).unwrap();
    assert_eq!(ctx.connection_end(&id).unwrap().state, ConnectionState::Open);
    let again = ctx.connection_open_confirm(&confirm, &live(), &consensus(), &b"wasm".to_vec(), true);
    assert_eq!(
        again.unwrap_err(),
        ContractError::IbcConnectionError { error: ConnectionError::ConnectionMismatch { connection_id: id } }
    );
}

#[test]
fn try_without_client_state_fails() {
    let mut ctx = host();
    let mut msg = try_msg();
    msg.client_state = None;
    assert_eq!(
        ctx.connection_open_try(&msg, &live(), &consensus(), &vec![], 10, &b"wasm".to_vec(), true).unwrap_err(),
        ContractError::IbcConnectionError { error: ConnectionError::MissingClientState }
    );
    assert_eq!(ctx.connection_counter().unwrap(), 0);
}

#[test]
fn validations_report_their_errors() {
    assert!(ensure_consensus_height_valid(&Height::new(1, 5), &Height::new(1, 5)).is_ok());
    assert_eq!(
        ensure_consensus_height_valid(&Height::new(1, 5), &Height::new(2, 0)).unwrap_err(),
        ContractError::IbcConnectionError {
            error: ConnectionError::InvalidConsensusHeight {
                target_height: Height::new(2, 0),
                current_height: Height::new(1, 5),
            }
        }
    );
    let end = ConnectionEnd {
        state: ConnectionState::Init,
        client_id: our_client(),
        counterparty: ConnectionCounterparty { client_id: their_client(), connection_id: None, prefix: vec![] },
        versions: vec![default_version()],
        delay_period: 0,
    };
    let id = ConnectionId::new(2);
    assert!(ensure_connection_state(&id, &end, &ConnectionState::Init).is_ok());
    assert_eq!(
        ensure_connection_state(&id, &end, &ConnectionState::Open).unwrap_err(),
        ContractError::IbcConnectionError { error: ConnectionError::ConnectionMismatch { connection_id: id.clone() } }
    );
}

fn port() -> PortId {
    PortId::from_string("xcall".to_string()).unwrap()
}

/// A host with an open connection `connection-0` whose single version offers
/// both orderings, and a port `xcall` held by `xcall-addr`.
fn host_with_connection() -> CwIbcCoreContext {
    let mut ctx = host();
    ctx.store_capability(b"xcall".to_vec(), vec!["xcall-addr".to_string()]).unwrap();
    let end = ConnectionEnd {
        state: ConnectionState::Open,
        client_id: our_client(),
        counterparty: ConnectionCounterparty {
            client_id: their_client(),
            connection_id: Some(ConnectionId::new(3)),
            prefix: b"ibc".to_vec(),
        },
        versions: vec![default_version()],
        delay_period: 0,
    };
    ctx.store_connection(&ConnectionId::new(0), end).unwrap();
    ctx
}

fn proposed(state: State, remote_channel: Option<ChannelId>) -> ChannelEnd {
    ChannelEnd {
        state,
        ordering: Order::Unordered,
        remote: Counterparty { port_id: PortId::from_string("their-xcall".to_string()).unwrap(), channel_id: remote_channel },
        connection_hops: vec![ConnectionId::new(0)],
        version: "xcall-1".to_string(),
    }
}

#[test]
fn channel_opens_through_init_and_ack() {
    let mut ctx = host_with_connection();
    let outcome = ctx.validate_channel_open_init(&port(), proposed(State::Init, None), &live()).unwrap();
    assert_eq!(outcome.channel_id.as_str(), "channel-0");
    assert_eq!(outcome.module_address, "xcall-addr");
    let channel = ChannelId::new(0);
    assert_eq!(ctx.get_channel_end(&port(), &channel).unwrap().state, State::Uninitialized);
    ctx.execute_channel_open_init(&port(), &channel, Ok(())).unwrap();
    assert_eq!(ctx.get_channel_end(&port(), &channel).unwrap().state, State::Init);
    assert_eq!(ctx.channel_counter().unwrap(), 1);
    assert_eq!(ctx.get_next_sequence_send(&port(), &channel).unwrap(), 1);
    assert_eq!(ctx.get_next_sequence_recv(&port(), &channel).unwrap(), 1);
    assert_eq!(ctx.get_next_sequence_ack(&port(), &channel).unwrap(), 1);
    let request = ctx
        .channel_open_ack_proof(&port(), &channel, &ChannelId::new(4), &"xcall-1".to_string(), &vec![1], &Height::new(0, 3), &live(), &consensus())
        .unwrap();
    assert_eq!(request.counterparty_chan_end_path, b"channelEnds/ports/their-xcall/channels/channel-4".to_vec());
    assert_eq!(sent_channel_end(&request.expected_counterparty_channel_end).state, 2);
    ctx.validate_channel_open_ack(&port(), &channel, &ChannelId::new(4), &"xcall-1".to_string(), &vec![1], &Height::new(0, 3), &live(), &consensus(), true)
        .unwrap();
    assert_eq!(ctx.get_channel_end(&port(), &channel).unwrap().remote.channel_id, Some(ChannelId::new(4)));
    ctx.execute_channel_open_ack(&port(), &channel, Ok(())).unwrap();
    assert_eq!(ctx.get_channel_end(&port(), &channel).unwrap().state, State::Open);
    let repeated = ctx.execute_channel_open_ack(&port(), &channel, Ok(()));
    assert_eq!(
        repeated.unwrap_err(),
        ContractError::IbcChannelError { error: ChannelError::InvalidChannelState { channel_id: channel.clone(), state: State::Open } }
    );
}

#[test]
fn channel_init_needs_a_supported_ordering() {
    let mut ctx = host_with_connection();
    let mut channel = proposed(State::Init, None);
    channel.ordering = Order::NoOrder;
    assert_eq!(
        ctx.validate_channel_open_init(&port(), channel, &live()).unwrap_err(),
        ContractError::IbcChannelError { error: ChannelError::ChannelFeatureNotSupportedByConnection }
    );
    let mut two_hops = proposed(State::Init, None);
    two_hops.connection_hops.push(ConnectionId::new(1));
    assert_eq!(
        ctx.validate_channel_open_init(&port(), two_hops, &live()).unwrap_err(),
        ContractError::IbcChannelError { error: ChannelError::InvalidConnectionHopsLength { expected: 1, actual: 2 } }
    );
    assert_eq!(ctx.channel_counter().unwrap(), 0);
}

#[test]
fn channel_opens_through_try_and_confirm() {
    let mut ctx = host_with_connection();
    let outcome = ctx
        .validate_channel_open_try(&port(), proposed(State::TryOpen, Some(ChannelId::new(4))), &vec![1], &Height::new(0, 3), &live(), &consensus(), true)
        .unwrap();
    let channel = outcome.channel_id.clone();
    ctx.execute_channel_open_try(&port(), &channel, Ok(())).unwrap();
    assert_eq!(ctx.get_channel_end(&port(), &channel).unwrap().state, State::TryOpen);
    let request = ctx
        .channel_confirm_proof(&port(), &channel, &vec![2], &Height::new(0, 4), &live(), &consensus(), false)
        .unwrap();
    assert_eq!(sent_channel_end(&request.expected_counterparty_channel_end).state, 3);
    ctx.validate_channel_open_confirm(&port(), &channel, &vec![2], &Height::new(0, 4), &live(), &consensus(), true)
        .unwrap();
    ctx.execute_channel_open_confirm(&port(), &channel, Ok(())).unwrap();
    assert_eq!(ctx.get_channel_end(&port(), &channel).unwrap().state, State::Open);
    ctx.validate_channel_close_init(&port(), &channel, &live()).unwrap();
    ctx.execute_channel_close_init(&port(), &channel, Ok(())).unwrap();
    assert_eq!(ctx.get_channel_end(&port(), &channel).unwrap().state, State::Closed);
    let closed = ctx.validate_channel_close_init(&port(), &channel, &live());
    assert_eq!(
        closed.unwrap_err(),
        ContractError::IbcChannelError { error: ChannelError::InvalidChannelState { channel_id: channel.clone(), state: State::Closed } }
    );
}

#[test]
fn module_refusal_is_reported() {
    let mut ctx = host_with_connection();
    let outcome = ctx.validate_channel_open_init(&port(), proposed(State::Init, None), &live()).unwrap();
    let refused = ctx.execute_channel_open_init(&port(), &outcome.channel_id, Err("no".to_string()));
    assert_eq!(
        refused.unwrap_err(),
        ContractError::IbcChannelError { error: ChannelError::Other { description: "no".to_string() } }
    );
    assert_eq!(ctx.channel_counter().unwrap(), 0);
}

#[test]
fn modules_see_the_channel_from_their_end() {
    let mut end = proposed(State::Init, None);
    end.ordering = Order::Ordered;
    match on_chan_open_init_submessage(&end, &port(), &ChannelId::new(1), &ConnectionId::new(0)) {
        ModuleChannelMsg::OpenInit { channel } => {
            assert_eq!(channel.endpoint.port_id, "xcall");
            assert_eq!(channel.endpoint.channel_id, "channel-1");
            assert_eq!(channel.counterparty_endpoint.port_id, "their-xcall");
            assert_eq!(channel.counterparty_endpoint.channel_id, "");
            assert_eq!(channel.order, ModuleOrder::Ordered);
            assert_eq!(channel.version, "xcall-1");
            assert_eq!(channel.connection_id, "connection-0");
        }
        _ => panic!("open init is told as open init"),
    }
    let known = proposed(State::TryOpen, Some(ChannelId::new(4)));
    match on_chan_open_try_submessage(&known, &port(), &ChannelId::new(1), &ConnectionId::new(0)) {
        ModuleChannelMsg::OpenTry { channel, counterparty_version } => {
            assert_eq!(channel.counterparty_endpoint.channel_id, "channel-4");
            assert_eq!(channel.order, ModuleOrder::Unordered);
            assert_eq!(counterparty_version, "xcall-1");
        }
        _ => panic!("open try is told as open try"),
    }
    let mut unordered = proposed(State::Open, Some(ChannelId::new(4)));
    unordered.ordering = Order::NoOrder;
    assert!(matches!(
        on_chan_open_ack_submessage(&unordered, &port(), &ChannelId::new(1), &ConnectionId::new(0)),
        Err(ContractError::IbcChannelError { error: ChannelError::UnknownOrderType { .. } })
    ));
    match on_chan_close_confirm_submessage(&known, &port(), &ChannelId::new(1)).unwrap() {
        ModuleChannelMsg::CloseConfirm { channel } => assert_eq!(channel.connection_id, "connection-0"),
        _ => panic!("close confirm is told as close confirm"),
    }
}

#[test]
fn stored_channel_is_answered_in_protobuf() {
    let mut ctx = host_with_connection();
    let outcome = ctx.validate_channel_open_init(&port(), proposed(State::Init, None), &live()).unwrap();
    let raw = ibc::core::channel::types::proto::v1::Channel {
        state: 0,
        ordering: 1,
        counterparty: Some(ibc::core::channel::types::proto::v1::Counterparty {
            port_id: "their-xcall".to_string(),
            channel_id: String::new(),
        }),
        connection_hops: vec!["connection-0".to_string()],
        version: "xcall-1".to_string(),
    };
    let q = QueryMsg::GetChannel { port_id: "xcall".to_string(), channel_id: outcome.channel_id.as_str().to_string() };
    match ctx.query(&q).unwrap() {
        QueryResponse::Text(t) => assert_eq!(t, hex::encode(raw.encode_to_vec())),
        _ => panic!("a channel is answered in hexadecimal"),
    }
    let missing = QueryMsg::GetChannel { port_id: "xcall".to_string(), channel_id: "channel-9".to_string() };
    assert!(matches!(
        ctx.query(&missing),
        Err(ContractError::IbcChannelError { error: ChannelError::ChannelNotFound { .. } })
    ));
}

#[test]
fn open_init_reads_a_refused_version_as_none() {
    let mut ctx = host();
    let blank = Version { identifier: " ".to_string(), features: vec![] };
    let id = ctx.connection_open_init(init_msg(Some(blank)), &live()).unwrap();
    let end = ctx.connection_end(&id).unwrap();
    assert_eq!(end.versions.len(), 1);
    assert_eq!(end.versions[0].identifier, "1");
    assert_eq!(end.versions[0].features, default_version().features);
}

#[test]
fn open_init_refuses_a_counterparty_without_prefix() {
    let mut ctx = host();
    let mut msg = init_msg(None);
    msg.counterparty = Some(RawConnectionCounterparty {
        client_id: "07-tendermint-0".to_string(),
        connection_id: String::new(),
        prefix: None,
    });
    assert_eq!(
        ctx.connection_open_init(msg, &live()).unwrap_err(),
        ContractError::IbcConnectionError { error: ConnectionError::MissingCounterparty }
    );
    assert_eq!(ctx.connection_counter().unwrap(), 0);
    let frozen = ClientFacts { frozen: true, latest_height: Height::new(0, 10) };
    let mut msg = init_msg(None);
    msg.counterparty = None;
    assert!(matches!(
        ctx.connection_open_init(msg, &frozen).unwrap_err(),
        ContractError::IbcClientError { .. }
    ));
}

#[test]
fn frozen_client_is_reported_before_a_bad_counterparty() {
    let mut ctx = host();
    let mut msg = try_msg();
    msg.counterparty = None;
    msg.counterparty_versions = vec![Version { identifier: String::new(), features: vec![] }];
    let frozen = ClientFacts { frozen: true, latest_height: Height::new(0, 10) };
    assert!(matches!(
        ctx.connection_open_try(&msg, &frozen, &consensus(), &vec![], 10, &b"wasm".to_vec(), true).unwrap_err(),
        ContractError::IbcClientError { .. }
    ));
    assert_eq!(
        ctx.connection_open_try(&msg, &live(), &consensus(), &vec![], 10, &b"wasm".to_vec(), true).unwrap_err(),
        ContractError::IbcConnectionError { error: ConnectionError::MissingCounterparty }
    );
    let mut msg = try_msg();
    msg.counterparty_versions.push(Version { identifier: "1".to_string(), features: vec!["\t".to_string()] });
    assert_eq!(
        ctx.connection_open_try(&msg, &live(), &consensus(), &vec![], 10, &b"wasm".to_vec(), true).unwrap_err(),
        ContractError::IbcConnectionError { error: ConnectionError::EmptyFeatures }
    );
    assert_eq!(ctx.connection_counter().unwrap(), 0);
}
