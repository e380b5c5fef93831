use cw_ibc_core::conversions::{
    module_packet, to_ibc_channel, to_ibc_counterparty, to_ibc_packet, to_ibc_timestamp, to_ibc_version,
    to_ibc_versions, RawChannel, RawChannelCounterparty, RawConnectionCounterparty, RawHeight, RawPacket,
};
use cw_ibc_core::error::{ChannelError, ClientError, ConnectionError, ContractError};
use cw_ibc_core::ibc_types::{Height, Order, Packet, State, TimeoutHeight, Version};
use cw_ibc_core::ics03_connection::conn_types::{
    MsgConnectionOpenAck, MsgConnectionOpenConfirm, MsgConnectionOpenInit, MsgConnectionOpenTry,
    RawMsgConnectionOpenAck, RawMsgConnectionOpenConfirm, RawMsgConnectionOpenInit, RawMsgConnectionOpenTry,
};
use cw_ibc_core::ics04_channel::msgs::{
    MsgChannelCloseInit, MsgChannelConfirm, MsgChannelOpenAck, MsgChannelOpenInit, MsgChannelOpenTry,
    RawMsgChannelCloseConfirm, RawMsgChannelCloseInit, RawMsgChannelOpenAck, RawMsgChannelOpenConfirm,
    RawMsgChannelOpenInit, RawMsgChannelOpenTry,
};
use cw_ibc_core::ics04_channel::packet::packet_types::{MsgRecvPacket, RawMsgRecvPacket};
use cw_ibc_core::ics04_channel::packet::receive_packet::TimeoutBlock;
use cw_ibc_core::types::{ChannelId, ConnectionId, PortId};

fn version(identifier: &str, features: &[&str]) -> Version {
    Version { identifier: identifier.to_string(), features: features.iter().map(|f| f.to_string()).collect() }
}

fn counterparty(connection_id: &str, prefix: Option<&[u8]>) -> RawConnectionCounterparty {
    RawConnectionCounterparty {
        client_id: "07-tendermint-0".to_string(),
        connection_id: connection_id.to_string(),
        prefix: prefix.map(|p| p.to_vec()),
    }
}

fn raw_channel(state: i32, ordering: i32, hops: &[&str]) -> RawChannel {
    RawChannel {
        state,
        ordering,
        counterparty: Some(RawChannelCounterparty { port_id: "their-port".to_string(), channel_id: String::new() }),
        connection_hops: hops.iter().map(|h| h.to_string()).collect(),
        version: "ics20-1".to_string(),
    }
}

fn conn_err(error: ConnectionError) -> ContractError {
    ContractError::IbcConnectionError { error }
}

fn chan_err(error: ChannelError) -> ContractError {
    ContractError::IbcChannelError { error }
}

#[test]
fn version_must_be_given_and_not_blank() {
    assert_eq!(to_ibc_version(None).unwrap_err(), conn_err(ConnectionError::EmptyVersions));
    assert_eq!(to_ibc_version(Some(version("", &[]))).unwrap_err(), conn_err(ConnectionError::EmptyVersions));
    assert_eq!(to_ibc_version(Some(version("  ", &["ORDER_ORDERED"]))).unwrap_err(), conn_err(ConnectionError::EmptyVersions));
    assert_eq!(
        to_ibc_version(Some(version("1", &["ORDER_ORDERED", " "]))).unwrap_err(),
        conn_err(ConnectionError::EmptyFeatures)
    );
    let v = to_ibc_version(Some(version("1", &["ORDER_ORDERED"]))).unwrap();
    assert_eq!(v.identifier, "1");
    assert_eq!(v.features, vec!["ORDER_ORDERED".to_string()]);
}

#[test]
fn versions_fail_on_the_first_refused_one() {
    let ok = to_ibc_versions(vec![version("1", &["ORDER_ORDERED"]), version("2", &[])]).unwrap();
    assert_eq!(ok.len(), 2);
    assert_eq!(ok[1].identifier, "2");
    let bad = to_ibc_versions(vec![version("1", &[""]), version("", &[])]);
    assert_eq!(bad.unwrap_err(), conn_err(ConnectionError::EmptyFeatures));
    assert!(to_ibc_versions(vec![]).unwrap().is_empty());
}

#[test]
fn connection_counterparty_is_checked_in_order() {
    assert_eq!(to_ibc_counterparty(None).unwrap_err(), conn_err(ConnectionError::MissingCounterparty));
    assert_eq!(
        to_ibc_counterparty(Some(counterparty("c", Some(b"ibc")))).unwrap_err(),
        conn_err(ConnectionError::InvalidIdentifier { id: "c".to_string() })
    );
    let mut bad_client = counterparty("", Some(b"ibc"));
    bad_client.client_id = "x".to_string();
    assert_eq!(
        to_ibc_counterparty(Some(bad_client)).unwrap_err(),
        conn_err(ConnectionError::InvalidIdentifier { id: "x".to_string() })
    );
    assert_eq!(to_ibc_counterparty(Some(counterparty("", None))).unwrap_err(), conn_err(ConnectionError::MissingCounterparty));
    assert_eq!(to_ibc_counterparty(Some(counterparty("", Some(b"")))).unwrap_err(), conn_err(ConnectionError::EmptyPrefix));
    let none = to_ibc_counterparty(Some(counterparty("", Some(b"ibc")))).unwrap();
    assert_eq!(none.connection_id, None);
    assert_eq!(none.prefix, b"ibc".to_vec());
    let some = to_ibc_counterparty(Some(counterparty("connection-4", Some(b"ibc")))).unwrap();
    assert_eq!(some.connection_id, Some(ConnectionId::new(4)));
    assert_eq!(some.client_id.as_str(), "07-tendermint-0");
}

#[test]
fn channel_end_is_read_as_ibc_reads_it() {
    assert_eq!(to_ibc_channel(None).unwrap_err(), chan_err(ChannelError::MissingChannel));
    assert_eq!(
        to_ibc_channel(Some(raw_channel(9, 1, &["connection-0"]))).unwrap_err(),
        chan_err(ChannelError::InvalidState { state: 9 })
    );
    assert_eq!(
        to_ibc_channel(Some(raw_channel(1, 7, &["connection-0"]))).unwrap_err(),
        chan_err(ChannelError::InvalidOrderType { order: 7 })
    );
    let mut lonely = raw_channel(1, 1, &["connection-0"]);
    lonely.counterparty = None;
    assert_eq!(to_ibc_channel(Some(lonely)).unwrap_err(), chan_err(ChannelError::MissingCounterparty));
    assert_eq!(
        to_ibc_channel(Some(raw_channel(1, 1, &["connection-0", "bad"]))).unwrap_err(),
        chan_err(ChannelError::InvalidIdentifier { id: "bad".to_string() })
    );
    assert_eq!(
        to_ibc_channel(Some(raw_channel(0, 1, &["connection-0"]))).unwrap_err(),
        chan_err(ChannelError::InvalidState { state: 0 })
    );
    assert_eq!(
        to_ibc_channel(Some(raw_channel(1, 0, &["connection-0"]))).unwrap_err(),
        chan_err(ChannelError::InvalidOrderType { order: 0 })
    );
    let end = to_ibc_channel(Some(raw_channel(2, 2, &["connection-3"]))).unwrap();
    assert_eq!(end.state, State::TryOpen);
    assert_eq!(end.ordering, Order::Ordered);
    assert_eq!(end.remote.port_id.as_str(), "their-port");
    assert_eq!(end.remote.channel_id, None);
    assert_eq!(end.connection_hops, vec![ConnectionId::new(3)]);
    assert_eq!(end.version, "ics20-1");
}

#[test]
fn state_and_order_numbers_round_trip() {
    for s in [State::Uninitialized, State::Init, State::TryOpen, State::Open, State::Closed] {
        assert_eq!(State::from_i32(s.proto_number()), Some(s));
    }
    for o in [Order::NoOrder, Order::Unordered, Order::Ordered] {
        assert_eq!(Order::from_i32(o.proto_number()), Some(o));
    }
    assert_eq!(State::from_i32(-1), None);
    assert_eq!(Order::from_i32(3), None);
}

fn raw_packet(timeout_height: Option<RawHeight>) -> RawPacket {
    RawPacket {
        sequence: 3,
        source_port: "our-port".to_string(),
        source_channel: "channel-0".to_string(),
        destination_port: "their-port".to_string(),
        destination_channel: "channel-7".to_string(),
        data: b"hi".to_vec(),
        timeout_height,
        timeout_timestamp: 77,
    }
}

#[test]
fn timestamps_and_module_packets() {
    assert_eq!(to_ibc_timestamp(0), Ok(0));
    assert_eq!(to_ibc_timestamp(1_700_000_000_000_000_000), Ok(1_700_000_000_000_000_000));
    let m = to_ibc_packet(raw_packet(None)).unwrap();
    assert_eq!(m.timeout.block, TimeoutBlock { revision: 1, height: 1 });
    assert_eq!(m.timeout.timestamp, Some(77));
    assert_eq!(m.src.channel_id, "channel-0");
    assert_eq!(m.dest.port_id, "their-port");
    let at = to_ibc_packet(raw_packet(Some(RawHeight { revision_number: 2, revision_height: 5 }))).unwrap();
    assert_eq!(at.timeout.block, TimeoutBlock { revision: 2, height: 5 });
    assert_eq!(
        to_ibc_packet(raw_packet(Some(RawHeight { revision_number: 2, revision_height: 0 }))).unwrap_err(),
        ContractError::IbcClientError { error: ClientError::InvalidHeight }
    );
    let p = Packet::from_raw(raw_packet(None)).unwrap();
    assert_eq!(p.timeout_height, TimeoutHeight::Never);
    let seen = module_packet(&p, false);
    assert_eq!(seen.timeout.timestamp, None);
    assert_eq!(seen.data, b"hi".to_vec());
    assert_eq!(module_packet(&p, true).timeout.timestamp, Some(77));
}

#[test]
fn raw_packet_needs_valid_identifiers() {
    let mut bad = raw_packet(None);
    bad.destination_channel = "seven".to_string();
    assert!(matches!(Packet::from_raw(bad), Err(ContractError::IbcValidationError { .. })));
    let recv = RawMsgRecvPacket {
        packet: Some(raw_packet(None)),
        proof_commitment: vec![1],
        proof_height: None,
        signer: "relayer".to_string(),
    };
    assert_eq!(MsgRecvPacket::from_raw(recv).unwrap_err(), ContractError::InvalidHeight);
    let recv = RawMsgRecvPacket {
        packet: Some(raw_packet(None)),
        proof_commitment: vec![1],
        proof_height: Some(RawHeight { revision_number: 0, revision_height: 4 }),
        signer: "relayer".to_string(),
    };
    let m = MsgRecvPacket::from_raw(recv).unwrap();
    assert_eq!(m.proof_height, Height::new(0, 4));
    assert_eq!(m.packet.sequence, 3);
}

fn raw_try() -> RawMsgConnectionOpenTry {
    RawMsgConnectionOpenTry {
        client_id: "iconclient-0".to_string(),
        client_state: Some(vec![1]),
        counterparty: Some(counterparty("connection-2", Some(b"ibc"))),
        delay_period: 0,
        counterparty_versions: vec![version("1", &["ORDER_ORDERED"])],
        proof_height: Some(RawHeight { revision_number: 0, revision_height: 5 }),
        proof_init: vec![2],
        proof_client: vec![3],
        proof_consensus: vec![4],
        consensus_height: Some(RawHeight { revision_number: 0, revision_height: 6 }),
    }
}

#[test]
fn connection_messages_are_read_in_handshake_order() {
    let init = MsgConnectionOpenInit::from_raw(RawMsgConnectionOpenInit {
        client_id: "iconclient-0".to_string(),
        counterparty: None,
        version: None,
        delay_period: 9,
    })
    .unwrap();
    assert_eq!(init.client_id.as_str(), "iconclient-0");
    assert_eq!(init.delay_period, 9);

    let m = MsgConnectionOpenTry::from_raw(raw_try()).unwrap();
    assert_eq!(m.counterparty.as_ref().unwrap().connection_id, "connection-2");
    assert_eq!(m.consensus_height, Height::new(0, 6));
    let mut missing = raw_try();
    missing.client_state = None;
    missing.client_id = "?".to_string();
    assert_eq!(MsgConnectionOpenTry::from_raw(missing).unwrap_err(), conn_err(ConnectionError::MissingClientState));
    let mut bad_height = raw_try();
    bad_height.consensus_height = Some(RawHeight { revision_number: 1, revision_height: 0 });
    assert_eq!(
        MsgConnectionOpenTry::from_raw(bad_height).unwrap_err(),
        ContractError::IbcClientError { error: ClientError::InvalidHeight }
    );
    let mut later = raw_try();
    later.counterparty = None;
    later.counterparty_versions.push(version("", &[]));
    let read = MsgConnectionOpenTry::from_raw(later).unwrap();
    assert!(read.counterparty.is_none());
    assert_eq!(read.counterparty_versions.len(), 2);

    let ack = RawMsgConnectionOpenAck {
        connection_id: "connection-0".to_string(),
        counterparty_connection_id: "connection-8".to_string(),
        version: None,
        client_state: Some(vec![1]),
        proof_height: Some(RawHeight { revision_number: 0, revision_height: 5 }),
        proof_try: vec![],
        proof_client: vec![],
        proof_consensus: vec![],
        consensus_height: Some(RawHeight { revision_number: 0, revision_height: 5 }),
    };
    assert_eq!(MsgConnectionOpenAck::from_raw(ack).unwrap_err(), conn_err(ConnectionError::EmptyVersions));

    let confirm = MsgConnectionOpenConfirm::from_raw(RawMsgConnectionOpenConfirm {
        connection_id: "connection-1".to_string(),
        proof_ack: vec![5],
        proof_height: Some(RawHeight { revision_number: 0, revision_height: 2 }),
    })
    .unwrap();
    assert_eq!(confirm.connection_id, ConnectionId::new(1));
    assert_eq!(confirm.proof_height, Height::new(0, 2));
}

#[test]
fn channel_messages_are_read_in_handshake_order() {
    let init = MsgChannelOpenInit::from_raw(RawMsgChannelOpenInit {
        port_id: "our-port".to_string(),
        channel: Some(raw_channel(1, 1, &["connection-0"])),
        signer: String::new(),
    })
    .unwrap();
    assert_eq!(init.port_id, PortId::from_string("our-port".to_string()).unwrap());
    assert_eq!(init.channel.state, State::Init);
    let bad_port_and_channel = MsgChannelOpenInit::from_raw(RawMsgChannelOpenInit {
        port_id: "?".to_string(),
        channel: None,
        signer: String::new(),
    });
    assert_eq!(bad_port_and_channel.unwrap_err(), chan_err(ChannelError::MissingChannel));
    let tried = MsgChannelOpenTry::from_raw(RawMsgChannelOpenTry {
        port_id: "our-port".to_string(),
        previous_channel_id: String::new(),
        channel: Some(raw_channel(2, 1, &["connection-0"])),
        counterparty_version: "ics20-1".to_string(),
        proof_init: vec![1],
        proof_height: None,
        signer: String::new(),
    });
    assert_eq!(tried.unwrap_err(), ContractError::InvalidHeight);
    let ack = MsgChannelOpenAck::from_raw(RawMsgChannelOpenAck {
        port_id: "our-port".to_string(),
        channel_id: "channel-0".to_string(),
        counterparty_channel_id: "channel-3".to_string(),
        counterparty_version: "ics20-1".to_string(),
        proof_try: vec![1],
        proof_height: Some(RawHeight { revision_number: 0, revision_height: 1 }),
        signer: String::new(),
    })
    .unwrap();
    assert_eq!(ack.counterparty_channel_id, ChannelId::new(3));
    let confirm = MsgChannelConfirm::from_open_confirm(RawMsgChannelOpenConfirm {
        port_id: "our-port".to_string(),
        channel_id: "channel-0".to_string(),
        proof_ack: vec![4],
        proof_height: Some(RawHeight { revision_number: 0, revision_height: 1 }),
        signer: String::new(),
    })
    .unwrap();
    assert_eq!(confirm.proof, vec![4]);
    let close = MsgChannelConfirm::from_close_confirm(RawMsgChannelCloseConfirm {
        port_id: "our-port".to_string(),
        channel_id: "chan".to_string(),
        proof_init: vec![4],
        proof_height: Some(RawHeight { revision_number: 0, revision_height: 1 }),
        signer: String::new(),
    });
    assert!(matches!(close, Err(ContractError::IbcValidationError { .. })));
    let close_init = MsgChannelCloseInit::from_raw(RawMsgChannelCloseInit {
        port_id: "our-port".to_string(),
        channel_id: "channel-0".to_string(),
        signer: String::new(),
    })
    .unwrap();
    assert_eq!(close_init.channel_id, ChannelId::new(0));
}

#[test]
fn versions_trim_unicode_white_space() {
    assert_eq!(
        to_ibc_version(Some(version("\u{3000}\t\u{2028}", &["ORDER_ORDERED"]))).unwrap_err(),
        conn_err(ConnectionError::EmptyVersions)
    );
    assert_eq!(
        to_ibc_version(Some(version("1", &["ORDER_ORDERED", "\u{a0}\u{85}"]))).unwrap_err(),
        conn_err(ConnectionError::EmptyFeatures)
    );
    assert!(to_ibc_version(Some(version("\u{200b}", &["ORDER_ORDERED"]))).is_ok());
}
