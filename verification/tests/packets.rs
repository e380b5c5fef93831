use cw_ibc_core::context::CwIbcCoreContext;
use cw_ibc_core::error::{ContractError, PacketError};
use cw_ibc_core::ibc_types::{
    ChannelEnd, ConnectionCounterparty, ConnectionEnd, ConnectionState, Counterparty, Height, Order,
    Packet, State, TimeoutHeight, Version,
};
use cw_ibc_core::ics04_channel::packet::functions::compute_packet_commitment;
use cw_ibc_core::ics04_channel::packet::packet_types::{
    ClientFacts, ConsensusFacts, LightClientPacketMessage, MsgAcknowledgement, MsgRecvPacket,
    MsgTimeout, MsgTimeoutOnClose,
};
use cw_ibc_core::ics04_channel::packet::receive_packet::{RecvOutcome, TimeoutBlock};
use cw_ibc_core::query::{QueryMsg, QueryResponse};
use cw_ibc_core::types::{ChannelId, ClientId, ConnectionId, PortId};
use prost::Message;
use sha2::{Digest, Sha256};
use sha3::Keccak256;

const MODULE: &str = "module-addr";

fn sent_height(ctx: &CwIbcCoreContext, sequence: u64) -> Option<u64> {
    ctx.ibc_store().packet_receipts().get(&(our_port(), ChannelId::new(0), sequence)).copied()
}

fn our_port() -> PortId {
    PortId::from_string("our-port".to_string()).unwrap()
}

fn their_port() -> PortId {
    PortId::from_string("their-port".to_string()).unwrap()
}

fn client_id() -> ClientId {
    ClientId::from_string("iconclient-0".to_string()).unwrap()
}

fn live_client() -> ClientFacts {
    ClientFacts { frozen: false, latest_height: Height::new(1, 10) }
}

fn consensus() -> ConsensusFacts {
    ConsensusFacts { root: vec![7u8; 32], timestamp: 50 }
}

/// A host with an open connection `connection-0` and an open channel
/// `our-port/channel-0` facing `their-port/channel-7`, whose port is held by
/// `module-addr`.
fn host_with_channel(ordering: Order) -> CwIbcCoreContext {
    let mut ctx = CwIbcCoreContext::new();
    ctx.instantiate("owner".to_string()).unwrap();
    ctx.store_capability(b"our-port".to_vec(), vec![MODULE.to_string()]).unwrap();
    let connection = ConnectionEnd {
        state: ConnectionState::Open,
        client_id: client_id(),
        counterparty: ConnectionCounterparty {
            client_id: ClientId::from_string("07-tendermint-0".to_string()).unwrap(),
            connection_id: Some(ConnectionId::new(5)),
            prefix: b"ibc".to_vec(),
        },
        versions: vec![Version {
            identifier: "1".to_string(),
            features: vec!["ORDER_ORDERED".to_string(), "ORDER_UNORDERED".to_string()],
        }],
        delay_period: 0,
    };
    ctx.store_connection(&ConnectionId::new(0), connection).unwrap();
    let channel = ChannelEnd {
        state: State::Open,
        ordering,
        remote: Counterparty { port_id: their_port(), channel_id: Some(ChannelId::new(7)) },
        connection_hops: vec![ConnectionId::new(0)],
        version: "ics20-1".to_string(),
    };
    ctx.store_channel_end(&our_port(), &ChannelId::new(0), channel).unwrap();
    ctx.store_next_sequence_send(&our_port(), &ChannelId::new(0), 1).unwrap();
    ctx.store_next_sequence_recv(&our_port(), &ChannelId::new(0), 1).unwrap();
    ctx.store_next_sequence_ack(&our_port(), &ChannelId::new(0), 1).unwrap();
    ctx.store_last_processed_on(&client_id(), 5, 10).unwrap();
    ctx
}

fn outgoing(sequence: u64) -> Packet {
    Packet {
        sequence,
        source_port: our_port(),
        source_channel: ChannelId::new(0),
        destination_port: their_port(),
        destination_channel: ChannelId::new(7),
        data: b"hello".to_vec(),
        timeout_height: TimeoutHeight::At(Height::new(1, 100)),
        timeout_timestamp: 0,
    }
}

fn incoming(sequence: u64) -> Packet {
    Packet {
        sequence,
        source_port: their_port(),
        source_channel: ChannelId::new(7),
        destination_port: our_port(),
        destination_channel: ChannelId::new(0),
        data: b"hello".to_vec(),
        timeout_height: TimeoutHeight::At(Height::new(0, 100)),
        timeout_timestamp: 0,
    }
}

fn expected_commitment(data: &[u8], timestamp: u64, revision: u64, height: u64) -> Vec<u8> {
    let mut hasher = Sha256::new();
    hasher.update(timestamp.to_be_bytes());
    hasher.update(revision.to_be_bytes());
    hasher.update(height.to_be_bytes());
    hasher.update(Sha256::digest(data));
    hasher.finalize().to_vec()
}

#[test]
fn packet_commitment_matches_its_definition() {
    let c = compute_packet_commitment(b"hello", &TimeoutHeight::At(Height::new(1, 100)), 42);
    assert_eq!(c, expected_commitment(b"hello", 42, 1, 100));
    let never = compute_packet_commitment(b"", &TimeoutHeight::Never, 0);
    assert_eq!(never, expected_commitment(b"", 0, 0, 0));
    assert_ne!(c, b"hello".to_vec());
}

#[test]
fn send_packet_stores_commitment_and_advances_sequence() {
    let mut ctx = host_with_channel(Order::Ordered);
    let outcome = ctx
        .send_packet(&MODULE.to_string(), &outgoing(1), &live_client(), 0, 12)
        .unwrap();
    assert_eq!(outcome.connection_id, ConnectionId::new(0));
    assert_eq!(outcome.ordering, Order::Ordered);
    let stored = ctx.get_packet_commitment(&our_port(), &ChannelId::new(0), 1).unwrap();
    assert_eq!(stored, expected_commitment(b"hello", 0, 1, 100));
    assert_eq!(ctx.get_next_sequence_send(&our_port(), &ChannelId::new(0)).unwrap(), 2);
    assert_eq!(sent_height(&ctx, 1), Some(12));
}

#[test]
fn send_packet_twice_with_same_sequence_fails() {
    let mut ctx = host_with_channel(Order::Ordered);
    ctx.send_packet(&MODULE.to_string(), &outgoing(1), &live_client(), 0, 12).unwrap();
    let again = ctx.send_packet(&MODULE.to_string(), &outgoing(1), &live_client(), 0, 12);
    assert_eq!(
        again.unwrap_err(),
        ContractError::IbcPacketError {
            error: PacketError::InvalidPacketSequence { given_sequence: 1, next_sequence: 2 }
        }
    );
}

#[test]
fn send_packet_by_stranger_is_unauthorized() {
    let mut ctx = host_with_channel(Order::Ordered);
    let r = ctx.send_packet(&"stranger".to_string(), &outgoing(1), &live_client(), 0, 12);
    assert_eq!(r.unwrap_err(), ContractError::Unauthorized);
    assert!(ctx.get_packet_commitment(&our_port(), &ChannelId::new(0), 1).is_err());
    assert_eq!(ctx.get_next_sequence_send(&our_port(), &ChannelId::new(0)).unwrap(), 1);
}

#[test]
fn send_packet_after_timeout_height_fails() {
    let mut ctx = host_with_channel(Order::Ordered);
    let client = ClientFacts { frozen: false, latest_height: Height::new(1, 100) };
    let r = ctx.send_packet(&MODULE.to_string(), &outgoing(1), &client, 0, 12);
    assert_eq!(
        r.unwrap_err(),
        ContractError::IbcPacketError {
            error: PacketError::LowPacketHeight {
                chain_height: Height::new(1, 100),
                timeout_height: TimeoutHeight::At(Height::new(1, 100)),
            }
        }
    );
}

#[test]
fn send_packet_after_timeout_timestamp_fails() {
    let mut ctx = host_with_channel(Order::Ordered);
    let mut packet = outgoing(1);
    packet.timeout_timestamp = 100;
    let r = ctx.send_packet(&MODULE.to_string(), &packet, &live_client(), 200, 12);
    assert_eq!(
        r.unwrap_err(),
        ContractError::IbcPacketError { error: PacketError::LowPacketTimestamp }
    );
}

#[test]
fn send_packet_with_frozen_client_fails() {
    let mut ctx = host_with_channel(Order::Ordered);
    let client = ClientFacts { frozen: true, latest_height: Height::new(1, 10) };
    let r = ctx.send_packet(&MODULE.to_string(), &outgoing(1), &client, 0, 12);
    assert_eq!(
        r.unwrap_err(),
        ContractError::IbcPacketError { error: PacketError::FrozenClient { client_id: client_id() } }
    );
}

fn recv_msg(sequence: u64) -> MsgRecvPacket {
    MsgRecvPacket {
        packet: incoming(sequence),
        proof_commitment: vec![1, 2, 3],
        proof_height: Height::new(1, 9),
        signer: "relayer".to_string(),
    }
}

#[test]
fn receive_packet_asks_for_the_sender_commitment() {
    let ctx = host_with_channel(Order::Ordered);
    let payload = ctx
        .receive_packet_proof(&recv_msg(1), &live_client(), &consensus(), 20)
        .unwrap()
        .unwrap();
    assert_eq!(payload.height, "1-9");
    assert_eq!(payload.prefix, b"ibc".to_vec());
    assert_eq!(payload.proof, vec![1, 2, 3]);
    assert_eq!(payload.root, vec![7u8; 32]);
    assert_eq!(
        payload.commitment_path,
        b"commitments/ports/their-port/channels/channel-7/sequences/1".to_vec()
    );
    assert_eq!(payload.commitment, expected_commitment(b"hello", 0, 0, 100));
}

#[test]
fn ordered_packet_is_received_once() {
    let mut ctx = host_with_channel(Order::Ordered);
    let first = ctx
        .validate_receive_packet(&recv_msg(1), &live_client(), &consensus(), 20, true)
        .unwrap();
    match first {
        RecvOutcome::Delivered { module_address, connection_id, ordering, packet } => {
            assert_eq!(module_address, MODULE);
            assert_eq!(packet.sequence, 1);
            assert_eq!(packet.src.port_id, "their-port");
            assert_eq!(packet.dest.channel_id, "channel-0");
            assert_eq!(packet.timeout.block, TimeoutBlock { revision: 0, height: 100 });
            assert_eq!(packet.timeout.timestamp, None);
            assert_eq!(connection_id, ConnectionId::new(0));
            assert_eq!(ordering, Order::Ordered);
        }
        RecvOutcome::AlreadyReceived => panic!("first delivery reported as a repeat"),
    }
    assert_eq!(ctx.get_next_sequence_recv(&our_port(), &ChannelId::new(0)).unwrap(), 2);
    let second = ctx
        .validate_receive_packet(&recv_msg(1), &live_client(), &consensus(), 20, true)
        .unwrap();
    assert!(matches!(second, RecvOutcome::AlreadyReceived));
    assert_eq!(ctx.get_next_sequence_recv(&our_port(), &ChannelId::new(0)).unwrap(), 2);
}

#[test]
fn ordered_packet_ahead_of_sequence_fails() {
    let mut ctx = host_with_channel(Order::Ordered);
    let r = ctx.validate_receive_packet(&recv_msg(3), &live_client(), &consensus(), 20, true);
    assert_eq!(
        r.unwrap_err(),
        ContractError::IbcPacketError {
            error: PacketError::InvalidPacketSequence { given_sequence: 3, next_sequence: 1 }
        }
    );
}

#[test]
fn unordered_packet_leaves_a_receipt() {
    let mut ctx = host_with_channel(Order::Unordered);
    assert!(ctx.get_packet_receipt(&our_port(), &ChannelId::new(0), 4).is_err());
    ctx.validate_receive_packet(&recv_msg(4), &live_client(), &consensus(), 20, true)
        .unwrap();
    assert!(ctx.get_packet_receipt(&our_port(), &ChannelId::new(0), 4).is_ok());
    let again = ctx
        .validate_receive_packet(&recv_msg(4), &live_client(), &consensus(), 20, true)
        .unwrap();
    assert!(matches!(again, RecvOutcome::AlreadyReceived));
}

#[test]
fn rejected_proof_changes_nothing() {
    let mut ctx = host_with_channel(Order::Ordered);
    let r = ctx.validate_receive_packet(&recv_msg(1), &live_client(), &consensus(), 20, false);
    assert!(matches!(r, Err(ContractError::LightClientValidationFailed(_))));
    assert_eq!(ctx.get_next_sequence_recv(&our_port(), &ChannelId::new(0)).unwrap(), 1);
}

#[test]
fn timed_out_packet_is_not_received() {
    let mut ctx = host_with_channel(Order::Ordered);
    let r = ctx.validate_receive_packet(&recv_msg(1), &live_client(), &consensus(), 100, true);
    assert_eq!(
        r.unwrap_err(),
        ContractError::IbcPacketError {
            error: PacketError::LowPacketHeight {
                chain_height: Height::new(0, 100),
                timeout_height: TimeoutHeight::At(Height::new(0, 100)),
            }
        }
    );
}

fn ack_msg() -> MsgAcknowledgement {
    MsgAcknowledgement {
        packet: outgoing(1),
        acknowledgement: b"done".to_vec(),
        proof_acked: vec![9],
        proof_height: Height::new(1, 12),
        signer: "relayer".to_string(),
    }
}

#[test]
fn acknowledgement_removes_the_commitment() {
    let mut ctx = host_with_channel(Order::Ordered);
    ctx.send_packet(&MODULE.to_string(), &outgoing(1), &live_client(), 0, 12).unwrap();
    let payload = ctx
        .acknowledgement_packet_proof(&ack_msg(), &live_client(), &consensus(), 100, 50)
        .unwrap();
    assert_eq!(payload.ack_path, b"acks/ports/their-port/channels/channel-7/sequences/1".to_vec());
    assert_eq!(payload.ack, b"done".to_vec());
    let outcome = ctx
        .acknowledgement_packet_validate(&ack_msg(), &live_client(), &consensus(), 100, 50, true)
        .unwrap();
    assert_eq!(outcome.module_address, MODULE);
    assert_eq!(outcome.packet.timeout.block, TimeoutBlock { revision: 1, height: 100 });
    assert_eq!(outcome.packet.timeout.timestamp, Some(0));
    assert_eq!(outcome.packet.data, b"hello".to_vec());
    assert!(ctx.get_packet_commitment(&our_port(), &ChannelId::new(0), 1).is_err());
    assert_eq!(ctx.get_next_sequence_ack(&our_port(), &ChannelId::new(0)).unwrap(), 2);
    assert_eq!(sent_height(&ctx, 1), Some(0));
    let again =
        ctx.acknowledgement_packet_validate(&ack_msg(), &live_client(), &consensus(), 100, 50, true);
    assert!(matches!(again, Err(ContractError::IbcDecodeError { .. })));
}

#[test]
fn acknowledgement_of_unsent_packet_fails() {
    let mut ctx = host_with_channel(Order::Ordered);
    let r = ctx.acknowledgement_packet_validate(&ack_msg(), &live_client(), &consensus(), 100, 50, true);
    assert!(matches!(r, Err(ContractError::IbcDecodeError { .. })));
}

#[test]
fn acknowledgement_of_altered_packet_fails() {
    let mut ctx = host_with_channel(Order::Ordered);
    ctx.send_packet(&MODULE.to_string(), &outgoing(1), &live_client(), 0, 12).unwrap();
    let mut msg = ack_msg();
    msg.packet.data = b"forged".to_vec();
    let r = ctx.acknowledgement_packet_validate(&msg, &live_client(), &consensus(), 100, 50, true);
    assert_eq!(
        r.unwrap_err(),
        ContractError::IbcPacketError { error: PacketError::IncorrectPacketCommitment { sequence: 1 } }
    );
}

fn timeout_msg(proof_height: Height) -> MsgTimeout {
    MsgTimeout {
        packet: outgoing(1),
        next_sequence_recv: 1,
        proof_unreceived: vec![4],
        proof_height,
        signer: "relayer".to_string(),
    }
}

#[test]
fn timeout_closes_an_ordered_channel() {
    let mut ctx = host_with_channel(Order::Ordered);
    ctx.send_packet(&MODULE.to_string(), &outgoing(1), &live_client(), 0, 12).unwrap();
    let msg = timeout_msg(Height::new(1, 100));
    let request = ctx.timeout_packet_proof(&msg, &consensus(), 100, 50).unwrap();
    match request {
        LightClientPacketMessage::VerifyNextSequenceRecv { seq_recv_path, sequence, .. } => {
            assert_eq!(seq_recv_path, b"nextSequenceRecv/ports/their-port/channels/channel-7".to_vec());
            assert_eq!(sequence, 1);
        }
        LightClientPacketMessage::VerifyPacketReceiptAbsence { .. } => panic!("ordered channel asks for the next sequence"),
    }
    let outcome = ctx
        .timeout_packet_validate_to_light_client(&msg, &consensus(), 100, 50, true)
        .unwrap();
    assert_eq!(outcome.module_address, MODULE);
    assert_eq!(outcome.packet.timeout.block, TimeoutBlock { revision: 1, height: 100 });
    assert_eq!(outcome.packet.timeout.timestamp, None);
    assert_eq!(outcome.packet.data, b"hello".to_vec());
    assert!(ctx.get_packet_commitment(&our_port(), &ChannelId::new(0), 1).is_err());
    assert_eq!(ctx.get_channel_end(&our_port(), &ChannelId::new(0)).unwrap().state, State::Closed);
    let again = ctx.timeout_packet_validate_to_light_client(&msg, &consensus(), 100, 50, true);
    assert!(again.is_err());
    let ack = ctx.acknowledgement_packet_validate(&ack_msg(), &live_client(), &consensus(), 100, 50, true);
    assert!(ack.is_err());
}

#[test]
fn timeout_before_its_height_fails() {
    let mut ctx = host_with_channel(Order::Unordered);
    ctx.send_packet(&MODULE.to_string(), &outgoing(1), &live_client(), 0, 12).unwrap();
    let msg = timeout_msg(Height::new(1, 99));
    let r = ctx.timeout_packet_validate_to_light_client(&msg, &consensus(), 100, 50, true);
    assert_eq!(
        r.unwrap_err(),
        ContractError::IbcPacketError {
            error: PacketError::PacketTimeoutHeightNotReached {
                timeout_height: TimeoutHeight::At(Height::new(1, 100)),
                chain_height: Height::new(1, 99),
            }
        }
    );
    assert!(ctx.get_packet_commitment(&our_port(), &ChannelId::new(0), 1).is_ok());
}

#[test]
fn timeout_of_unordered_packet_keeps_channel_open() {
    let mut ctx = host_with_channel(Order::Unordered);
    ctx.send_packet(&MODULE.to_string(), &outgoing(1), &live_client(), 0, 12).unwrap();
    let msg = timeout_msg(Height::new(1, 150));
    ctx.timeout_packet_validate_to_light_client(&msg, &consensus(), 100, 50, true).unwrap();
    assert_eq!(ctx.get_channel_end(&our_port(), &ChannelId::new(0)).unwrap().state, State::Open);
    assert!(ctx.get_packet_commitment(&our_port(), &ChannelId::new(0), 1).is_err());
}

#[test]
fn timeout_on_close_needs_the_proof_of_the_closed_end() {
    let mut ctx = host_with_channel(Order::Unordered);
    ctx.send_packet(&MODULE.to_string(), &outgoing(1), &live_client(), 0, 12).unwrap();
    let msg = MsgTimeoutOnClose {
        packet: outgoing(1),
        next_sequence_recv: 1,
        proof_unreceived: vec![4],
        proof_close: vec![5],
        proof_height: Height::new(1, 20),
        signer: "relayer".to_string(),
    };
    let (channel_request, _) = ctx
        .timeout_on_close_packet_proof(&msg, &live_client(), &consensus(), 100, 50)
        .unwrap();
    assert_eq!(channel_request.proof, vec![5]);
    assert_eq!(
        channel_request.counterparty_chan_end_path,
        b"channelEnds/ports/their-port/channels/channel-7".to_vec()
    );
    let sent = ibc::core::channel::types::proto::v1::Channel::decode(channel_request.expected_counterparty_channel_end.as_slice()).unwrap();
    assert_eq!(sent.state, 4);
    assert_eq!(sent.counterparty.unwrap().port_id, "our-port");
    let rejected = ctx.timeout_on_close_packet_validate_to_light_client(
        &msg, &live_client(), &consensus(), 100, 50, false,
    );
    assert!(matches!(rejected, Err(ContractError::LightClientValidationFailed(_))));
    assert!(ctx.get_packet_commitment(&our_port(), &ChannelId::new(0), 1).is_ok());
    let outcome = ctx
        .timeout_on_close_packet_validate_to_light_client(&msg, &live_client(), &consensus(), 100, 50, true)
        .unwrap();
    assert_eq!(outcome.module_address, MODULE);
    assert_eq!(outcome.ordering, Order::Unordered);
    assert_eq!(ctx.get_channel_end(&our_port(), &ChannelId::new(0)).unwrap().state, State::Open);
}

#[test]
fn written_acknowledgement_is_its_keccak() {
    let mut ctx = host_with_channel(Order::Unordered);
    let packet = incoming(3);
    let outcome = ctx
        .write_acknowledgement(&MODULE.to_string(), &packet, &b"ok".to_vec())
        .unwrap();
    assert_eq!(outcome.connection_id, ConnectionId::new(0));
    let stored = ctx.get_packet_acknowledgement(&our_port(), &ChannelId::new(0), 3).unwrap();
    assert_eq!(stored, Keccak256::digest(b"ok").to_vec());
    let q = QueryMsg::GetPacketAcknowledgementCommitment {
        port_id: "our-port".to_string(),
        channel_id: "channel-0".to_string(),
        sequence: 3,
    };
    match ctx.query(&q).unwrap() {
        QueryResponse::Text(t) => assert_eq!(t, hex::encode(Keccak256::digest(b"ok"))),
        _ => panic!("an acknowledgement commitment is answered in hexadecimal"),
    }
    let twice = ctx.write_acknowledgement(&MODULE.to_string(), &packet, &b"ok".to_vec());
    assert_eq!(
        twice.unwrap_err(),
        ContractError::IbcPacketError { error: PacketError::AcknowledgementExists { sequence: 3 } }
    );
}

#[test]
fn empty_acknowledgement_is_refused() {
    let mut ctx = host_with_channel(Order::Unordered);
    let r = ctx.write_acknowledgement(&MODULE.to_string(), &incoming(3), &Vec::new());
    assert_eq!(
        r.unwrap_err(),
        ContractError::IbcPacketError { error: PacketError::InvalidAcknowledgement }
    );
    let stranger = ctx.write_acknowledgement(&"stranger".to_string(), &incoming(3), &b"ok".to_vec());
    assert_eq!(stranger.unwrap_err(), ContractError::Unauthorized);
}

#[test]
fn module_reply_stores_sha256_of_acknowledgement() {
    let mut ctx = host_with_channel(Order::Unordered);
    ctx.store_callback_data(522, vec![1, 2]);
    let written = ctx.execute_receive_packet(&incoming(2), Ok(b"ack".to_vec())).unwrap();
    assert!(written.is_some());
    let stored = ctx.get_packet_acknowledgement(&our_port(), &ChannelId::new(0), 2).unwrap();
    assert_eq!(stored, Sha256::digest(b"ack").to_vec());
    assert!(ctx.get_callback_data(522).is_err());
    let none = ctx.execute_receive_packet(&incoming(5), Ok(Vec::new())).unwrap();
    assert!(none.is_none());
    let failed = ctx.execute_receive_packet(&incoming(6), Err("boom".to_string()));
    assert_eq!(failed.unwrap_err(), ContractError::IbcContextError { error: "boom".to_string() });
}

#[test]
fn a_packet_at_the_last_sequence_that_is_not_next_is_refused() {
    let mut ctx = host_with_channel(Order::Ordered);
    let r = ctx.send_packet(&MODULE.to_string(), &outgoing(u64::MAX), &live_client(), 0, 12);
    assert_eq!(
        r.unwrap_err(),
        ContractError::IbcPacketError {
            error: PacketError::InvalidPacketSequence { given_sequence: u64::MAX, next_sequence: 1 }
        }
    );
    assert_eq!(ctx.get_next_sequence_send(&our_port(), &ChannelId::new(0)).unwrap(), 1);
}
