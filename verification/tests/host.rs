use cw_ibc_core::constants::{CONTRACT_NAME, CONTRACT_VERSION};
use cw_ibc_core::context::CwIbcCoreContext;
use cw_ibc_core::conversions::{
    to_ibc_channel_id, to_ibc_height, to_ibc_port_id, to_ibc_timeout_block, to_ibc_timeout_height,
    RawHeight,
};
use cw_ibc_core::error::ContractError;
use cw_ibc_core::event::IbcEventType;
use cw_ibc_core::fee::{Coin, GasSchedule};
use cw_ibc_core::ibc_types::{Height, Order, Packet, TimeoutHeight};
use cw_ibc_core::ics04_channel::events::create_packet_event;
use cw_ibc_core::ics04_channel::packet::receive_packet::TimeoutBlock;
use cw_ibc_core::ics05_port::port::{ChannelMsg, PacketMsg};
use cw_ibc_core::ics24_host::commitment::{
    acknowledgement_commitment_path, channel_path, client_state_path, consensus_state_path,
    next_seq_recv_commitment_path, packet_commitment_path, receipt_commitment_path,
};
use cw_ibc_core::msg::MigrateMsg;
use cw_ibc_core::query::{QueryMsg, QueryResponse};
use cw_ibc_core::storage_keys::StorageKey;
use cw_ibc_core::types::{ChannelId, ClientId, ClientType, ConnectionId, ModuleId, PortId};

#[test]
fn identifiers_are_numbered() {
    assert_eq!(ConnectionId::new(5).as_str(), "connection-5");
    assert_eq!(ChannelId::new(12).as_str(), "channel-12");
    assert_ne!(ConnectionId::new(1), ConnectionId::new(10));
    assert_ne!(ChannelId::new(2), ChannelId::new(20));
    assert_eq!(PortId::transfer().as_str(), "transfer");
    let client = ClientId::new(&ClientType::new("iconclient".to_string()), 3).unwrap();
    assert_eq!(client.as_str(), "iconclient-3");
    assert!(ClientId::new(&ClientType::new("x".to_string()), 3).is_none());
    assert!(ConnectionId::from_string("connection-1".to_string()).is_some());
    assert!(ChannelId::from_string("not a channel".to_string()).is_none());
    assert!(PortId::from_string("p".to_string()).is_none());
}

#[test]
fn storage_keys_name_their_namespaces() {
    assert_eq!(StorageKey::ClientRegistry.as_str(), "client_registry");
    assert_eq!(StorageKey::NextSequenceReceieve.as_str(), "next_sequence_recv");
    assert_eq!(StorageKey::ClientConnection.as_str(), "client_connections");
    assert_eq!(StorageKey::Commitments.as_str(), "commitments");
    assert_eq!(StorageKey::Owner.as_str(), "owner");
}

#[test]
fn host_paths_follow_ics24() {
    let port = PortId::from_string("xcall".to_string()).unwrap();
    let channel = ChannelId::new(2);
    assert_eq!(packet_commitment_path(&port, &channel, 7), b"commitments/ports/xcall/channels/channel-2/sequences/7".to_vec());
    assert_eq!(acknowledgement_commitment_path(&port, &channel, 7), b"acks/ports/xcall/channels/channel-2/sequences/7".to_vec());
    assert_eq!(receipt_commitment_path(&port, &channel, 7), b"receipts/ports/xcall/channels/channel-2/sequences/7".to_vec());
    assert_eq!(next_seq_recv_commitment_path(&port, &channel), b"nextSequenceRecv/ports/xcall/channels/channel-2".to_vec());
    assert_eq!(channel_path(&port, &channel), b"channelEnds/ports/xcall/channels/channel-2".to_vec());
    let client = ClientId::from_string("iconclient-1".to_string()).unwrap();
    assert_eq!(client_state_path(&client), b"clients/iconclient-1/clientState".to_vec());
    assert_eq!(consensus_state_path(&client, &Height::new(2, 30)), b"clients/iconclient-1/consensusStates/2-30".to_vec());
}

#[test]
fn block_delay_counts_whole_seconds() {
    let ctx = CwIbcCoreContext::new();
    assert_eq!(ctx.calc_block_delay(120_000_000_000), 122);
    assert_eq!(ctx.calc_block_delay(0), 0);
    assert_eq!(ctx.calc_block_delay(999_999_999), 0);
    assert_eq!(ctx.max_expected_time_per_block(), 60);
}

#[test]
fn conversions_parse_and_check() {
    assert_eq!(to_ibc_port_id("xcall").unwrap().as_str(), "xcall");
    assert!(matches!(to_ibc_channel_id("bad id"), Err(ContractError::IbcValidationError { .. })));
    assert_eq!(to_ibc_height(None).unwrap_err(), ContractError::InvalidHeight);
    assert_eq!(
        to_ibc_height(Some(RawHeight { revision_number: 1, revision_height: 5 })).unwrap(),
        Height::new(1, 5)
    );
    assert_eq!(to_ibc_timeout_height(None).unwrap(), TimeoutHeight::Never);
    assert_eq!(to_ibc_timeout_block(&TimeoutHeight::Never), TimeoutBlock { revision: 1, height: 1 });
    assert_eq!(
        to_ibc_timeout_block(&TimeoutHeight::At(Height::new(3, 9))),
        TimeoutBlock { revision: 3, height: 9 }
    );
    let ctx = CwIbcCoreContext::new();
    assert_eq!(ctx.timeout_height_to_str(TimeoutBlock { revision: 4, height: 20 }), "4-20");
}

#[test]
fn claimed_capability_authenticates_its_holder() {
    let mut ctx = CwIbcCoreContext::new();
    let name = b"ports/xcall".to_vec();
    assert!(matches!(
        ctx.claim_capability(name.clone(), "a".to_string()),
        Err(ContractError::IbcDecodeError { .. })
    ));
    ctx.store_capability(name.clone(), vec!["a".to_string()]).unwrap();
    assert!(ctx.authenticate_capability(&"a".to_string(), &name));
    assert!(!ctx.authenticate_capability(&"b".to_string(), &name));
    ctx.claim_capability(name.clone(), "b".to_string()).unwrap();
    assert!(ctx.authenticate_capability(&"b".to_string(), &name));
    assert!(matches!(
        ctx.claim_capability(name.clone(), "b".to_string()),
        Err(ContractError::IbcContextError { .. })
    ));
    assert_eq!(ctx.lookup_modules(&name).unwrap(), vec!["a".to_string(), "b".to_string()]);
    match ctx.query(&QueryMsg::GetCapability { name: "ports/xcall".to_string() }).unwrap() {
        QueryResponse::Names(v) => assert_eq!(v, vec!["a".to_string(), "b".to_string()]),
        _ => panic!("a capability is answered with its holders"),
    }
}

#[test]
fn bound_port_routes_to_its_module() {
    let mut ctx = CwIbcCoreContext::new();
    let port = PortId::from_string("xcall".to_string()).unwrap();
    ctx.store_capability(b"xcall".to_vec(), Vec::new()).unwrap();
    ctx.bind_port(&port, "xcall-addr".to_string()).unwrap();
    assert!(ctx.authenticate_capability(&"xcall-addr".to_string(), &b"xcall".to_vec()));
    let module = ModuleId::new("xcall-module".to_string());
    ctx.store_module_by_port(port.clone(), module.clone()).unwrap();
    assert_eq!(ctx.lookup_module_by_port(&port).unwrap(), module);
    let msg = ChannelMsg::OpenInit { port_id_on_a: port.clone() };
    assert_eq!(ctx.lookup_module_channel(&msg).unwrap(), module);
    let other = PortId::from_string("other".to_string()).unwrap();
    assert!(ctx.lookup_module_channel(&ChannelMsg::CloseConfirm { port_id_on_b: other }).is_err());
    ctx.add_route(module.clone(), &"xcall-addr".to_string()).unwrap();
    assert_eq!(ctx.get_route(&module).unwrap(), "xcall-addr");
    assert!(ctx.has_route(&module));
    assert!(!ctx.has_route(&ModuleId::new("none".to_string())));
    let packet = Packet {
        sequence: 1,
        source_port: PortId::from_string("their".to_string()).unwrap(),
        source_channel: ChannelId::new(0),
        destination_port: port.clone(),
        destination_channel: ChannelId::new(1),
        data: vec![],
        timeout_height: TimeoutHeight::Never,
        timeout_timestamp: 0,
    };
    assert_eq!(ctx.lookup_module_packet(&PacketMsg::Recv { packet }).unwrap(), module);
    assert_eq!(ctx.channel_capability_path(&port, &ChannelId::new(1)), b"ports/xcall/channels/channel-1".to_vec());
}

#[test]
fn owner_checks_and_callback_data() {
    let mut ctx = CwIbcCoreContext::new();
    assert!(ctx.check_sender_is_owner(&"x".to_string()).is_err());
    ctx.set_owner("x".to_string());
    assert!(ctx.check_sender_is_owner(&"x".to_string()).is_ok());
    assert_eq!(ctx.check_sender_is_owner(&"y".to_string()).unwrap_err(), ContractError::Unauthorized);
    ctx.store_callback_data(41, vec![1, 2, 3]);
    assert_eq!(ctx.get_callback_data(41).unwrap(), vec![1, 2, 3]);
    ctx.clear_callback_data(41);
    assert!(ctx.get_callback_data(41).is_err());
}

#[test]
fn packet_event_lists_the_packet() {
    let packet = Packet {
        sequence: 3,
        source_port: PortId::from_string("xcall".to_string()).unwrap(),
        source_channel: ChannelId::new(0),
        destination_port: PortId::from_string("their".to_string()).unwrap(),
        destination_channel: ChannelId::new(4),
        data: vec![0xde, 0xad],
        timeout_height: TimeoutHeight::At(Height::new(1, 50)),
        timeout_timestamp: 0,
    };
    let e = create_packet_event(IbcEventType::SendPacket, &packet, Order::Unordered, &ConnectionId::new(0), None).unwrap();
    assert_eq!(e.ty, "send_packet");
    let get = |k: &str| e.attributes.iter().find(|(key, _)| key == k).map(|(_, v)| v.clone()).unwrap();
    assert_eq!(get("packet_sequence"), "3");
    assert_eq!(get("packet_src_channel"), "channel-0");
    assert_eq!(get("packet_channel_ordering"), "ORDER_UNORDERED");
    assert_eq!(get("packet_timeout_height"), "1-50");
    assert_eq!(get("packet_data_hex"), "dead");
    let ack = create_packet_event(IbcEventType::WriteAck, &packet, Order::Unordered, &ConnectionId::new(0), Some(vec![1])).unwrap();
    assert_eq!(ack.attributes.len(), 12);
    assert_eq!(ack.attributes[10], ("packet_ack_hex".to_string(), "01".to_string()));
    let refused = create_packet_event(IbcEventType::CreateClient, &packet, Order::Unordered, &ConnectionId::new(0), None);
    assert!(matches!(refused, Err(ContractError::InvalidEventType { .. })));
}

#[test]
fn migrate_clears_the_store_on_request() {
    let mut ctx = CwIbcCoreContext::new();
    ctx.instantiate("owner".to_string()).unwrap();
    ctx.migrate(MigrateMsg { clear_store: false }).unwrap();
    assert_eq!(ctx.connection_counter().unwrap(), 0);
    ctx.migrate(MigrateMsg { clear_store: true }).unwrap();
    assert!(ctx.connection_counter().is_err());
    assert!(ctx.owner().is_none());
}

#[test]
fn fee_is_taken_from_every_coin() {
    let ctx = CwIbcCoreContext::new();
    let coins = vec![
        Coin { denom: "uatom".to_string(), amount: 100 },
        Coin { denom: "uosmo".to_string(), amount: 30 },
    ];
    let left = ctx.update_fee(coins, 30).unwrap();
    assert_eq!(left[0].amount, 70);
    assert_eq!(left[0].denom, "uatom");
    assert_eq!(left[1].amount, 0);
    assert_eq!(ctx.update_fee(Vec::new(), 1).unwrap_err(), ContractError::InsufficientBalance);
}

#[test]
fn queries_read_counters_and_sequences() {
    let mut ctx = CwIbcCoreContext::new();
    ctx.instantiate("owner".to_string()).unwrap();
    ctx.increase_channel_sequence().unwrap();
    assert!(matches!(ctx.query(&QueryMsg::GetNextChannelSequence).unwrap(), QueryResponse::Number(1)));
    assert!(matches!(ctx.query(&QueryMsg::GetNextClientSequence).unwrap(), QueryResponse::Number(0)));
    assert!(ctx.query(&QueryMsg::GetExpectedTimePerBlock).is_err());
    ctx.set_expected_time_per_block(6).unwrap();
    assert!(matches!(ctx.query(&QueryMsg::GetExpectedTimePerBlock).unwrap(), QueryResponse::Number(6)));
    let port = PortId::from_string("xcall".to_string()).unwrap();
    ctx.store_next_sequence_send(&port, &ChannelId::new(0), 9).unwrap();
    let q = QueryMsg::GetNextSequenceSend { port_id: "xcall".to_string(), channel_id: "channel-0".to_string() };
    assert!(matches!(ctx.query(&q).unwrap(), QueryResponse::Number(9)));
    let bad = QueryMsg::GetNextSequenceSend { port_id: "xcall".to_string(), channel_id: "?".to_string() };
    assert!(matches!(ctx.query(&bad), Err(ContractError::IbcValidationError { .. })));
    let receipt = QueryMsg::HasPacketReceipt { port_id: "xcall".to_string(), channel_id: "channel-0".to_string(), sequence: 2 };
    assert!(matches!(ctx.query(&receipt).unwrap(), QueryResponse::Flag(false)));
    ctx.store_packet_receipt(&port, &ChannelId::new(0), 2).unwrap();
    assert!(matches!(ctx.query(&receipt).unwrap(), QueryResponse::Flag(true)));
    ctx.store_client_into_registry(ClientType::new("iconclient".to_string()), "lc".to_string()).unwrap();
    match ctx.query(&QueryMsg::GetClientRegistry { client_type: "iconclient".to_string() }).unwrap() {
        QueryResponse::Text(t) => assert_eq!(t, "lc"),
        _ => panic!("a registry entry is answered with its address"),
    }
}

#[test]
fn test_migrate() {
    let mut storage = cosmwasm_std::testing::MockStorage::new();
    let mut contract = CwIbcCoreContext::new();
    let result = contract.migrate(MigrateMsg { clear_store: false });
    assert!(result.is_ok());
    let recorded = result.unwrap();
    cw2::set_contract_version(&mut storage, recorded.contract, recorded.version).unwrap();
    let expected = cw2::ContractVersion {
        contract: CONTRACT_NAME.to_string(),
        version: CONTRACT_VERSION.to_string(),
    };
    let version = cw2::get_contract_version(&storage).unwrap();
    println!("{version:?}");
    assert_eq!(expected, version);
}

#[test]
fn only_the_owner_sets_the_expected_block_time() {
    let mut ctx = CwIbcCoreContext::new();
    assert!(matches!(
        ctx.set_expected_time_per_block_by_owner(&"owner".to_string(), 6),
        Err(ContractError::Std(_))
    ));
    ctx.instantiate("owner".to_string()).unwrap();
    assert_eq!(
        ctx.set_expected_time_per_block_by_owner(&"stranger".to_string(), 6).unwrap_err(),
        ContractError::Unauthorized
    );
    assert!(ctx.get_expected_time_per_block().is_err());
    ctx.set_expected_time_per_block_by_owner(&"owner".to_string(), 6).unwrap();
    assert_eq!(ctx.get_expected_time_per_block().unwrap(), 6);
}

#[test]
fn storage_namespaces_are_distinct() {
    let keys = [
        StorageKey::ClientRegistry, StorageKey::ClientTypes, StorageKey::ClientImpls,
        StorageKey::NextSequenceSend, StorageKey::NextSequenceReceieve,
        StorageKey::NextSequenceAcknowledgement, StorageKey::NextClientSequence,
        StorageKey::NextConnectionSequence, StorageKey::NextChannelSequence, StorageKey::Connections,
        StorageKey::ClientConnection, StorageKey::Channels, StorageKey::Router, StorageKey::PortToModule,
        StorageKey::Capabilities, StorageKey::Commitments, StorageKey::BlockTime,
        StorageKey::PacketReceipts, StorageKey::LastProcessedOn, StorageKey::ClientStates,
        StorageKey::ConsensusStates, StorageKey::CallbackData, StorageKey::BlockHeight, StorageKey::Owner,
    ];
    for (i, a) in keys.iter().enumerate() {
        for b in keys.iter().skip(i + 1) {
            assert_ne!(a.as_str(), b.as_str());
        }
    }
}

#[test]
fn fees_follow_the_gas_schedule() {
    let ctx = CwIbcCoreContext::new();
    let g = GasSchedule { numerator: 25, adjustment_numerator: 3, denominator: 100 };
    assert_eq!(ctx.gas_price(&g), 75);
    assert_eq!(ctx.calculate_fee(1_000, &g), 750);
    assert_eq!(ctx.calculate_fee(7, &g), 5);
    let wide = GasSchedule { numerator: u64::MAX, adjustment_numerator: 1, denominator: 1 };
    assert_eq!(ctx.calculate_fee(u64::MAX, &wide), (u64::MAX as u128) * (u64::MAX as u128));
}

#[test]
fn the_commitment_prefix_names_the_commitments_namespace() {
    let prefix = cw_ibc_core::ics24_host::host::commitment_prefix(&"archway1xyz".to_string());
    let mut expected = b"archway1xyz".to_vec();
    expected.extend_from_slice(&[0, 11]);
    expected.extend_from_slice(b"commitments");
    assert_eq!(prefix, expected);
}
