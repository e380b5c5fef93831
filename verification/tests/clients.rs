use cw_ibc_core::context::CwIbcCoreContext;
use cw_ibc_core::error::{ClientError, ContractError};
use cw_ibc_core::ibc_types::Height;
use cw_ibc_core::ics02_client::events::{create_client_event, generated_client_id_event};
use cw_ibc_core::ics02_client::handler::{ClientUpdate, DecodedClient, MisbehaviourUpdate, MsgCreateClient};
use cw_ibc_core::ics04_channel::packet::packet_types::ClientFacts;
use cw_ibc_core::query::{QueryMsg, QueryResponse};
use cw_ibc_core::types::{ClientId, ClientType};
use sha3::{Digest, Keccak256};

fn live() -> ClientFacts {
    ClientFacts { frozen: false, latest_height: Height::new(0, 10) }
}

fn frozen() -> ClientFacts {
    ClientFacts { frozen: true, latest_height: Height::new(0, 10) }
}

fn decoded(ty: &str) -> DecodedClient {
    DecodedClient {
        client_type: ClientType::new(ty.to_string()),
        latest_height: Height::new(0, 10),
    }
}

fn keccak_hex(bytes: &[u8]) -> String {
    Keccak256::digest(bytes).iter().map(|b| format!("{:02x}", b)).collect()
}

fn create_msg() -> MsgCreateClient {
    MsgCreateClient { client_state: Some(vec![1]), consensus_state: Some(vec![2]) }
}

fn host() -> CwIbcCoreContext {
    let mut ctx = CwIbcCoreContext::new();
    ctx.instantiate("owner".to_string()).unwrap();
    ctx.register_client(ClientType::new("iconclient".to_string()), "light-client".to_string())
        .unwrap();
    ctx
}

fn commitment_at(ctx: &CwIbcCoreContext, path: &str) -> String {
    match ctx.query(&QueryMsg::GetCommitment { key: path.as_bytes().to_vec() }).unwrap() {
        QueryResponse::Text(t) => t,
        _ => panic!("a commitment is answered in hexadecimal"),
    }
}

#[test]
fn registering_a_client_type_twice_fails() {
    let mut ctx = host();
    let again = ctx.register_client(ClientType::new("iconclient".to_string()), "other".to_string());
    assert!(matches!(
        again,
        Err(ContractError::IbcClientError { error: ClientError::Other { .. } })
    ));
    assert_eq!(
        ctx.get_client_from_registry(&ClientType::new("iconclient".to_string())).unwrap(),
        "light-client"
    );
}

#[test]
fn created_clients_are_numbered_by_type() {
    let mut ctx = host();
    let first = ctx.create_client(&create_msg(), decoded("iconclient"), 7, 1000).unwrap();
    assert_eq!(first.client_id.as_str(), "iconclient-0");
    assert_eq!(first.light_client_address, "light-client");
    let second = ctx.create_client(&create_msg(), decoded("iconclient"), 7, 1000).unwrap();
    assert_eq!(second.client_id.as_str(), "iconclient-1");
    assert_eq!(ctx.client_counter().unwrap(), 2);
    assert_eq!(ctx.get_client_type(&first.client_id).unwrap().as_str(), "iconclient");
    assert_eq!(ctx.get_client(&first.client_id).unwrap().get_address(), "light-client");
    assert_eq!(commitment_at(&ctx, "clients/iconclient-0/clientState"), keccak_hex(&[1]));
    assert_eq!(commitment_at(&ctx, "clients/iconclient-0/consensusStates/0-10"), keccak_hex(&[2]));
    let last = ctx.last_processed_on(&first.client_id).unwrap();
    assert_eq!((last.height, last.timestamp), (7, 1000));
}

#[test]
fn create_client_without_states_fails() {
    let mut ctx = host();
    let no_client = MsgCreateClient { client_state: None, consensus_state: Some(vec![2]) };
    assert_eq!(
        ctx.create_client(&no_client, decoded("iconclient"), 7, 1000).unwrap_err(),
        ContractError::IbcClientError { error: ClientError::MissingRawClientState }
    );
    let no_consensus = MsgCreateClient { client_state: Some(vec![1]), consensus_state: None };
    assert_eq!(
        ctx.create_client(&no_consensus, decoded("iconclient"), 7, 1000).unwrap_err(),
        ContractError::IbcClientError { error: ClientError::MissingRawConsensusState }
    );
    assert_eq!(ctx.client_counter().unwrap(), 0);
}

#[test]
fn create_client_of_unregistered_type_fails() {
    let mut ctx = host();
    let r = ctx.create_client(&create_msg(), decoded("07-tendermint"), 7, 1000);
    assert_eq!(
        r.unwrap_err(),
        ContractError::InvalidClientType { client_type: "07-tendermint".to_string() }
    );
    assert_eq!(ctx.client_counter().unwrap(), 0);
}

#[test]
fn create_client_before_instantiate_fails() {
    let mut ctx = CwIbcCoreContext::new();
    ctx.register_client(ClientType::new("iconclient".to_string()), "lc".to_string()).unwrap();
    let r = ctx.create_client(&create_msg(), decoded("iconclient"), 7, 1000);
    assert_eq!(r.unwrap_err(), ContractError::InvalidNextClientSequence);
}

#[test]
fn update_goes_to_the_light_client_unless_frozen() {
    let mut ctx = host();
    let id = ctx.create_client(&create_msg(), decoded("iconclient"), 7, 1000).unwrap().client_id;
    assert_eq!(ctx.update_client(&id, &Some(vec![9]), &live()).unwrap(), "light-client");
    assert_eq!(
        ctx.update_client(&id, &None, &live()).unwrap_err(),
        ContractError::IbcClientError { error: ClientError::MissingRawHeader }
    );
    assert_eq!(
        ctx.update_client(&id, &Some(vec![9]), &frozen()).unwrap_err(),
        ContractError::IbcClientError { error: ClientError::ClientFrozen { client_id: id.clone() } }
    );
    let unknown = ClientId::from_string("iconclient-9".to_string()).unwrap();
    assert_eq!(
        ctx.update_client(&unknown, &Some(vec![9]), &live()).unwrap_err(),
        ContractError::IbcClientError { error: ClientError::ClientNotFound { client_id: unknown.clone() } }
    );
}

#[test]
fn update_reply_stores_new_commitments() {
    let mut ctx = host();
    let id = ctx.create_client(&create_msg(), decoded("iconclient"), 7, 1000).unwrap().client_id;
    ctx.store_callback_data(22, vec![1]);
    let update = ClientUpdate {
        client_id: id.clone(),
        height: Height::new(0, 20),
        client_state_commitment: vec![0x01],
        consensus_state_commitment: vec![0x02],
    };
    let h = ctx.execute_update_client_reply(&id, Ok(Some(update)), 9, 2000).unwrap();
    assert_eq!(h, Height::new(0, 20));
    assert_eq!(commitment_at(&ctx, "clients/iconclient-0/clientState"), "01");
    assert_eq!(commitment_at(&ctx, "clients/iconclient-0/consensusStates/0-20"), "02");
    assert!(ctx.get_callback_data(22).is_err());
    let failed = ctx.execute_update_client_reply(&id, Err("bad header".to_string()), 9, 2000);
    assert_eq!(
        failed.unwrap_err(),
        ContractError::IbcClientError { error: ClientError::Other { description: "bad header".to_string() } }
    );
}

#[test]
fn upgrade_checks_the_trusting_period() {
    let mut ctx = host();
    let id = ctx.create_client(&create_msg(), decoded("iconclient"), 7, 1000).unwrap().client_id;
    let s = Some(vec![1]);
    assert_eq!(ctx.upgrade_client(&id, &s, &s, &live(), 100, 0, 50_000_000_000).unwrap(), "light-client");
    assert_eq!(
        ctx.upgrade_client(&id, &s, &s, &live(), 10, 0, 50_000_000_000).unwrap_err(),
        ContractError::IbcClientError {
            error: ClientError::HeaderNotWithinTrustPeriod { latest_time: 0, update_time: 50_000_000_000 }
        }
    );
    assert_eq!(
        ctx.upgrade_client(&id, &s, &s, &live(), 100, 60, 50).unwrap_err(),
        ContractError::IbcClientError { error: ClientError::InvalidConsensusStateTimestamp { time1: 60, time2: 50 } }
    );
    assert_eq!(
        ctx.upgrade_client(&id, &None, &s, &live(), 100, 0, 50).unwrap_err(),
        ContractError::IbcClientError { error: ClientError::MissingRawClientState }
    );
    let update = ClientUpdate {
        client_id: id.clone(),
        height: Height::new(1, 1),
        client_state_commitment: vec![0x0f],
        consensus_state_commitment: vec![0xf0],
    };
    let (upgraded, height) = ctx.execute_upgrade_client_reply(Ok(Some(update)), 9, 2000).unwrap();
    assert_eq!(upgraded, id);
    assert_eq!(height, Height::new(1, 1));
    assert_eq!(commitment_at(&ctx, "clients/iconclient-0/consensusStates/1-1"), "f0");
}

#[test]
fn misbehaviour_freezes_through_the_light_client() {
    let mut ctx = host();
    let id = ctx.create_client(&create_msg(), decoded("iconclient"), 7, 1000).unwrap().client_id;
    assert_eq!(ctx.misbehaviour(&id, &live()).unwrap(), "light-client");
    assert_eq!(
        ctx.misbehaviour(&id, &frozen()).unwrap_err(),
        ContractError::IbcClientError { error: ClientError::ClientFrozen { client_id: id.clone() } }
    );
    let update = MisbehaviourUpdate { client_id: id.clone(), client_state_commitment: vec![0xee] };
    assert_eq!(ctx.execute_misbehaviour_reply(Ok(Some(update)), 11, 3000).unwrap(), id);
    assert_eq!(commitment_at(&ctx, "clients/iconclient-0/clientState"), "ee");
    assert!(ctx.execute_misbehaviour_reply(Ok(None), 11, 3000).is_err());
}

#[test]
fn client_events_carry_their_attributes() {
    let id = ClientId::from_string("iconclient-3".to_string()).unwrap();
    let e = generated_client_id_event(&id);
    assert_eq!(e.ty, "client_id_created");
    assert_eq!(e.attributes, vec![("client_id".to_string(), "iconclient-3".to_string())]);
    let c = create_client_event("iconclient-3", "iconclient", "0-10");
    assert_eq!(c.ty, "create_client");
    assert_eq!(c.attributes.len(), 3);
}

#[test]
fn client_heights_start_above_zero() {
    let ctx = host();
    let id = ClientId::from_string("iconclient-0".to_string()).unwrap();
    assert_eq!(ctx.client_update_height(&id, 5).unwrap(), Height::new(0, 5));
    assert_eq!(
        ctx.client_update_height(&id, 0).unwrap_err(),
        ContractError::IbcClientError { error: ClientError::InvalidHeight }
    );
}

#[test]
fn stored_client_state_is_answered_in_hex() {
    let mut ctx = host();
    let id = ClientId::from_string("iconclient-0".to_string()).unwrap();
    ctx.store_client_state(&id, vec![0x12, 0x34], vec![0x56], 3, 4).unwrap();
    ctx.store_consensus_state(&id, &Height::new(0, 3), vec![0xab], vec![0xcd]).unwrap();
    match ctx.query(&QueryMsg::GetClientState { client_id: "iconclient-0".to_string() }).unwrap() {
        QueryResponse::Text(t) => assert_eq!(t, "1234"),
        _ => panic!("a client state is answered in hexadecimal"),
    }
    match ctx.query(&QueryMsg::GetConsensusState { client_id: "iconclient-0".to_string() }).unwrap() {
        QueryResponse::Text(t) => assert_eq!(t, "ab"),
        _ => panic!("a consensus state is answered in hexadecimal"),
    }
    assert_eq!(commitment_at(&ctx, "clients/iconclient-0/clientState"), "56");
    assert_eq!(commitment_at(&ctx, "clients/iconclient-0/consensusStates/0-3"), "cd");
    let bad = ctx.query(&QueryMsg::GetClientState { client_id: "!".to_string() });
    assert!(matches!(bad, Err(ContractError::IbcValidationError { .. })));
}

#[test]
fn only_the_owner_registers_client_types() {
    let mut ctx = CwIbcCoreContext::new();
    ctx.instantiate("owner".to_string()).unwrap();
    let ty = ClientType::new("iconclient".to_string());
    assert_eq!(
        ctx.register_client_by_owner(&"stranger".to_string(), ty.clone(), "lc".to_string()).unwrap_err(),
        ContractError::Unauthorized
    );
    assert!(ctx.get_client_from_registry(&ty).is_err());
    ctx.register_client_by_owner(&"owner".to_string(), ty.clone(), "lc".to_string()).unwrap();
    assert_eq!(ctx.get_client_from_registry(&ty).unwrap(), "lc");
    assert!(matches!(
        ctx.register_client_by_owner(&"owner".to_string(), ty, "other".to_string()),
        Err(ContractError::IbcClientError { error: ClientError::Other { .. } })
    ));
}
