//! Connection handshake messages and what the host asks light clients to
//! verify during the handshake.
use vstd::prelude::*;

use crate::conversions::{
    height_error, height_of, ibc_version_check, raw_counterparty_view, to_ibc_client_id,
    to_ibc_connection_id, to_ibc_height, to_ibc_version, version_accepted, version_error,
    RawConnectionCounterparty, RawHeight,
};
use crate::error::{validation_error, ConnectionError, ContractError};
use crate::ibc_types::{versions_view, ConnectionEnd, Height, Version};
use crate::types::{ibc_client_id_valid, ibc_connection_id_valid, ClientId, ConnectionId};

verus! {

/// Opens a connection from this chain.
#[derive(Debug)]
pub struct MsgConnectionOpenInit {
    pub client_id: ClientId,
    /// The counterparty as the message carries it; the handler reads it.
    pub counterparty: Option<RawConnectionCounterparty>,
    /// The requested version as the message carries it; one that `ibc` refuses
    /// counts as none.
    pub version: Option<Version>,
    /// In nanoseconds.
    pub delay_period: u64,
}

/// Answers a connection that the counterparty opened.
#[derive(Debug)]
pub struct MsgConnectionOpenTry {
    pub client_id: ClientId,
    /// The counterparty's client of this chain, as it encodes it.
    pub client_state: Option<Vec<u8>>,
    /// The counterparty as the message carries it; the handler reads it.
    pub counterparty: Option<RawConnectionCounterparty>,
    /// The versions that the counterparty offers, as the message carries them;
    /// the handler reads them.
    pub counterparty_versions: Vec<Version>,
    pub delay_period: u64,
    pub proof_init: Vec<u8>,
    pub proof_client: Vec<u8>,
    pub proof_consensus: Vec<u8>,
    pub proof_height: Height,
    pub consensus_height: Height,
}

/// Confirms that the counterparty answered the connection.
#[derive(Debug)]
pub struct MsgConnectionOpenAck {
    pub connection_id: ConnectionId,
    pub counterparty_connection_id: ConnectionId,
    pub client_state: Option<Vec<u8>>,
    pub version: Version,
    pub proof_try: Vec<u8>,
    pub proof_client: Vec<u8>,
    pub proof_consensus: Vec<u8>,
    pub proof_height: Height,
    pub consensus_height: Height,
}

/// Confirms that the counterparty opened its end.
#[derive(Debug)]
pub struct MsgConnectionOpenConfirm {
    pub connection_id: ConnectionId,
    pub proof_ack: Vec<u8>,
    pub proof_height: Height,
}

/// What a light client checks of the counterparty's connection end.
#[derive(Debug)]
pub struct VerifyConnectionState {
    pub proof_height: String,
    pub counterparty_prefix: Vec<u8>,
    pub proof: Vec<u8>,
    pub root: Vec<u8>,
    pub counterparty_conn_end_path: Vec<u8>,
    /// The protobuf encoding of the connection end that the counterparty must hold.
    pub expected_counterparty_connection_end: Vec<u8>,
}

impl VerifyConnectionState {
    pub fn new(
        proof_height: String,
        counterparty_prefix: Vec<u8>,
        proof: Vec<u8>,
        root: Vec<u8>,
        counterparty_conn_end_path: Vec<u8>,
        expected_counterparty_connection_end: Vec<u8>,
    ) -> (r: VerifyConnectionState)
        ensures
            r.proof_height == proof_height,
            r.counterparty_prefix == counterparty_prefix,
            r.proof == proof,
            r.root == root,
            r.counterparty_conn_end_path == counterparty_conn_end_path,
            r.expected_counterparty_connection_end == expected_counterparty_connection_end,
    {
        VerifyConnectionState { proof_height, counterparty_prefix, proof, root, counterparty_conn_end_path, expected_counterparty_connection_end }
    }
}

/// What a light client checks of the counterparty's client of this chain.
#[derive(Debug)]
pub struct VerifyClientFullState {
    pub proof_height: String,
    pub counterparty_prefix: Vec<u8>,
    pub client_state_proof: Vec<u8>,
    pub root: Vec<u8>,
    pub client_state_path: Vec<u8>,
    pub expected_client_state: Vec<u8>,
}

impl VerifyClientFullState {
    pub fn new(
        proof_height: String,
        counterparty_prefix: Vec<u8>,
        client_state_proof: Vec<u8>,
        root: Vec<u8>,
        client_state_path: Vec<u8>,
        expected_client_state: Vec<u8>,
    ) -> (r: VerifyClientFullState)
        ensures
            r.proof_height == proof_height,
            r.counterparty_prefix == counterparty_prefix,
            r.client_state_proof == client_state_proof,
            r.root == root,
            r.client_state_path == client_state_path,
            r.expected_client_state == expected_client_state,
    {
        VerifyClientFullState { proof_height, counterparty_prefix, client_state_proof, root, client_state_path, expected_client_state }
    }
}

/// What a light client checks of the counterparty's consensus state of this
/// chain.
#[derive(Debug)]
pub struct VerifyClientConsesnusState {
    pub proof_height: String,
    pub counterparty_prefix: Vec<u8>,
    pub consensus_state_proof: Vec<u8>,
    pub root: Vec<u8>,
    pub conesenus_state_path: Vec<u8>,
    pub expected_conesenus_state: Vec<u8>,
}

impl VerifyClientConsesnusState {
    pub fn new(
        proof_height: String,
        counterparty_prefix: Vec<u8>,
        consensus_state_proof: Vec<u8>,
        root: Vec<u8>,
        conesenus_state_path: Vec<u8>,
        expected_conesenus_state: Vec<u8>,
    ) -> (r: VerifyClientConsesnusState)
        ensures
            r.proof_height == proof_height,
            r.counterparty_prefix == counterparty_prefix,
            r.consensus_state_proof == consensus_state_proof,
            r.root == root,
            r.conesenus_state_path == conesenus_state_path,
            r.expected_conesenus_state == expected_conesenus_state,
    {
        VerifyClientConsesnusState { proof_height, counterparty_prefix, consensus_state_proof, root, conesenus_state_path, expected_conesenus_state }
    }
}

/// The three checks of a connection handshake step, for one client.
#[derive(Debug)]
pub struct VerifyConnectionPayload {
    pub client_id: String,
    pub verify_connection_state: VerifyConnectionState,
    pub verify_client_full_state: VerifyClientFullState,
    pub verify_client_consensus_state: VerifyClientConsesnusState,
}

/// What the light client is asked for a step of the connection handshake.
#[derive(Debug)]
pub enum LightClientConnectionMessage {
    OpenTry { payload: VerifyConnectionPayload },
    OpenAck { payload: VerifyConnectionPayload },
    OpenConfirm { verify_connection_state: VerifyConnectionState },
}

/// What the counterparty answered in a connection handshake step, for the
/// module that follows the handshake.
#[derive(Debug)]
pub struct OpenTryResponse {
    pub conn_id: String,
    pub client_id: String,
    pub counterparty_client_id: String,
    pub counterparty_connection_id: String,
    pub counterparty_prefix: Vec<u8>,
    pub versions: Vec<u8>,
    pub delay_period: u64,
}

impl OpenTryResponse {
    pub fn new(
        conn_id: String,
        client_id: String,
        counterparty_client_id: String,
        counterparty_connection_id: String,
        counterparty_prefix: Vec<u8>,
        versions: Vec<u8>,
        delay_period: u64,
    ) -> (r: OpenTryResponse)
        ensures
            r.conn_id == conn_id,
            r.client_id == client_id,
            r.counterparty_client_id == counterparty_client_id,
            r.counterparty_connection_id == counterparty_connection_id,
            r.counterparty_prefix == counterparty_prefix,
            r.versions == versions,
            r.delay_period == delay_period,
    {
        OpenTryResponse { conn_id, client_id, counterparty_client_id, counterparty_connection_id, counterparty_prefix, versions, delay_period }
    }
}

/// The answer of an acknowledged connection.
#[derive(Debug)]
pub struct OpenAckResponse {
    pub conn_id: String,
    pub version: Vec<u8>,
    pub counterparty_client_id: String,
    pub counterparty_connection_id: String,
    pub counterparty_prefix: Vec<u8>,
}

/// The answer of a confirmed connection.
#[derive(Debug)]
pub struct OpenConfirmResponse {
    pub conn_id: String,
    pub counterparty_client_id: String,
    pub counterparty_connection_id: String,
    pub counterparty_prefix: Vec<u8>,
}

/// A connection open init as relayers encode it.
#[derive(Debug)]
pub struct RawMsgConnectionOpenInit {
    pub client_id: String,
    pub counterparty: Option<RawConnectionCounterparty>,
    pub version: Option<Version>,
    pub delay_period: u64,
}

/// A connection open try as relayers encode it.
#[derive(Debug)]
pub struct RawMsgConnectionOpenTry {
    pub client_id: String,
    pub client_state: Option<Vec<u8>>,
    pub counterparty: Option<RawConnectionCounterparty>,
    pub delay_period: u64,
    pub counterparty_versions: Vec<Version>,
    pub proof_height: Option<RawHeight>,
    pub proof_init: Vec<u8>,
    pub proof_client: Vec<u8>,
    pub proof_consensus: Vec<u8>,
    pub consensus_height: Option<RawHeight>,
}

/// A connection open ack as relayers encode it.
#[derive(Debug)]
pub struct RawMsgConnectionOpenAck {
    pub connection_id: String,
    pub counterparty_connection_id: String,
    pub version: Option<Version>,
    pub client_state: Option<Vec<u8>>,
    pub proof_height: Option<RawHeight>,
    pub proof_try: Vec<u8>,
    pub proof_client: Vec<u8>,
    pub proof_consensus: Vec<u8>,
    pub consensus_height: Option<RawHeight>,
}

/// A connection open confirm as relayers encode it.
#[derive(Debug)]
pub struct RawMsgConnectionOpenConfirm {
    pub connection_id: String,
    pub proof_ack: Vec<u8>,
    pub proof_height: Option<RawHeight>,
}

/// The view of an optional byte string.
pub open spec fn opt_bytes(b: Option<Vec<u8>>) -> Option<Seq<u8>> {
    match b {
        Some(v) => Some(v@),
        None => None,
    }
}

impl MsgConnectionOpenInit {
    /// The message that a relayer sent: its client identifier must be valid;
    /// its counterparty and version are read by the handler.
    pub fn from_raw(raw: RawMsgConnectionOpenInit) -> (r: Result<MsgConnectionOpenInit, ContractError>)
        ensures
            ibc_client_id_valid(raw.client_id@) ==> (r matches Ok(m) && m.client_id@ == raw.client_id@
                && raw_counterparty_view(m.counterparty) == raw_counterparty_view(raw.counterparty)
                && m.version == raw.version && m.delay_period == raw.delay_period),
            !ibc_client_id_valid(raw.client_id@) ==> (r matches Err(e) && validation_error(e, "invalid client identifier"@)),
    {
        let RawMsgConnectionOpenInit { client_id, counterparty, version, delay_period } = raw;
        let client_id = to_ibc_client_id(client_id.as_str())?;
        Ok(MsgConnectionOpenInit { client_id, counterparty, version, delay_period })
    }
}

/// Whether `m` is what the raw open try `raw` gives once read.
pub open spec fn open_try_read(raw: RawMsgConnectionOpenTry, m: MsgConnectionOpenTry) -> bool {
    &&& m.client_id@ == raw.client_id@
    &&& opt_bytes(m.client_state) == opt_bytes(raw.client_state)
    &&& raw_counterparty_view(m.counterparty) == raw_counterparty_view(raw.counterparty)
    &&& versions_view(m.counterparty_versions@) == versions_view(raw.counterparty_versions@)
    &&& m.delay_period == raw.delay_period
    &&& m.proof_init@ == raw.proof_init@
    &&& m.proof_client@ == raw.proof_client@
    &&& m.proof_consensus@ == raw.proof_consensus@
    &&& Some(m.proof_height) == height_of(raw.proof_height)
    &&& Some(m.consensus_height) == height_of(raw.consensus_height)
}

impl MsgConnectionOpenTry {
    /// The message that a relayer sent, read in the order the handshake reads
    /// it: the counterparty's client state must be given, then the client
    /// identifier and the consensus and proof heights must be accepted; the
    /// counterparty and its versions are read by the handler.
    pub fn from_raw(raw: RawMsgConnectionOpenTry) -> (r: Result<MsgConnectionOpenTry, ContractError>)
        ensures
            if raw.client_state is None {
                r == Err::<MsgConnectionOpenTry, ContractError>(ContractError::IbcConnectionError { error: ConnectionError::MissingClientState })
            } else if !ibc_client_id_valid(raw.client_id@) {
                r matches Err(e) && validation_error(e, "invalid client identifier"@)
            } else if height_of(raw.consensus_height) is None {
                r == Err::<MsgConnectionOpenTry, ContractError>(height_error(raw.consensus_height))
            } else if height_of(raw.proof_height) is None {
                r == Err::<MsgConnectionOpenTry, ContractError>(height_error(raw.proof_height))
            } else {
                r matches Ok(m) && open_try_read(raw, m)
            },
    {
        let RawMsgConnectionOpenTry {
            client_id, client_state, counterparty, delay_period, counterparty_versions, proof_height, proof_init, proof_client,
            proof_consensus, consensus_height,
        } = raw;
        if client_state.is_none() {
            return Err(ContractError::IbcConnectionError { error: ConnectionError::MissingClientState });
        }
        let client_id = to_ibc_client_id(client_id.as_str())?;
        let consensus_height = to_ibc_height(consensus_height)?;
        let proof_height = to_ibc_height(proof_height)?;
        Ok(MsgConnectionOpenTry {
            client_id, client_state, counterparty, counterparty_versions, delay_period, proof_init, proof_client, proof_consensus,
            proof_height, consensus_height,
        })
    }
}

/// Whether `m` is what the raw open ack `raw` gives once read.
pub open spec fn open_ack_read(raw: RawMsgConnectionOpenAck, m: MsgConnectionOpenAck) -> bool {
    &&& m.connection_id@ == raw.connection_id@
    &&& m.counterparty_connection_id@ == raw.counterparty_connection_id@
    &&& opt_bytes(m.client_state) == opt_bytes(raw.client_state)
    &&& Some(m.version@) == match raw.version { Some(v) => Some(v@), None => None }
    &&& m.proof_try@ == raw.proof_try@
    &&& m.proof_client@ == raw.proof_client@
    &&& m.proof_consensus@ == raw.proof_consensus@
    &&& Some(m.proof_height) == height_of(raw.proof_height)
    &&& Some(m.consensus_height) == height_of(raw.consensus_height)
}

impl MsgConnectionOpenAck {
    /// The message that a relayer sent, read in the order the handshake reads
    /// it: the counterparty's client state must be given, then the consensus
    /// and proof heights, the version, and both connection identifiers must be
    /// accepted.
    pub fn from_raw(raw: RawMsgConnectionOpenAck) -> (r: Result<MsgConnectionOpenAck, ContractError>)
        ensures
            if raw.client_state is None {
                r == Err::<MsgConnectionOpenAck, ContractError>(ContractError::IbcConnectionError { error: ConnectionError::MissingClientState })
            } else if height_of(raw.consensus_height) is None {
                r == Err::<MsgConnectionOpenAck, ContractError>(height_error(raw.consensus_height))
            } else if height_of(raw.proof_height) is None {
                r == Err::<MsgConnectionOpenAck, ContractError>(height_error(raw.proof_height))
            } else if raw.version is None {
                r == Err::<MsgConnectionOpenAck, ContractError>(ContractError::IbcConnectionError { error: ConnectionError::EmptyVersions })
            } else if !version_accepted(raw.version.unwrap()@) {
                r == Err::<MsgConnectionOpenAck, ContractError>(version_error(ibc_version_check(raw.version.unwrap()@.identifier, raw.version.unwrap()@.features)))
            } else if !ibc_connection_id_valid(raw.connection_id@) || !ibc_connection_id_valid(raw.counterparty_connection_id@) {
                r matches Err(e) && validation_error(e, "invalid connection identifier"@)
            } else {
                r matches Ok(m) && open_ack_read(raw, m)
            },
    {
        let RawMsgConnectionOpenAck {
            connection_id, counterparty_connection_id, version, client_state, proof_height, proof_try, proof_client, proof_consensus,
            consensus_height,
        } = raw;
        if client_state.is_none() {
            return Err(ContractError::IbcConnectionError { error: ConnectionError::MissingClientState });
        }
        let consensus_height = to_ibc_height(consensus_height)?;
        let proof_height = to_ibc_height(proof_height)?;
        let version = to_ibc_version(version)?;
        let connection_id = to_ibc_connection_id(connection_id.as_str())?;
        let counterparty_connection_id = to_ibc_connection_id(counterparty_connection_id.as_str())?;
        Ok(MsgConnectionOpenAck {
            connection_id, counterparty_connection_id, client_state, version, proof_try, proof_client, proof_consensus, proof_height,
            consensus_height,
        })
    }
}

impl MsgConnectionOpenConfirm {
    /// The message that a relayer sent: its proof height, then its connection
    /// identifier, must be accepted.
    pub fn from_raw(raw: RawMsgConnectionOpenConfirm) -> (r: Result<MsgConnectionOpenConfirm, ContractError>)
        ensures
            if height_of(raw.proof_height) is None {
                r == Err::<MsgConnectionOpenConfirm, ContractError>(height_error(raw.proof_height))
            } else if !ibc_connection_id_valid(raw.connection_id@) {
                r matches Err(e) && validation_error(e, "invalid connection identifier"@)
            } else {
                r matches Ok(m) && m.connection_id@ == raw.connection_id@ && m.proof_ack@ == raw.proof_ack@
                    && Some(m.proof_height) == height_of(raw.proof_height)
            },
    {
        let RawMsgConnectionOpenConfirm { connection_id, proof_ack, proof_height } = raw;
        let proof_height = to_ibc_height(proof_height)?;
        let connection_id = to_ibc_connection_id(connection_id.as_str())?;
        Ok(MsgConnectionOpenConfirm { connection_id, proof_ack, proof_height })
    }
}

} // verus!
