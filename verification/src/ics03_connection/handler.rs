//! The connection handshake: open init, try, ack and confirm.
use vstd::prelude::*;

use super::conn_types::{
    MsgConnectionOpenAck, MsgConnectionOpenConfirm, MsgConnectionOpenInit, MsgConnectionOpenTry,
    VerifyClientConsesnusState, VerifyClientFullState, VerifyConnectionPayload,
    VerifyConnectionState,
};
use crate::context::{ContextView, CwIbcCoreContext};
use crate::conversions::{
    copy_raw_counterparty, counterparty_error, counterparty_of, first_refused_version, ibc_version_check,
    raw_counterparty_view, to_ibc_counterparty, to_ibc_version, to_ibc_versions, version_accepted,
    version_error, RawConnectionCounterpartyView,
};
use crate::error::{not_found, ClientError, ConnectionError, ContractError};
use crate::ibc_types::{
    copy_versions, height_lt, opt_id, order_name, versions_contain, versions_view, ConnectionCounterparty,
    ConnectionCounterpartyView, ConnectionEnd, ConnectionEndView, ConnectionState, Height, Order,
    Version, VersionView,
};
use crate::ics04_channel::packet::packet_types::{height_text, height_to_string, ClientFacts, ConsensusFacts};
use crate::ics24_host::commitment::{
    client_state_path, client_state_path_spec, connection_path, connection_path_spec,
    consensus_state_path, consensus_state_path_spec,
};
use crate::state::StoreView;
use crate::validations::{ensure_connection_state, ensure_consensus_height_valid};
use super::connection::{commitment_prefix_json, connection_end_encoding, encode_connection_end, prefix_json, with_connection_commitment};
use crate::store::KeyLike;
use crate::types::{connection_prefix, numbered_id, ConnectionId};

verus! {

/// The connection version that the host supports: identifier `1` with both
/// channel orderings.
pub open spec fn default_version() -> VersionView {
    VersionView {
        identifier: seq!['1'],
        features: seq![order_name(Order::Ordered), order_name(Order::Unordered)],
    }
}

/// `ibc`'s `Version::default`: identifier `1` with the features `ORDER_ORDERED`
/// and `ORDER_UNORDERED`, as its source lists them.
#[verifier::external_body]
fn ibc_default_version() -> (r: Version)
    ensures
        r@ == default_version(),
{
    let raw: ibc::core::connection::types::proto::v1::Version =
        ibc::core::connection::types::version::Version::default().into();
    Version { identifier: raw.identifier, features: raw.features }
}

/// A connection end taken by its view.
pub open spec fn conn_view(
    state: ConnectionState,
    client_id: Seq<char>,
    cp_client: Seq<char>,
    cp_conn: Option<Seq<char>>,
    cp_prefix: Seq<u8>,
    versions: Seq<VersionView>,
    delay: u64,
) -> ConnectionEndView {
    ConnectionEndView {
        state,
        client_id,
        counterparty: ConnectionCounterpartyView { client_id: cp_client, connection_id: cp_conn, prefix: cp_prefix },
        versions,
        delay_period: delay,
    }
}

/// The view of the host's height at block `h`.
pub open spec fn host_height_of(h: u64) -> Height {
    Height { revision_number: 0, revision_height: h }
}

/// The connection identifier that the counter `n` gives.
pub open spec fn next_connection_id(n: u64) -> Seq<char> {
    numbered_id(connection_prefix(), n as nat)
}

/// How a connection open init goes, before anything is stored.
pub enum OpenInitStep {
    CounterMissing,
    ClientFrozen,
    CounterpartyRefused,
    VersionNotSupported,
    Proceed { versions: Seq<VersionView>, counterparty: ConnectionCounterpartyView },
}

/// The version that an open init asks for: the one given, where `ibc` accepts it.
pub open spec fn requested_version(v: Option<VersionView>) -> Option<VersionView> {
    match v {
        Some(v) => if version_accepted(v) { Some(v) } else { None },
        None => None,
    }
}

pub open spec fn open_init_step(
    c: ContextView,
    msg_version: Option<VersionView>,
    counterparty: Option<RawConnectionCounterpartyView>,
    client: ClientFacts,
) -> OpenInitStep {
    if c.store.next_connection_sequence is None {
        OpenInitStep::CounterMissing
    } else if client.frozen {
        OpenInitStep::ClientFrozen
    } else {
        match counterparty_of(counterparty) {
            None => OpenInitStep::CounterpartyRefused,
            Some(cp) => match requested_version(msg_version) {
                Some(v) => if v == default_version() {
                    OpenInitStep::Proceed { versions: seq![v], counterparty: cp }
                } else {
                    OpenInitStep::VersionNotSupported
                },
                None => OpenInitStep::Proceed { versions: seq![default_version()], counterparty: cp },
            },
        }
    }
}

/// How a connection open try goes, before its proof.
pub enum OpenTryStep {
    MissingClientState,
    ClientFrozen,
    CounterpartyRefused,
    VersionRefused,
    ConsensusHeightAhead,
    Proceed { counterparty: ConnectionCounterpartyView },
}

/// Whether `ibc` accepts every version that an open try offers.
pub open spec fn versions_accepted(vs: Seq<VersionView>) -> bool {
    forall|i: int| 0 <= i < vs.len() ==> version_accepted(#[trigger] vs[i])
}

pub open spec fn open_try_step(msg: MsgConnectionOpenTry, client: ClientFacts, host_height: u64) -> OpenTryStep {
    if msg.client_state is None {
        OpenTryStep::MissingClientState
    } else if client.frozen {
        OpenTryStep::ClientFrozen
    } else {
        match counterparty_of(raw_counterparty_view(msg.counterparty)) {
            None => OpenTryStep::CounterpartyRefused,
            Some(cp) => if !versions_accepted(versions_view(msg.counterparty_versions@)) {
                OpenTryStep::VersionRefused
            } else if height_lt(host_height_of(host_height), msg.consensus_height) {
                OpenTryStep::ConsensusHeightAhead
            } else {
                OpenTryStep::Proceed { counterparty: cp }
            },
        }
    }
}

/// How a connection open ack goes, before its proof.
pub enum OpenAckStep {
    MissingClientState,
    ConsensusHeightAhead,
    ConnectionMissing,
    ClientFrozen,
    NotInit,
    VersionNotOffered,
    Proceed { conn: ConnectionEndView },
}

pub open spec fn open_ack_step(c: ContextView, msg: MsgConnectionOpenAck, client: ClientFacts, host_height: u64) -> OpenAckStep {
    if msg.client_state is None {
        OpenAckStep::MissingClientState
    } else if height_lt(host_height_of(host_height), msg.consensus_height) {
        OpenAckStep::ConsensusHeightAhead
    } else if !c.store.connections.contains_key(msg.connection_id@) {
        OpenAckStep::ConnectionMissing
    } else {
        let conn = c.store.connections[msg.connection_id@];
        if client.frozen {
            OpenAckStep::ClientFrozen
        } else if conn.state != ConnectionState::Init {
            OpenAckStep::NotInit
        } else if !conn.versions.contains(msg.version@) {
            OpenAckStep::VersionNotOffered
        } else {
            OpenAckStep::Proceed { conn }
        }
    }
}

/// How a connection open confirm goes, before its proof.
pub enum OpenConfirmStep {
    ConnectionMissing,
    ClientFrozen,
    NotTryOpen,
    Proceed { conn: ConnectionEndView },
}

pub open spec fn open_confirm_step(c: ContextView, msg: MsgConnectionOpenConfirm, client: ClientFacts) -> OpenConfirmStep {
    if !c.store.connections.contains_key(msg.connection_id@) {
        OpenConfirmStep::ConnectionMissing
    } else {
        let conn = c.store.connections[msg.connection_id@];
        if client.frozen {
            OpenConfirmStep::ClientFrozen
        } else if conn.state != ConnectionState::TryOpen {
            OpenConfirmStep::NotTryOpen
        } else {
            OpenConfirmStep::Proceed { conn }
        }
    }
}

/// Whether `e` is the error that the failing open-try step `s` reports.
pub open spec fn open_try_error(s: OpenTryStep, msg: MsgConnectionOpenTry, host_height: u64, e: ContractError) -> bool {
    match s {
        OpenTryStep::MissingClientState => e == ContractError::IbcConnectionError { error: ConnectionError::MissingClientState },
        OpenTryStep::ClientFrozen => e matches ContractError::IbcClientError { error: ClientError::ClientFrozen { client_id } } && client_id@ == msg.client_id@,
        OpenTryStep::CounterpartyRefused => counterparty_error(raw_counterparty_view(msg.counterparty), e),
        OpenTryStep::VersionRefused => {
            let vs = versions_view(msg.counterparty_versions@);
            exists|i: int| first_refused_version(vs, i) && e == version_error(ibc_version_check(vs[i].identifier, vs[i].features))
        },
        OpenTryStep::ConsensusHeightAhead => e == ContractError::IbcConnectionError {
            error: ConnectionError::InvalidConsensusHeight { target_height: msg.consensus_height, current_height: host_height_of(host_height) },
        },
        OpenTryStep::Proceed { .. } => false,
    }
}

/// Whether `e` is the error that the failing open-ack step `s` reports.
pub open spec fn open_ack_error(s: OpenAckStep, c: ContextView, msg: MsgConnectionOpenAck, host_height: u64, e: ContractError) -> bool {
    match s {
        OpenAckStep::MissingClientState => e == ContractError::IbcConnectionError { error: ConnectionError::MissingClientState },
        OpenAckStep::ConsensusHeightAhead => e == ContractError::IbcConnectionError {
            error: ConnectionError::InvalidConsensusHeight { target_height: msg.consensus_height, current_height: host_height_of(host_height) },
        },
        OpenAckStep::ConnectionMissing => not_found(e, "connection end"@),
        OpenAckStep::ClientFrozen => e matches ContractError::IbcClientError { error: ClientError::ClientFrozen { client_id } }
            && client_id@ == c.store.connections[msg.connection_id@].client_id,
        OpenAckStep::NotInit => e == ContractError::IbcConnectionError { error: ConnectionError::ConnectionMismatch { connection_id: msg.connection_id } },
        OpenAckStep::VersionNotOffered => e == ContractError::IbcConnectionError { error: ConnectionError::ConnectionMismatch { connection_id: msg.connection_id } },
        OpenAckStep::Proceed { .. } => false,
    }
}

/// Whether `e` is the error that the failing open-confirm step `s` reports.
pub open spec fn open_confirm_error(s: OpenConfirmStep, c: ContextView, msg: MsgConnectionOpenConfirm, e: ContractError) -> bool {
    match s {
        OpenConfirmStep::ConnectionMissing => not_found(e, "connection end"@),
        OpenConfirmStep::ClientFrozen => e matches ContractError::IbcClientError { error: ClientError::ClientFrozen { client_id } }
            && client_id@ == c.store.connections[msg.connection_id@].client_id,
        OpenConfirmStep::NotTryOpen => e == ContractError::IbcConnectionError { error: ConnectionError::ConnectionMismatch { connection_id: msg.connection_id } },
        OpenConfirmStep::Proceed { .. } => false,
    }
}

/// Every stored connection in `TryOpen` knows its counterparty's connection.
pub open spec fn try_open_counterparties_known(c: ContextView) -> bool {
    forall|k: Seq<char>| #[trigger] c.store.connections.contains_key(k) && c.store.connections[k].state == ConnectionState::TryOpen
        ==> c.store.connections[k].counterparty.connection_id is Some
}

/// The three requests of a handshake step, taken by their views.
pub open spec fn payload_matches(
    v: VerifyConnectionPayload,
    client_id: Seq<char>,
    proof_height: Height,
    prefix: Seq<u8>,
    root: Seq<u8>,
    proof_conn: Seq<u8>,
    conn_path: Seq<u8>,
    expected: ConnectionEndView,
    proof_client: Seq<u8>,
    client_path: Seq<u8>,
    client_state: Seq<u8>,
    proof_consensus: Seq<u8>,
    consensus_path: Seq<u8>,
    consensus_state: Seq<u8>,
) -> bool {
    &&& v.client_id@ == client_id
    &&& v.verify_connection_state.proof_height@ == height_text(proof_height)
    &&& v.verify_connection_state.counterparty_prefix@ == commitment_prefix_json(prefix)
    &&& v.verify_connection_state.proof@ == proof_conn
    &&& v.verify_connection_state.root@ == root
    &&& v.verify_connection_state.counterparty_conn_end_path@ == conn_path
    &&& v.verify_connection_state.expected_counterparty_connection_end@ == connection_end_encoding(expected)
    &&& v.verify_client_full_state.proof_height@ == height_text(proof_height)
    &&& v.verify_client_full_state.counterparty_prefix@ == commitment_prefix_json(prefix)
    &&& v.verify_client_full_state.client_state_proof@ == proof_client
    &&& v.verify_client_full_state.root@ == root
    &&& v.verify_client_full_state.client_state_path@ == client_path
    &&& v.verify_client_full_state.expected_client_state@ == client_state
    &&& v.verify_client_consensus_state.proof_height@ == height_text(proof_height)
    &&& v.verify_client_consensus_state.counterparty_prefix@ == commitment_prefix_json(prefix)
    &&& v.verify_client_consensus_state.consensus_state_proof@ == proof_consensus
    &&& v.verify_client_consensus_state.root@ == root
    &&& v.verify_client_consensus_state.conesenus_state_path@ == consensus_path
    &&& v.verify_client_consensus_state.expected_conesenus_state@ == consensus_state
}

/// The consensus state bytes that the light client reports, besides its root.
pub struct ConsensusStateBytes {
    pub bytes: Vec<u8>,
}

impl CwIbcCoreContext {
    /// The identifier for the next connection, `connection-{counter}`; the
    /// counter goes up by one.
    pub fn generate_connection_idenfier(&mut self) -> (r: Result<ConnectionId, ContractError>)
        requires
            old(self)@.store.next_connection_sequence matches Some(n) ==> n < u64::MAX,
        ensures
            match old(self)@.store.next_connection_sequence {
                Some(n) => r matches Ok(id) && id@ == next_connection_id(n) && final(self)@ == old(self)@.with_store(
                    StoreView { next_connection_sequence: Some((n + 1) as u64), ..old(self)@.store },
                ),
                None => final(self)@ == old(self)@ && (r matches Err(e) && not_found(e, "u64"@)),
            },
    {
        let counter = self.connection_counter()?;
        let connection_id = ConnectionId::new(counter);
        self.increase_connection_counter()?;
        Ok(connection_id)
    }

    /// The connection versions that the host supports.
    pub fn get_compatible_versions(&self) -> (r: Vec<Version>)
        ensures
            versions_view(r@) == seq![default_version()],
    {
        let mut v: Vec<Version> = Vec::new();
        v.push(ibc_default_version());
        assert(versions_view(v@) =~= seq![default_version()]);
        v
    }

    /// Opens a connection end in `Init` for the client `msg.client_id`, under the
    /// next connection identifier, with the counterparty of the message (which
    /// `ibc` must accept) and the requested version (which must be supported; one
    /// that `ibc` refuses counts as none) or every supported version. Nothing
    /// changes on failure.
    pub fn connection_open_init(&mut self, msg: MsgConnectionOpenInit, client: &ClientFacts) -> (r: Result<ConnectionId, ContractError>)
        requires
            old(self)@.store.next_connection_sequence matches Some(n) ==> n < u64::MAX,
        ensures
            match open_init_step(old(self)@, opt_id(msg.version), raw_counterparty_view(msg.counterparty), *client) {
                OpenInitStep::CounterMissing => final(self)@ == old(self)@ && (r matches Err(e) && not_found(e, "u64"@)),
                OpenInitStep::ClientFrozen => final(self)@ == old(self)@ && r == Err::<ConnectionId, ContractError>(ContractError::IbcClientError { error: ClientError::ClientFrozen { client_id: msg.client_id } }),
                OpenInitStep::CounterpartyRefused => final(self)@ == old(self)@ && (r matches Err(e) && counterparty_error(raw_counterparty_view(msg.counterparty), e)),
                OpenInitStep::VersionNotSupported => final(self)@ == old(self)@ && r == Err::<ConnectionId, ContractError>(ContractError::IbcConnectionError { error: ConnectionError::EmptyVersions }),
                OpenInitStep::Proceed { versions, counterparty } => {
                    let n = old(self)@.store.next_connection_sequence.unwrap();
                    let id = next_connection_id(n);
                    let end = conn_view(ConnectionState::Init, msg.client_id@,
                        counterparty.client_id, counterparty.connection_id, counterparty.prefix, versions, msg.delay_period);
                    &&& r matches Ok(c) && c@ == id
                    &&& final(self)@ == old(self)@.with_store(with_connection_commitment(StoreView {
                        next_connection_sequence: Some((n + 1) as u64),
                        client_connections: old(self)@.store.client_connections.insert(msg.client_id@, id),
                        connections: old(self)@.store.connections.insert(id, end),
                        ..old(self)@.store
                    }, id, end))
                },
            },
    {
        let ghost step = open_init_step(old(self)@, opt_id(msg.version), raw_counterparty_view(msg.counterparty), *client);
        let MsgConnectionOpenInit { client_id, counterparty, version, delay_period } = msg;
        let counter = self.connection_counter()?;
        if client.frozen {
            return Err(ContractError::IbcClientError { error: ClientError::ClientFrozen { client_id } });
        }
        let requested = match to_ibc_version(version) {
            Ok(v) => Some(v),
            Err(_) => None,
        };
        let counterparty = to_ibc_counterparty(counterparty)?;
        let compatible = self.get_compatible_versions();
        let versions = match requested {
            Some(version) => {
                if versions_contain(&compatible, &version) {
                    proof {
                        assert(versions_view(compatible@)[0] == default_version());
                    }
                    let mut v: Vec<Version> = Vec::new();
                    v.push(version);
                    v
                } else {
                    proof {
                        assert(versions_view(compatible@)[0] == default_version());
                    }
                    return Err(ContractError::IbcConnectionError { error: ConnectionError::EmptyVersions });
                }
            },
            None => compatible,
        };
        let connection_identifier = ConnectionId::new(counter);
        self.increase_connection_counter()?;
        let connection_end = ConnectionEnd {
            state: ConnectionState::Init,
            client_id: client_id.duplicate(),
            counterparty,
            versions,
            delay_period,
        };
        proof {
            assert(versions_view(connection_end.versions@) =~= match step {
                OpenInitStep::Proceed { versions, .. } => versions,
                _ => versions_view(connection_end.versions@),
            });
        }
        self.store_connection_to_client(&client_id, &connection_identifier)?;
        self.update_connection_commitment(&connection_identifier, &connection_end)?;
        self.store_connection(&connection_identifier, connection_end)?;
        Ok(connection_identifier)
    }

    fn connection_payload(
        client_id: &crate::types::ClientId,
        proof_height: &Height,
        prefix: &Vec<u8>,
        root: &Vec<u8>,
        proof_conn: &Vec<u8>,
        conn_path: Vec<u8>,
        expected: ConnectionEnd,
        proof_client: &Vec<u8>,
        client_path: Vec<u8>,
        client_state: &Vec<u8>,
        proof_consensus: &Vec<u8>,
        consensus_path: Vec<u8>,
        consensus_state: &Vec<u8>,
    ) -> (r: VerifyConnectionPayload)
        ensures
            payload_matches(r, client_id@, *proof_height, prefix@, root@, proof_conn@, conn_path@, expected@, proof_client@, client_path@, client_state@, proof_consensus@, consensus_path@, consensus_state@),
    {
        let copy = |b: &Vec<u8>| -> (r: Vec<u8>)
            ensures r@ == b@,
        { crate::encoding::copy_bytes(b.as_slice()) };
        VerifyConnectionPayload {
            client_id: String::from_str(client_id.as_str()),
            verify_connection_state: VerifyConnectionState::new(height_to_string(proof_height), prefix_json(prefix.as_slice()), copy(proof_conn), copy(root), conn_path, encode_connection_end(&expected)),
            verify_client_full_state: VerifyClientFullState::new(height_to_string(proof_height), prefix_json(prefix.as_slice()), copy(proof_client), copy(root), client_path, copy(client_state)),
            verify_client_consensus_state: VerifyClientConsesnusState::new(height_to_string(proof_height), prefix_json(prefix.as_slice()), copy(proof_consensus), copy(root), consensus_path, copy(consensus_state)),
        }
    }

    /// Whether the checks of an open try pass, so that the counterparty's
    /// connection identifier is read (see [`open_try_step`]).
    pub fn connection_open_try_checks_pass(msg: &MsgConnectionOpenTry, client: &ClientFacts, host_height: u64) -> (r: bool)
        ensures
            r == (open_try_step(*msg, *client, host_height) is Proceed),
    {
        if msg.client_state.is_none() || client.frozen {
            return false;
        }
        if to_ibc_counterparty(copy_raw_counterparty(&msg.counterparty)).is_err() {
            return false;
        }
        if to_ibc_versions(copy_versions(&msg.counterparty_versions)).is_err() {
            return false;
        }
        let host = Height::new(0, host_height);
        ensure_consensus_height_valid(&host, &msg.consensus_height).is_ok()
    }

    /// The checks of a connection open try before its proofs, and what the
    /// light client must then verify: the counterparty's connection end in
    /// `Init` pointing at this chain's client, the counterparty's client of this
    /// chain and its consensus state.
    pub fn connection_open_try_proof(&self, msg: &MsgConnectionOpenTry, client: &ClientFacts, consensus: &ConsensusFacts, consensus_state: &Vec<u8>, host_height: u64, host_prefix: &Vec<u8>) -> (r: Result<VerifyConnectionPayload, ContractError>)
        requires
            open_try_step(*msg, *client, host_height) matches OpenTryStep::Proceed { counterparty: cp } ==> cp.connection_id is Some,
        ensures
            match open_try_step(*msg, *client, host_height) {
                OpenTryStep::Proceed { counterparty: cp } => r matches Ok(v) && payload_matches(v, msg.client_id@, msg.proof_height, cp.prefix, consensus.root@,
                    msg.proof_init@, connection_path_spec(cp.connection_id.unwrap()),
                    conn_view(ConnectionState::Init, cp.client_id, msg.client_id@, None, host_prefix@, versions_view(msg.counterparty_versions@), msg.delay_period),
                    msg.proof_client@, client_state_path_spec(cp.client_id), msg.client_state.unwrap()@,
                    msg.proof_consensus@, consensus_state_path_spec(msg.client_id@, msg.consensus_height), consensus_state@),
                s => r matches Err(e) && open_try_error(s, *msg, host_height, e),
            },
    {
        let message_client_state = match &msg.client_state {
            Some(c) => c,
            None => {
                return Err(ContractError::IbcConnectionError { error: ConnectionError::MissingClientState });
            },
        };
        if client.frozen {
            return Err(ContractError::IbcClientError { error: ClientError::ClientFrozen { client_id: msg.client_id.duplicate() } });
        }
        let counterparty = to_ibc_counterparty(copy_raw_counterparty(&msg.counterparty))?;
        let versions = to_ibc_versions(copy_versions(&msg.counterparty_versions))?;
        self.validate_self_client(message_client_state)?;
        let host = Height::new(0, host_height);
        ensure_consensus_height_valid(&host, &msg.consensus_height)?;
        let expected = ConnectionEnd {
            state: ConnectionState::Init,
            client_id: counterparty.client_id.duplicate(),
            counterparty: ConnectionCounterparty::new(msg.client_id.duplicate(), None, crate::encoding::copy_bytes(host_prefix.as_slice())),
            versions,
            delay_period: msg.delay_period,
        };
        let counterparty_connection_id = match &counterparty.connection_id {
            Some(c) => c,
            None => {
                return Err(ContractError::IbcConnectionError { error: ConnectionError::MissingCounterparty });
            },
        };
        Ok(Self::connection_payload(
            &msg.client_id, &msg.proof_height, &counterparty.prefix, &consensus.root,
            &msg.proof_init, connection_path(counterparty_connection_id), expected,
            &msg.proof_client, client_state_path(&counterparty.client_id), message_client_state,
            &msg.proof_consensus, consensus_state_path(&msg.client_id, &msg.consensus_height), consensus_state,
        ))
    }

    /// Answers a connection opened by the counterparty: the checks of
    /// [`Self::connection_open_try_proof`] and the light client's verdict; then
    /// a connection end in `TryOpen` is stored under the next connection
    /// identifier and indexed by its client. Nothing changes on failure.
    pub fn connection_open_try(&mut self, msg: &MsgConnectionOpenTry, client: &ClientFacts, consensus: &ConsensusFacts, consensus_state: &Vec<u8>, host_height: u64, host_prefix: &Vec<u8>, proof_verified: bool) -> (r: Result<ConnectionId, ContractError>)
        requires
            open_try_step(*msg, *client, host_height) matches OpenTryStep::Proceed { counterparty: cp } ==> cp.connection_id is Some,
            old(self)@.store.next_connection_sequence matches Some(n) ==> n < u64::MAX,
        ensures
            match open_try_step(*msg, *client, host_height) {
                OpenTryStep::Proceed { counterparty: cp } => if !proof_verified {
                    final(self)@ == old(self)@ && (r matches Err(ContractError::LightClientValidationFailed(t)) && t@ == "connection open try"@)
                } else {
                    match old(self)@.store.next_connection_sequence {
                        None => final(self)@ == old(self)@ && (r matches Err(e) && not_found(e, "u64"@)),
                        Some(n) => {
                            let id = next_connection_id(n);
                            let end = conn_view(ConnectionState::TryOpen, msg.client_id@,
                                cp.client_id, cp.connection_id, cp.prefix,
                                versions_view(msg.counterparty_versions@), msg.delay_period);
                            &&& r matches Ok(c) && c@ == id
                            &&& final(self)@ == old(self)@.with_store(with_connection_commitment(StoreView {
                                next_connection_sequence: Some((n + 1) as u64),
                                client_connections: old(self)@.store.client_connections.insert(msg.client_id@, id),
                                connections: old(self)@.store.connections.insert(id, end),
                                ..old(self)@.store
                            }, id, end))
                        },
                    }
                },
                s => final(self)@ == old(self)@ && (r matches Err(e) && open_try_error(s, *msg, host_height, e)),
            },
    {
        let _payload = self.connection_open_try_proof(msg, client, consensus, consensus_state, host_height, host_prefix)?;
        if !proof_verified {
            return Err(ContractError::LightClientValidationFailed(String::from_str("connection open try")));
        }
        let counterparty = to_ibc_counterparty(copy_raw_counterparty(&msg.counterparty))?;
        let connection_id = self.generate_connection_idenfier()?;
        let conn_end = ConnectionEnd {
            state: ConnectionState::TryOpen,
            client_id: msg.client_id.duplicate(),
            counterparty,
            versions: copy_versions(&msg.counterparty_versions),
            delay_period: msg.delay_period,
        };
        self.store_connection_to_client(&msg.client_id, &connection_id)?;
        self.update_connection_commitment(&connection_id, &conn_end)?;
        self.store_connection(&connection_id, conn_end)?;
        Ok(connection_id)
    }

    /// The checks of a connection open ack before its proofs, and what the
    /// light client must then verify: the counterparty's connection end in
    /// `TryOpen` with the acknowledged version, its client of this chain and its
    /// consensus state.
    pub fn connection_open_ack_proof(&self, msg: &MsgConnectionOpenAck, client: &ClientFacts, consensus: &ConsensusFacts, consensus_state: &Vec<u8>, host_height: u64, host_prefix: &Vec<u8>) -> (r: Result<VerifyConnectionPayload, ContractError>)
        ensures
            match open_ack_step(self@, *msg, *client, host_height) {
                OpenAckStep::Proceed { conn } => r matches Ok(v) && payload_matches(v, conn.client_id, msg.proof_height, conn.counterparty.prefix, consensus.root@,
                    msg.proof_try@, connection_path_spec(msg.counterparty_connection_id@),
                    conn_view(ConnectionState::TryOpen, conn.counterparty.client_id, conn.client_id, Some(msg.connection_id@), host_prefix@, seq![msg.version@], conn.delay_period),
                    msg.proof_client@, client_state_path_spec(conn.counterparty.client_id), msg.client_state.unwrap()@,
                    msg.proof_consensus@, consensus_state_path_spec(conn.counterparty.client_id, msg.consensus_height), consensus_state@),
                s => r matches Err(e) && open_ack_error(s, self@, *msg, host_height, e),
            },
    {
        let message_client_state = match &msg.client_state {
            Some(c) => c,
            None => {
                return Err(ContractError::IbcConnectionError { error: ConnectionError::MissingClientState });
            },
        };
        let host = Height::new(0, host_height);
        ensure_consensus_height_valid(&host, &msg.consensus_height)?;
        self.validate_self_client(message_client_state)?;
        let connection_end = self.connection_end(&msg.connection_id)?;
        if client.frozen {
            return Err(ContractError::IbcClientError { error: ClientError::ClientFrozen { client_id: connection_end.client_id.duplicate() } });
        }
        ensure_connection_state(&msg.connection_id, &connection_end, &ConnectionState::Init)?;
        if !versions_contain(&connection_end.versions, &msg.version) {
            return Err(ContractError::IbcConnectionError { error: ConnectionError::ConnectionMismatch { connection_id: msg.connection_id.duplicate() } });
        }
        let mut versions: Vec<Version> = Vec::new();
        versions.push(msg.version.duplicate());
        let expected = ConnectionEnd {
            state: ConnectionState::TryOpen,
            client_id: connection_end.counterparty.client_id.duplicate(),
            counterparty: ConnectionCounterparty::new(connection_end.client_id.duplicate(), Some(msg.connection_id.duplicate()), crate::encoding::copy_bytes(host_prefix.as_slice())),
            versions,
            delay_period: connection_end.delay_period,
        };
        proof {
            assert(versions_view(expected.versions@) =~= seq![msg.version@]);
        }
        Ok(Self::connection_payload(
            &connection_end.client_id, &msg.proof_height, &connection_end.counterparty.prefix, &consensus.root,
            &msg.proof_try, connection_path(&msg.counterparty_connection_id), expected,
            &msg.proof_client, client_state_path(&connection_end.counterparty.client_id), message_client_state,
            &msg.proof_consensus, consensus_state_path(&connection_end.counterparty.client_id, &msg.consensus_height), consensus_state,
        ))
    }

    /// Completes the opening side of the handshake: the checks of
    /// [`Self::connection_open_ack_proof`] and the light client's verdict; then
    /// the connection is open, with the acknowledged version and the
    /// counterparty's connection identifier. Nothing changes on failure.
    pub fn connection_open_ack(&mut self, msg: &MsgConnectionOpenAck, client: &ClientFacts, consensus: &ConsensusFacts, consensus_state: &Vec<u8>, host_height: u64, host_prefix: &Vec<u8>, proof_verified: bool) -> (r: Result<ConnectionId, ContractError>)
        ensures
            match open_ack_step(old(self)@, *msg, *client, host_height) {
                OpenAckStep::Proceed { conn } => if !proof_verified {
                    final(self)@ == old(self)@ && (r matches Err(ContractError::LightClientValidationFailed(t)) && t@ == "connection open ack"@)
                } else {
                    let end = ConnectionEndView {
                        state: ConnectionState::Open,
                        versions: seq![msg.version@],
                        counterparty: ConnectionCounterpartyView {
                            client_id: conn.counterparty.client_id,
                            connection_id: Some(msg.counterparty_connection_id@),
                            prefix: conn.counterparty.prefix,
                        },
                        ..conn
                    };
                    &&& r matches Ok(c) && c@ == msg.connection_id@
                    &&& final(self)@ == old(self)@.with_store(with_connection_commitment(StoreView {
                        connections: old(self)@.store.connections.insert(msg.connection_id@, end),
                        ..old(self)@.store
                    }, msg.connection_id@, end))
                },
                s => final(self)@ == old(self)@ && (r matches Err(e) && open_ack_error(s, old(self)@, *msg, host_height, e)),
            },
    {
        let _payload = self.connection_open_ack_proof(msg, client, consensus, consensus_state, host_height, host_prefix)?;
        if !proof_verified {
            return Err(ContractError::LightClientValidationFailed(String::from_str("connection open ack")));
        }
        let mut connection_end = self.connection_end(&msg.connection_id)?;
        let mut versions: Vec<Version> = Vec::new();
        versions.push(msg.version.duplicate());
        proof {
            assert(versions_view(versions@) =~= seq![msg.version@]);
        }
        connection_end.state = ConnectionState::Open;
        connection_end.versions = versions;
        connection_end.counterparty.connection_id = Some(msg.counterparty_connection_id.duplicate());
        self.update_connection_commitment(&msg.connection_id, &connection_end)?;
        self.store_connection(&msg.connection_id, connection_end)?;
        Ok(msg.connection_id.duplicate())
    }

    /// The checks of a connection open confirm before its proof, and what the
    /// light client must then verify: the counterparty's connection end, open
    /// and pointing back at this connection.
    pub fn connection_open_confirm_proof(&self, msg: &MsgConnectionOpenConfirm, client: &ClientFacts, consensus: &ConsensusFacts, host_prefix: &Vec<u8>) -> (r: Result<VerifyConnectionState, ContractError>)
        requires
            open_confirm_step(self@, *msg, *client) matches OpenConfirmStep::Proceed { conn } ==> conn.counterparty.connection_id is Some,
        ensures
            match open_confirm_step(self@, *msg, *client) {
                OpenConfirmStep::Proceed { conn } => r matches Ok(v)
                    && v.proof_height@ == height_text(msg.proof_height)
                    && v.counterparty_prefix@ == commitment_prefix_json(conn.counterparty.prefix)
                    && v.proof@ == msg.proof_ack@
                    && v.root@ == consensus.root@
                    && v.counterparty_conn_end_path@ == connection_path_spec(conn.counterparty.connection_id.unwrap())
                    && v.expected_counterparty_connection_end@ == connection_end_encoding(conn_view(ConnectionState::Open, conn.counterparty.client_id, conn.client_id,
                        Some(msg.connection_id@), host_prefix@, conn.versions, conn.delay_period)),
                s => r matches Err(e) && open_confirm_error(s, self@, *msg, e),
            },
    {
        let connection_end = self.connection_end(&msg.connection_id)?;
        if client.frozen {
            return Err(ContractError::IbcClientError { error: ClientError::ClientFrozen { client_id: connection_end.client_id.duplicate() } });
        }
        ensure_connection_state(&msg.connection_id, &connection_end, &ConnectionState::TryOpen)?;
        let counterparty_connection_id = match &connection_end.counterparty.connection_id {
            Some(c) => c,
            None => {
                return Err(ContractError::IbcConnectionError { error: ConnectionError::MissingCounterparty });
            },
        };
        let expected = ConnectionEnd {
            state: ConnectionState::Open,
            client_id: connection_end.counterparty.client_id.duplicate(),
            counterparty: ConnectionCounterparty::new(connection_end.client_id.duplicate(), Some(msg.connection_id.duplicate()), crate::encoding::copy_bytes(host_prefix.as_slice())),
            versions: copy_versions(&connection_end.versions),
            delay_period: connection_end.delay_period,
        };
        Ok(VerifyConnectionState::new(
            height_to_string(&msg.proof_height),
            prefix_json(connection_end.counterparty.prefix.as_slice()),
            crate::encoding::copy_bytes(msg.proof_ack.as_slice()),
            crate::encoding::copy_bytes(consensus.root.as_slice()),
            connection_path(counterparty_connection_id),
            encode_connection_end(&expected),
        ))
    }

    /// Completes the answering side of the handshake: the checks of
    /// [`Self::connection_open_confirm_proof`] and the light client's verdict;
    /// then the connection is open. Nothing changes on failure.
    pub fn connection_open_confirm(&mut self, msg: &MsgConnectionOpenConfirm, client: &ClientFacts, consensus: &ConsensusFacts, host_prefix: &Vec<u8>, proof_verified: bool) -> (r: Result<ConnectionId, ContractError>)
        requires
            open_confirm_step(old(self)@, *msg, *client) matches OpenConfirmStep::Proceed { conn } ==> conn.counterparty.connection_id is Some,
        ensures
            match open_confirm_step(old(self)@, *msg, *client) {
                OpenConfirmStep::Proceed { conn } => if !proof_verified {
                    final(self)@ == old(self)@ && (r matches Err(ContractError::LightClientValidationFailed(t)) && t@ == "connection open confirm"@)
                } else {
                    let end = ConnectionEndView { state: ConnectionState::Open, ..conn };
                    &&& r matches Ok(c) && c@ == msg.connection_id@
                    &&& final(self)@ == old(self)@.with_store(with_connection_commitment(StoreView {
                        connections: old(self)@.store.connections.insert(msg.connection_id@, end),
                        ..old(self)@.store
                    }, msg.connection_id@, end))
                },
                s => final(self)@ == old(self)@ && (r matches Err(e) && open_confirm_error(s, old(self)@, *msg, e)),
            },
    {
        let _payload = self.connection_open_confirm_proof(msg, client, consensus, host_prefix)?;
        if !proof_verified {
            return Err(ContractError::LightClientValidationFailed(String::from_str("connection open confirm")));
        }
        let mut connection_end = self.connection_end(&msg.connection_id)?;
        connection_end.state = ConnectionState::Open;
        self.update_connection_commitment(&msg.connection_id, &connection_end)?;
        self.store_connection(&msg.connection_id, connection_end)?;
        Ok(msg.connection_id.duplicate())
    }
}

} // verus!
