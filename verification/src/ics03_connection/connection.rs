//! Connection ends, the connection counter and the client-to-connection index.
use vstd::prelude::*;

use crate::context::CwIbcCoreContext;
use crate::encoding::{keccak256, keccak256_digest};
use crate::error::{not_found, ConnectionError, ContractError, StdError};
use crate::ibc_types::{ConnectionCounterparty, ConnectionCounterpartyView, ConnectionEnd, ConnectionEndView, ConnectionState, Version, VersionView};
use crate::proto::{bytes_field, len_field, lemma_repeated_field_push, push_bytes_field, push_len_field, push_varint_field, read_bytes_field, read_repeated_field, read_varint_field, repeated_field, varint_field};
use vstd::utf8::{decode_utf8, encode_utf8};
use crate::ics24_host::commitment::{connection_path, connection_path_spec};
use crate::state::StoreView;
use crate::store::KeyLike;
use crate::types::{ClientId, ConnectionId};

verus! {

/// The number of a connection state in the protobuf `State` enum of
/// connections.
pub open spec fn connection_state_number(s: ConnectionState) -> nat {
    match s {
        ConnectionState::Uninitialized => 0,
        ConnectionState::Init => 1,
        ConnectionState::TryOpen => 2,
        ConnectionState::Open => 3,
    }
}

/// The connection state with protobuf number `n` (`Uninitialized` for any
/// other number).
pub open spec fn connection_state_of(n: nat) -> ConnectionState {
    if n == 1 {
        ConnectionState::Init
    } else if n == 2 {
        ConnectionState::TryOpen
    } else if n == 3 {
        ConnectionState::Open
    } else {
        ConnectionState::Uninitialized
    }
}

/// The text of an optional identifier: empty where there is none.
pub open spec fn optional_text(id: Option<Seq<char>>) -> Seq<char> {
    match id {
        Some(c) => c,
        None => Seq::empty(),
    }
}

/// The message `ibc.core.connection.v1.Version`: the identifier (field 1) and
/// each feature (field 2).
pub open spec fn version_encoding(v: VersionView) -> Seq<u8> {
    bytes_field(10, encode_utf8(v.identifier)) + repeated_field(18, v.features.map_values(|f: Seq<char>| encode_utf8(f)))
}

/// The message `ibc.core.connection.v1.Counterparty`: the client (field 1),
/// the connection (field 2) and the prefix as a `MerklePrefix` (field 3).
pub open spec fn connection_counterparty_encoding(c: ConnectionCounterpartyView) -> Seq<u8> {
    bytes_field(10, encode_utf8(c.client_id)) + bytes_field(18, encode_utf8(optional_text(c.connection_id)))
        + len_field(26, bytes_field(10, c.prefix))
}

/// The protobuf encoding of a connection end, the message
/// `ibc.core.connection.v1.ConnectionEnd` as prost writes it: the client
/// (field 1), each version (field 2), the state (field 3), the counterparty
/// (field 4) and the delay (field 5), in that order, with empty strings and
/// zero numbers left out.
pub open spec fn connection_end_encoding(end: ConnectionEndView) -> Seq<u8> {
    bytes_field(10, encode_utf8(end.client_id))
        + repeated_field(18, end.versions.map_values(|v: VersionView| version_encoding(v)))
        + varint_field(24, connection_state_number(end.state))
        + len_field(34, connection_counterparty_encoding(end.counterparty))
        + varint_field(40, end.delay_period as nat)
}

/// Reads a `Version` message.
pub open spec fn read_version(b: Seq<u8>) -> VersionView {
    let (id, k) = read_bytes_field(10, b);
    let (fs, _) = read_repeated_field(18, b.subrange(k as int, b.len() as int));
    VersionView { identifier: decode_utf8(id), features: fs.map_values(|f: Seq<u8>| decode_utf8(f)) }
}

/// Reads a connection `Counterparty` message.
pub open spec fn read_connection_counterparty(b: Seq<u8>) -> ConnectionCounterpartyView {
    let (client, k1) = read_bytes_field(10, b);
    let b1 = b.subrange(k1 as int, b.len() as int);
    let (conn, k2) = read_bytes_field(18, b1);
    let b2 = b1.subrange(k2 as int, b1.len() as int);
    let (prefix_message, _) = read_bytes_field(26, b2);
    let (prefix, _) = read_bytes_field(10, prefix_message);
    ConnectionCounterpartyView {
        client_id: decode_utf8(client),
        connection_id: if conn.len() == 0 { None } else { Some(decode_utf8(conn)) },
        prefix,
    }
}

/// Reads a `ConnectionEnd` message.
pub open spec fn read_connection_end(s: Seq<u8>) -> ConnectionEndView {
    let (client, k1) = read_bytes_field(10, s);
    let s1 = s.subrange(k1 as int, s.len() as int);
    let (versions, k2) = read_repeated_field(18, s1);
    let s2 = s1.subrange(k2 as int, s1.len() as int);
    let (state, k3) = read_varint_field(24, s2);
    let s3 = s2.subrange(k3 as int, s2.len() as int);
    let (counterparty, k4) = read_bytes_field(34, s3);
    let s4 = s3.subrange(k4 as int, s3.len() as int);
    let (delay, _) = read_varint_field(40, s4);
    ConnectionEndView {
        state: connection_state_of(state),
        client_id: decode_utf8(client),
        counterparty: read_connection_counterparty(counterparty),
        versions: versions.map_values(|v: Seq<u8>| read_version(v)),
        delay_period: delay as u64,
    }
}

/// Encodes `end` as the protobuf message `ibc.core.connection.v1.ConnectionEnd`.
pub(crate) fn encode_connection_end(end: &ConnectionEnd) -> (r: Vec<u8>)
    ensures
        r@ == connection_end_encoding(end@),
{
    let mut out: Vec<u8> = Vec::new();
    push_bytes_field(&mut out, 10, end.client_id.as_str().as_bytes());
    let ghost head = out@;
    let ghost bodies = end@.versions.map_values(|v: VersionView| version_encoding(v));
    let mut i: usize = 0;
    while i < end.versions.len()
        invariant
            i <= end.versions.len(),
            bodies == end@.versions.map_values(|v: VersionView| version_encoding(v)),
            end@.versions.len() == end.versions.len(),
            out@ == head + repeated_field(18, bodies.take(i as int)),
        decreases end.versions.len() - i,
    {
        let body = encode_version(&end.versions[i]);
        push_len_field(&mut out, 18, body.as_slice());
        proof {
            assert(bodies.take(i + 1) =~= bodies.take(i as int).push(bodies[i as int]));
            lemma_repeated_field_push(18, bodies.take(i as int), bodies[i as int]);
            assert(out@ =~= head + repeated_field(18, bodies.take(i + 1)));
        }
        i = i + 1;
    }
    proof {
        assert(bodies.take(i as int) =~= bodies);
    }
    push_varint_field(&mut out, 24, end.state.proto_number() as u64);
    let counterparty = encode_connection_counterparty(&end.counterparty);
    push_len_field(&mut out, 34, counterparty.as_slice());
    push_varint_field(&mut out, 40, end.delay_period);
    assert(out@ =~= connection_end_encoding(end@));
    out
}

fn encode_version(v: &Version) -> (r: Vec<u8>)
    ensures
        r@ == version_encoding(v@),
{
    let mut out: Vec<u8> = Vec::new();
    push_bytes_field(&mut out, 10, v.identifier.as_str().as_bytes());
    let ghost head = out@;
    let ghost bodies = v@.features.map_values(|f: Seq<char>| encode_utf8(f));
    let mut i: usize = 0;
    while i < v.features.len()
        invariant
            i <= v.features.len(),
            bodies == v@.features.map_values(|f: Seq<char>| encode_utf8(f)),
            v@.features.len() == v.features.len(),
            forall|j: int| 0 <= j < v.features.len() ==> #[trigger] v@.features[j] == v.features@[j]@,
            out@ == head + repeated_field(18, bodies.take(i as int)),
        decreases v.features.len() - i,
    {
        push_len_field(&mut out, 18, v.features[i].as_str().as_bytes());
        proof {
            assert(bodies[i as int] == encode_utf8(v.features@[i as int]@));
            assert(bodies.take(i + 1) =~= bodies.take(i as int).push(bodies[i as int]));
            lemma_repeated_field_push(18, bodies.take(i as int), bodies[i as int]);
            assert(out@ =~= head + repeated_field(18, bodies.take(i + 1)));
        }
        i = i + 1;
    }
    proof {
        assert(bodies.take(i as int) =~= bodies);
    }
    out
}

fn encode_connection_counterparty(c: &ConnectionCounterparty) -> (r: Vec<u8>)
    ensures
        r@ == connection_counterparty_encoding(c@),
{
    let mut out: Vec<u8> = Vec::new();
    push_bytes_field(&mut out, 10, c.client_id.as_str().as_bytes());
    let id = c.connection_id_text();
    push_bytes_field(&mut out, 18, id.as_str().as_bytes());
    let mut prefix: Vec<u8> = Vec::new();
    push_bytes_field(&mut prefix, 10, c.prefix.as_slice());
    assert(prefix@ =~= bytes_field(10, c.prefix@));
    push_len_field(&mut out, 26, prefix.as_slice());
    assert(out@ =~= connection_counterparty_encoding(c@));
    out
}

/// The host after the commitment to connection end `end` of connection `id`
/// (Keccak-256 of its protobuf encoding) is stored under the connection's path.
pub open spec fn with_connection_commitment(s: StoreView, id: Seq<char>, end: ConnectionEndView) -> StoreView {
    StoreView {
        commitments: s.commitments.insert(connection_path_spec(id), keccak256_digest(connection_end_encoding(end))),
        ..s
    }
}

/// The JSON text that `serde_json_wasm::to_vec` writes for the `ibc`
/// commitment prefix holding `prefix`: a JSON string of the prefix's text.
pub uninterp spec fn commitment_prefix_json(prefix: Seq<u8>) -> Seq<u8>;

/// Serialises `prefix` as an `ibc` `CommitmentPrefix` with
/// `serde_json_wasm::to_vec`, the form in which the connection handshake hands
/// the counterparty's prefix to the light client. `CommitmentPrefix` writes its
/// text (or, for bytes that are not UTF-8, a description of them) as a JSON
/// string; an empty prefix, which `CommitmentPrefix::try_from` refuses, is
/// taken as the default, empty prefix. The bytes are not stated here.
#[verifier::external_body]
pub(crate) fn prefix_json(prefix: &[u8]) -> (r: Vec<u8>)
    ensures
        r@ == commitment_prefix_json(prefix@),
{
    let p = ibc::core::commitment_types::commitment::CommitmentPrefix::try_from(prefix.to_vec()).unwrap_or_default();
    serde_json_wasm::to_vec(&p).unwrap_or_default()
}

impl CwIbcCoreContext {
    /// Stores the commitment to `connection_end` under the path of `connection_id`:
    /// Keccak-256 of the connection end's protobuf encoding.
    pub fn update_connection_commitment(&mut self, connection_id: &ConnectionId, connection_end: &ConnectionEnd) -> (r: Result<(), ContractError>)
        ensures
            r is Ok,
            final(self)@ == old(self)@.with_store(with_connection_commitment(old(self)@.store, connection_id@, connection_end@)),
    {
        let encoded = encode_connection_end(connection_end);
        let commitment = keccak256(encoded.as_slice());
        let path = connection_path(connection_id);
        self.store.commitments.insert(path, commitment);
        Ok(())
    }

    /// Stores a connection end under its identifier.
    pub fn store_connection(&mut self, conn_id: &ConnectionId, conn_end: ConnectionEnd) -> (r: Result<(), ContractError>)
        ensures
            r is Ok,
            final(self)@ == old(self)@.with_store(
                StoreView {
                    connections: old(self)@.store.connections.insert(conn_id@, conn_end@),
                    ..old(self)@.store
                },
            ),
    {
        self.store.connections.insert(conn_id.duplicate(), conn_end);
        Ok(())
    }

    /// The connection end stored under `conn_id`.
    pub fn connection_end(&self, conn_id: &ConnectionId) -> (r: Result<ConnectionEnd, ContractError>)
        ensures
            match r {
                Ok(c) => self@.store.connections.contains_key(conn_id@) && c@ == self@.store.connections[conn_id@],
                Err(e) => !self@.store.connections.contains_key(conn_id@) && not_found(e, "connection end"@),
            },
    {
        match self.store.connections.get(conn_id) {
            Some(c) => Ok(c.duplicate()),
            None => Err(ContractError::Std(StdError::NotFound { kind: String::from_str("connection end") })),
        }
    }

    /// Records that `client_id` serves the connection `conn_id`.
    pub fn store_connection_to_client(&mut self, client_id: &ClientId, conn_id: &ConnectionId) -> (r: Result<(), ContractError>)
        ensures
            r is Ok,
            final(self)@ == old(self)@.with_store(
                StoreView {
                    client_connections: old(self)@.store.client_connections.insert(client_id@, conn_id@),
                    ..old(self)@.store
                },
            ),
    {
        self.store.client_connections.insert(client_id.duplicate(), conn_id.duplicate());
        Ok(())
    }

    /// The connection that `client_id` serves.
    pub fn client_connection(&self, client_id: &ClientId) -> (r: Result<ConnectionId, ContractError>)
        ensures
            match r {
                Ok(c) => self@.store.client_connections.contains_key(client_id@) && c@ == self@.store.client_connections[client_id@],
                Err(e) => !self@.store.client_connections.contains_key(client_id@) && not_found(e, "connection id"@),
            },
    {
        match self.store.client_connections.get(client_id) {
            Some(c) => Ok(c.duplicate()),
            None => Err(ContractError::Std(StdError::NotFound { kind: String::from_str("connection id") })),
        }
    }

    /// Adds one to the connection counter and returns the new value.
    pub fn increase_connection_counter(&mut self) -> (r: Result<u64, ContractError>)
        requires
            old(self)@.store.next_connection_sequence matches Some(n) ==> n < u64::MAX,
        ensures
            match old(self)@.store.next_connection_sequence {
                Some(n) => r == Ok::<u64, ContractError>((n + 1) as u64) && final(self)@
                    == old(self)@.with_store(
                    StoreView { next_connection_sequence: Some((n + 1) as u64), ..old(self)@.store },
                ),
                None => final(self)@ == old(self)@ && (r matches Err(e) && not_found(e, "u64"@)),
            },
    {
        match self.store.next_connection_sequence {
            Some(n) => {
                self.store.next_connection_sequence = Some(n + 1);
                Ok(n + 1)
            },
            None => Err(ContractError::Std(StdError::NotFound { kind: String::from_str("u64") })),
        }
    }

    /// The connection counter.
    pub fn connection_counter(&self) -> (r: Result<u64, ContractError>)
        ensures
            match self@.store.next_connection_sequence {
                Some(n) => r == Ok::<u64, ContractError>(n),
                None => r matches Err(e) && not_found(e, "u64"@),
            },
    {
        match self.store.next_connection_sequence {
            Some(n) => Ok(n),
            None => Err(ContractError::Std(StdError::NotFound { kind: String::from_str("u64") })),
        }
    }

    /// Sets the connection counter to `sequence`.
    pub fn connection_next_sequence_init(&mut self, sequence: u64) -> (r: Result<(), ContractError>)
        ensures
            r is Ok,
            final(self)@ == old(self)@.with_store(
                StoreView { next_connection_sequence: Some(sequence), ..old(self)@.store },
            ),
    {
        self.store.next_connection_sequence = Some(sequence);
        Ok(())
    }

    /// Sets the connection counter to `sequence_no`.
    pub fn init_connection_counter(&mut self, sequence_no: u64) -> (r: Result<(), ContractError>)
        ensures
            r is Ok,
            final(self)@ == old(self)@.with_store(
                StoreView { next_connection_sequence: Some(sequence_no), ..old(self)@.store },
            ),
    {
        self.store.next_connection_sequence = Some(sequence_no);
        Ok(())
    }

    /// Succeeds exactly when `client_id` serves no connection yet.
    pub fn check_for_connection(&self, client_id: &ClientId) -> (r: Result<(), ContractError>)
        ensures
            match self@.store.client_connections.contains_key(client_id@) {
                false => r is Ok,
                true => r matches Err(ContractError::IbcConnectionError {
                    error: ConnectionError::ConnectionExists { connection_id: c },
                }) && c@ == self@.store.client_connections[client_id@],
            },
    {
        match self.store.client_connections.get(client_id) {
            Some(c) => Err(ContractError::IbcConnectionError {
                error: ConnectionError::ConnectionExists { connection_id: c.duplicate() },
            }),
            None => Ok(()),
        }
    }
}

} // verus!
