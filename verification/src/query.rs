//! Read-only queries on the host's state.
use vstd::prelude::*;

use crate::context::{ContextView, CwIbcCoreContext};
use crate::encoding::{hex_encode, hex_text};
use crate::error::{decode_error, not_found, validation_error, ChannelError, ContractError, PacketError};
use crate::ibc_types::strings_view;
use crate::ics03_connection::connection::{connection_end_encoding, encode_connection_end};
use crate::ics04_channel::channel::{channel_end_encoding, encode_channel_end, receipt_ok_bytes};
use crate::ics24_host::commitment::{ack_path_spec, packet_commitment_path_spec, receipt_path_spec};
use crate::types::{channel_id_parses, client_id_parses, connection_id_parses, port_id_parses, ChannelId, ClientId, ClientType, ConnectionId, PortId};

verus! {

/// A query on the host's state. Identifiers come as text and are parsed.
pub enum QueryMsg {
    GetCommitment { key: Vec<u8> },
    GetClientRegistry { client_type: String },
    GetClientType { client_id: String },
    GetClientImplementation { client_id: String },
    GetConsensusState { client_id: String },
    GetClientState { client_id: String },
    GetConnection { connection_id: String },
    GetChannel { port_id: String, channel_id: String },
    GetNextSequenceSend { port_id: String, channel_id: String },
    GetNextSequenceReceive { port_id: String, channel_id: String },
    GetNextSequenceAcknowledgement { port_id: String, channel_id: String },
    GetCapability { name: String },
    GetExpectedTimePerBlock,
    GetNextClientSequence,
    GetNextConnectionSequence,
    GetNextChannelSequence,
    GetPacketReceipt { port_id: String, channel_id: String, sequence: u64 },
    GetPacketCommitment { port_id: String, channel_id: String, sequence: u64 },
    GetPacketAcknowledgementCommitment { port_id: String, channel_id: String, sequence: u64 },
    HasPacketReceipt { port_id: String, channel_id: String, sequence: u64 },
}

/// What a query answers: a text (hexadecimal bytes, an address, a type), a
/// number, a flag or a list of addresses.
pub enum QueryResponse {
    Text(String),
    Number(u64),
    Flag(bool),
    Names(Vec<String>),
}

/// A query's answer taken by its view.
pub enum QueryAnswer {
    Text(Seq<char>),
    Number(u64),
    Flag(bool),
    Names(Seq<Seq<char>>),
}

impl View for QueryResponse {
    type V = QueryAnswer;

    open spec fn view(&self) -> QueryAnswer {
        match self {
            QueryResponse::Text(t) => QueryAnswer::Text(t@),
            QueryResponse::Number(n) => QueryAnswer::Number(*n),
            QueryResponse::Flag(b) => QueryAnswer::Flag(*b),
            QueryResponse::Names(v) => QueryAnswer::Names(strings_view(v@)),
        }
    }
}

/// How a query goes: its answer, an identifier that does not parse, or an
/// entry that the store lacks.
pub enum QueryOutcome {
    Answer(QueryAnswer),
    InvalidIdentifier,
    Missing,
}

/// The answer of stored bytes, in hexadecimal.
pub open spec fn hex_answer(o: Option<Seq<u8>>) -> QueryOutcome {
    match o {
        Some(b) => QueryOutcome::Answer(QueryAnswer::Text(hex_text(b))),
        None => QueryOutcome::Missing,
    }
}

/// The answer of a stored text.
pub open spec fn text_answer(o: Option<Seq<char>>) -> QueryOutcome {
    match o {
        Some(t) => QueryOutcome::Answer(QueryAnswer::Text(t)),
        None => QueryOutcome::Missing,
    }
}

/// The answer of a stored number.
pub open spec fn number_answer(o: Option<u64>) -> QueryOutcome {
    match o {
        Some(n) => QueryOutcome::Answer(QueryAnswer::Number(n)),
        None => QueryOutcome::Missing,
    }
}

/// Both identifiers of a channel parse.
pub open spec fn channel_ids_valid(port: Seq<char>, channel: Seq<char>) -> bool {
    port_id_parses(port) && channel_id_parses(channel)
}

/// The outcome of query `q` on host `c`.
pub open spec fn query_outcome(c: ContextView, q: QueryMsg) -> QueryOutcome {
    match q {
        QueryMsg::GetCommitment { key } => hex_answer(c.store.commitments.get(key@)),
        QueryMsg::GetClientRegistry { client_type } => text_answer(c.store.client_registry.get(client_type@)),
        QueryMsg::GetClientType { client_id } => if !client_id_parses(client_id@) {
            QueryOutcome::InvalidIdentifier
        } else {
            text_answer(c.store.client_types.get(client_id@))
        },
        QueryMsg::GetClientImplementation { client_id } => if !client_id_parses(client_id@) {
            QueryOutcome::InvalidIdentifier
        } else {
            text_answer(c.store.client_implementations.get(client_id@))
        },
        QueryMsg::GetConsensusState { client_id } => if !client_id_parses(client_id@) {
            QueryOutcome::InvalidIdentifier
        } else {
            hex_answer(c.store.consensus_states.get(client_id@))
        },
        QueryMsg::GetClientState { client_id } => if !client_id_parses(client_id@) {
            QueryOutcome::InvalidIdentifier
        } else {
            hex_answer(c.store.client_states.get(client_id@))
        },
        QueryMsg::GetConnection { connection_id } => if !connection_id_parses(connection_id@) {
            QueryOutcome::InvalidIdentifier
        } else {
            match c.store.connections.get(connection_id@) {
                Some(e) => QueryOutcome::Answer(QueryAnswer::Text(hex_text(connection_end_encoding(e)))),
                None => QueryOutcome::Missing,
            }
        },
        QueryMsg::GetChannel { port_id, channel_id } => if !channel_ids_valid(port_id@, channel_id@) {
            QueryOutcome::InvalidIdentifier
        } else {
            match c.store.channels.get((port_id@, channel_id@)) {
                Some(e) => QueryOutcome::Answer(QueryAnswer::Text(hex_text(channel_end_encoding(e)))),
                None => QueryOutcome::Missing,
            }
        },
        QueryMsg::GetNextSequenceSend { port_id, channel_id } => if !channel_ids_valid(port_id@, channel_id@) {
            QueryOutcome::InvalidIdentifier
        } else {
            number_answer(c.store.next_sequence_send.get((port_id@, channel_id@)))
        },
        QueryMsg::GetNextSequenceReceive { port_id, channel_id } => if !channel_ids_valid(port_id@, channel_id@) {
            QueryOutcome::InvalidIdentifier
        } else {
            number_answer(c.store.next_sequence_recv.get((port_id@, channel_id@)))
        },
        QueryMsg::GetNextSequenceAcknowledgement { port_id, channel_id } => if !channel_ids_valid(port_id@, channel_id@) {
            QueryOutcome::InvalidIdentifier
        } else {
            number_answer(c.store.next_sequence_ack.get((port_id@, channel_id@)))
        },
        QueryMsg::GetCapability { name } => match c.store.capabilities.get(vstd::utf8::encode_utf8(name@)) {
            Some(v) => QueryOutcome::Answer(QueryAnswer::Names(strings_view(v))),
            None => QueryOutcome::Missing,
        },
        QueryMsg::GetExpectedTimePerBlock => number_answer(c.store.expected_time_per_block),
        QueryMsg::GetNextClientSequence => number_answer(c.store.next_client_sequence),
        QueryMsg::GetNextConnectionSequence => number_answer(c.store.next_connection_sequence),
        QueryMsg::GetNextChannelSequence => number_answer(c.store.next_channel_sequence),
        QueryMsg::GetPacketReceipt { port_id, channel_id, sequence } => if !channel_ids_valid(port_id@, channel_id@) {
            QueryOutcome::InvalidIdentifier
        } else if c.store.commitments.get(receipt_path_spec(port_id@, channel_id@, sequence)) == Some(receipt_ok_bytes()) {
            QueryOutcome::Answer(QueryAnswer::Flag(true))
        } else {
            QueryOutcome::Missing
        },
        QueryMsg::GetPacketCommitment { port_id, channel_id, sequence } => if !channel_ids_valid(port_id@, channel_id@) {
            QueryOutcome::InvalidIdentifier
        } else {
            hex_answer(c.store.commitments.get(packet_commitment_path_spec(port_id@, channel_id@, sequence)))
        },
        QueryMsg::GetPacketAcknowledgementCommitment { port_id, channel_id, sequence } => if !channel_ids_valid(port_id@, channel_id@) {
            QueryOutcome::InvalidIdentifier
        } else {
            hex_answer(c.store.commitments.get(ack_path_spec(port_id@, channel_id@, sequence)))
        },
        QueryMsg::HasPacketReceipt { port_id, channel_id, sequence } => if !channel_ids_valid(port_id@, channel_id@) {
            QueryOutcome::InvalidIdentifier
        } else {
            QueryOutcome::Answer(QueryAnswer::Flag(
                c.store.commitments.get(receipt_path_spec(port_id@, channel_id@, sequence)) == Some(receipt_ok_bytes()),
            ))
        },
    }
}

/// Whether `e` is the error of query `q` on host `c` where the store lacks
/// the entry asked for: the error of the lookup that the query makes.
pub open spec fn missing_error(c: ContextView, q: QueryMsg, e: ContractError) -> bool {
    match q {
        QueryMsg::GetCommitment { .. } => e == ContractError::InvalidCommitmentKey,
        QueryMsg::GetClientRegistry { client_type } => e matches ContractError::InvalidClientType { client_type: t } && t@ == client_type@,
        QueryMsg::GetClientType { client_id } => e matches ContractError::InvalidClientId { client_id: t } && t@ == client_id@,
        QueryMsg::GetClientImplementation { client_id } => e matches ContractError::InvalidClientId { client_id: t } && t@ == client_id@,
        QueryMsg::GetConsensusState { .. } => not_found(e, "consensus state"@),
        QueryMsg::GetClientState { .. } => not_found(e, "client state"@),
        QueryMsg::GetConnection { .. } => not_found(e, "connection end"@),
        QueryMsg::GetChannel { port_id, channel_id } => e matches ContractError::IbcChannelError {
            error: ChannelError::ChannelNotFound { port_id: p, channel_id: ch },
        } && p@ == port_id@ && ch@ == channel_id@,
        QueryMsg::GetNextSequenceSend { .. } => not_found(e, "sequence"@),
        QueryMsg::GetNextSequenceReceive { .. } => not_found(e, "sequence"@),
        QueryMsg::GetNextSequenceAcknowledgement { .. } => not_found(e, "sequence"@),
        QueryMsg::GetCapability { .. } => decode_error(e, "CapabilityNotFound"@),
        QueryMsg::GetExpectedTimePerBlock => decode_error(e, "NotFound"@),
        QueryMsg::GetNextClientSequence => e == ContractError::InvalidNextClientSequence,
        QueryMsg::GetNextConnectionSequence => not_found(e, "u64"@),
        QueryMsg::GetNextChannelSequence => not_found(e, "u64"@),
        QueryMsg::GetPacketReceipt { port_id, channel_id, sequence } =>
            if c.store.commitments.contains_key(receipt_path_spec(port_id@, channel_id@, sequence)) {
                e == ContractError::IbcPacketError { error: PacketError::PacketReceiptNotFound { sequence } }
            } else {
                decode_error(e, "PacketCommitmentNotFound"@)
            },
        QueryMsg::GetPacketCommitment { .. } => decode_error(e, "PacketCommitmentNotFound"@),
        QueryMsg::GetPacketAcknowledgementCommitment { .. } => decode_error(e, "PacketCommitmentNotFound"@),
        QueryMsg::HasPacketReceipt { .. } => false,
    }
}

/// Whether `e` is the error of query `q` where an identifier does not parse:
/// a validation error that names the first such identifier.
pub open spec fn invalid_identifier_error(q: QueryMsg, e: ContractError) -> bool {
    match q {
        QueryMsg::GetClientType { client_id } => validation_error(e, client_id@),
        QueryMsg::GetClientImplementation { client_id } => validation_error(e, client_id@),
        QueryMsg::GetConsensusState { client_id } => validation_error(e, client_id@),
        QueryMsg::GetClientState { client_id } => validation_error(e, client_id@),
        QueryMsg::GetConnection { connection_id } => validation_error(e, connection_id@),
        QueryMsg::GetChannel { port_id, channel_id } => channel_id_error(port_id@, channel_id@, e),
        QueryMsg::GetNextSequenceSend { port_id, channel_id } => channel_id_error(port_id@, channel_id@, e),
        QueryMsg::GetNextSequenceReceive { port_id, channel_id } => channel_id_error(port_id@, channel_id@, e),
        QueryMsg::GetNextSequenceAcknowledgement { port_id, channel_id } => channel_id_error(port_id@, channel_id@, e),
        QueryMsg::GetPacketReceipt { port_id, channel_id, .. } => channel_id_error(port_id@, channel_id@, e),
        QueryMsg::GetPacketCommitment { port_id, channel_id, .. } => channel_id_error(port_id@, channel_id@, e),
        QueryMsg::GetPacketAcknowledgementCommitment { port_id, channel_id, .. } => channel_id_error(port_id@, channel_id@, e),
        QueryMsg::HasPacketReceipt { port_id, channel_id, .. } => channel_id_error(port_id@, channel_id@, e),
        _ => false,
    }
}

/// The validation error of a port and channel pair: it names the port where
/// the port does not parse, and the channel otherwise.
pub open spec fn channel_id_error(port: Seq<char>, channel: Seq<char>, e: ContractError) -> bool {
    if !port_id_parses(port) {
        validation_error(e, port)
    } else {
        validation_error(e, channel)
    }
}

/// The error of an identifier that does not parse.
fn invalid_identifier(s: &String) -> (r: ContractError)
    ensures
        validation_error(r, s@),
{
    ContractError::IbcValidationError { error: s.clone() }
}

impl CwIbcCoreContext {
    fn parse_channel(port_id: &String, channel_id: &String) -> (r: Result<(PortId, ChannelId), ContractError>)
        ensures
            match r {
                Ok((p, c)) => channel_ids_valid(port_id@, channel_id@) && p@ == port_id@ && c@ == channel_id@,
                Err(e) => !channel_ids_valid(port_id@, channel_id@) && channel_id_error(port_id@, channel_id@, e),
            },
    {
        let port = match PortId::from_string(port_id.clone()) {
            Some(p) => p,
            None => {
                return Err(invalid_identifier(port_id));
            },
        };
        match ChannelId::from_string(channel_id.clone()) {
            Some(c) => Ok((port, c)),
            None => Err(invalid_identifier(channel_id)),
        }
    }

    fn parse_client(client_id: &String) -> (r: Result<ClientId, ContractError>)
        ensures
            match r {
                Ok(c) => client_id_parses(client_id@) && c@ == client_id@,
                Err(e) => !client_id_parses(client_id@) && validation_error(e, client_id@),
            },
    {
        match ClientId::from_string(client_id.clone()) {
            Some(c) => Ok(c),
            None => Err(invalid_identifier(client_id)),
        }
    }

    fn hex_response(r: Result<Vec<u8>, ContractError>) -> (q: Result<QueryResponse, ContractError>)
        ensures
            match r {
                Ok(b) => q matches Ok(x) && x@ == QueryAnswer::Text(hex_text(b@)),
                Err(e) => q == Err::<QueryResponse, ContractError>(e),
            },
    {
        match r {
            Ok(b) => Ok(QueryResponse::Text(hex_encode(b.as_slice()))),
            Err(e) => Err(e),
        }
    }

    fn number_response(r: Result<u64, ContractError>) -> (q: Result<QueryResponse, ContractError>)
        ensures
            match r {
                Ok(n) => q matches Ok(x) && x@ == QueryAnswer::Number(n),
                Err(e) => q == Err::<QueryResponse, ContractError>(e),
            },
    {
        match r {
            Ok(n) => Ok(QueryResponse::Number(n)),
            Err(e) => Err(e),
        }
    }

    /// Answers query `msg`. Where an identifier does not parse the answer is
    /// an `IbcValidationError` that names it; where the store lacks the entry asked for, it
    /// is the error of the lookup (see [`missing_error`]).
    pub fn query(&self, msg: &QueryMsg) -> (r: Result<QueryResponse, ContractError>)
        ensures
            match query_outcome(self@, *msg) {
                QueryOutcome::Answer(a) => r matches Ok(x) && x@ == a,
                QueryOutcome::InvalidIdentifier => r matches Err(e) && invalid_identifier_error(*msg, e),
                QueryOutcome::Missing => r matches Err(e) && missing_error(self@, *msg, e),
            },
    {
        match msg {
            QueryMsg::GetCommitment { key } => Self::hex_response(self.get_commitment(key)),
            QueryMsg::GetClientRegistry { client_type } => {
                match self.get_client_from_registry(&ClientType::new(client_type.clone())) {
                    Ok(a) => Ok(QueryResponse::Text(a)),
                    Err(e) => Err(e),
                }
            },
            QueryMsg::GetClientType { client_id } => {
                let id = Self::parse_client(client_id)?;
                match self.get_client_type(&id) {
                    Ok(t) => Ok(QueryResponse::Text(t.as_str().to_owned())),
                    Err(e) => Err(e),
                }
            },
            QueryMsg::GetClientImplementation { client_id } => {
                let id = Self::parse_client(client_id)?;
                match self.get_client_implementations(&id) {
                    Ok(c) => Ok(QueryResponse::Text(c.get_address())),
                    Err(e) => Err(e),
                }
            },
            QueryMsg::GetConsensusState { client_id } => {
                let id = Self::parse_client(client_id)?;
                Self::hex_response(self.consensus_state_any(&id))
            },
            QueryMsg::GetClientState { client_id } => {
                let id = Self::parse_client(client_id)?;
                Self::hex_response(self.client_state_any(&id))
            },
            QueryMsg::GetConnection { connection_id } => {
                let id = match ConnectionId::from_string(connection_id.clone()) {
                    Some(c) => c,
                    None => {
                        return Err(invalid_identifier(connection_id));
                    },
                };
                match self.connection_end(&id) {
                    Ok(e) => Ok(QueryResponse::Text(hex_encode(encode_connection_end(&e).as_slice()))),
                    Err(e) => Err(e),
                }
            },
            QueryMsg::GetChannel { port_id, channel_id } => {
                let (p, c) = Self::parse_channel(port_id, channel_id)?;
                match self.get_channel_end(&p, &c) {
                    Ok(e) => Ok(QueryResponse::Text(hex_encode(encode_channel_end(&e).as_slice()))),
                    Err(e) => Err(e),
                }
            },
            QueryMsg::GetNextSequenceSend { port_id, channel_id } => {
                let (p, c) = Self::parse_channel(port_id, channel_id)?;
                Self::number_response(self.get_next_sequence_send(&p, &c))
            },
            QueryMsg::GetNextSequenceReceive { port_id, channel_id } => {
                let (p, c) = Self::parse_channel(port_id, channel_id)?;
                Self::number_response(self.get_next_sequence_recv(&p, &c))
            },
            QueryMsg::GetNextSequenceAcknowledgement { port_id, channel_id } => {
                let (p, c) = Self::parse_channel(port_id, channel_id)?;
                Self::number_response(self.get_next_sequence_ack(&p, &c))
            },
            QueryMsg::GetCapability { name } => {
                let key = crate::encoding::copy_bytes(name.as_str().as_bytes());
                match self.get_capability(&key) {
                    Ok(v) => Ok(QueryResponse::Names(v)),
                    Err(e) => Err(e),
                }
            },
            QueryMsg::GetExpectedTimePerBlock => Self::number_response(self.get_expected_time_per_block()),
            QueryMsg::GetNextClientSequence => Self::number_response(self.client_counter()),
            QueryMsg::GetNextConnectionSequence => Self::number_response(self.connection_counter()),
            QueryMsg::GetNextChannelSequence => Self::number_response(self.channel_counter()),
            QueryMsg::GetPacketReceipt { port_id, channel_id, sequence } => {
                let (p, c) = Self::parse_channel(port_id, channel_id)?;
                match self.get_packet_receipt(&p, &c, *sequence) {
                    Ok(()) => Ok(QueryResponse::Flag(true)),
                    Err(e) => Err(e),
                }
            },
            QueryMsg::GetPacketCommitment { port_id, channel_id, sequence } => {
                let (p, c) = Self::parse_channel(port_id, channel_id)?;
                Self::hex_response(self.get_packet_commitment(&p, &c, *sequence))
            },
            QueryMsg::GetPacketAcknowledgementCommitment { port_id, channel_id, sequence } => {
                let (p, c) = Self::parse_channel(port_id, channel_id)?;
                Self::hex_response(self.get_packet_acknowledgement(&p, &c, *sequence))
            },
            QueryMsg::HasPacketReceipt { port_id, channel_id, sequence } => {
                let (p, c) = Self::parse_channel(port_id, channel_id)?;
                let found = self.get_packet_receipt(&p, &c, *sequence);
                Ok(QueryResponse::Flag(found.is_ok()))
            },
        }
    }
}

} // verus!
