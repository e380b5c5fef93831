//! Errors of the IBC host.
use vstd::prelude::*;

use crate::ibc_types::{ConnectionState, Height, State, TimeoutHeight};
use crate::types::{ChannelId, ClientId, ConnectionId, PortId};

verus! {

/// Failures of the storage layer.
#[derive(Debug, PartialEq, Eq)]
pub enum StdError {
    /// Nothing is stored under the key that was read; `kind` names what was looked for.
    NotFound { kind: String },
    /// Any other failure, with its message.
    GenericErr { msg: String },
}

/// Client-level failures (ICS-02).
#[derive(Debug, PartialEq, Eq)]
pub enum ClientError {
    ClientNotFound { client_id: ClientId },
    ClientFrozen { client_id: ClientId },
    ClientStateNotFound { client_id: ClientId },
    ConsensusStateNotFound { client_id: ClientId, height: Height },
    ImplementationNotFound { client_id: ClientId },
    InvalidClientIdentifier { client_type: String, counter: u64 },
    InvalidHeight,
    MissingRawClientState,
    MissingRawConsensusState,
    MissingRawHeader,
    InvalidConsensusStateTimestamp { time1: u64, time2: u64 },
    HeaderNotWithinTrustPeriod { latest_time: u64, update_time: u64 },
    Other { description: String },
}

/// Connection-level failures (ICS-03).
#[derive(Debug, PartialEq, Eq)]
pub enum ConnectionError {
    ConnectionNotFound { connection_id: ConnectionId },
    ConnectionExists { connection_id: ConnectionId },
    EmptyVersions,
    /// A version feature is empty once white space is trimmed.
    EmptyFeatures,
    /// An identifier in the message is not one that IBC accepts.
    InvalidIdentifier { id: String },
    /// The counterparty's commitment prefix is empty.
    EmptyPrefix,
    MissingClientState,
    MissingCounterparty,
    ConnectionMismatch { connection_id: ConnectionId },
    InvalidState { expected: ConnectionState, actual: ConnectionState },
    InvalidConsensusHeight { target_height: Height, current_height: Height },
    NotEnoughTimeElapsed { current_host_time: u64, earliest_valid_time: u64 },
    NotEnoughBlocksElapsed { current_host_height: u64, earliest_valid_height: u64 },
    TimestampOverflow,
    Other { description: String },
}

/// Channel-level failures (ICS-04 handshake).
#[derive(Debug, PartialEq, Eq)]
#[allow(inconsistent_fields)]
pub enum ChannelError {
    ChannelNotFound { port_id: PortId, channel_id: ChannelId },
    InvalidChannelState { channel_id: ChannelId, state: State },
    ChannelClosed { channel_id: ChannelId },
    InvalidConnectionHopsLength { expected: u64, actual: u64 },
    ConnectionNotOpen { connection_id: ConnectionId },
    InvalidVersionLengthConnection,
    ChannelFeatureNotSupportedByConnection,
    UndefinedConnectionCounterparty { connection_id: ConnectionId },
    MissingCounterparty,
    InvalidCounterpartyChannelId,
    FrozenClient { client_id: ClientId },
    UnknownState { state: u64 },
    UnknownOrderType { type_id: String },
    /// The message carries no channel end.
    MissingChannel,
    /// A channel state number that is not one of the five states, or the
    /// uninitialized state (0) where a channel end must have a state.
    InvalidState { state: i32 },
    /// An ordering number that is not one of the three orderings, or the
    /// unspecified ordering (0) where a channel end must be ordered.
    InvalidOrderType { order: i32 },
    /// An identifier in the message is not one that IBC accepts.
    InvalidIdentifier { id: String },
    Other { description: String },
}

/// Packet-level failures (ICS-04 packets).
#[derive(Debug, PartialEq, Eq)]
pub enum PacketError {
    MissingNextSendSeq { port_id: PortId, channel_id: ChannelId },
    MissingNextRecvSeq { port_id: PortId, channel_id: ChannelId },
    MissingNextAckSeq { port_id: PortId, channel_id: ChannelId },
    InvalidChannelState { channel_id: ChannelId, state: State },
    ChannelClosed { channel_id: ChannelId },
    InvalidPacketCounterparty { port_id: PortId, channel_id: ChannelId },
    ConnectionNotOpen { connection_id: ConnectionId },
    FrozenClient { client_id: ClientId },
    LowPacketHeight { chain_height: Height, timeout_height: TimeoutHeight },
    LowPacketTimestamp,
    /// A timeout timestamp that `ibc` cannot read as a time.
    InvalidPacketTimestamp,
    InvalidPacketSequence { given_sequence: u64, next_sequence: u64 },
    IncorrectPacketCommitment { sequence: u64 },
    PacketCommitmentNotFound { sequence: u64 },
    PacketReceiptNotFound { sequence: u64 },
    PacketAcknowledgementNotFound { sequence: u64 },
    AcknowledgementExists { sequence: u64 },
    InvalidAcknowledgement,
    PacketTimeoutHeightNotReached { timeout_height: TimeoutHeight, chain_height: Height },
    UndefinedConnectionCounterparty { connection_id: ConnectionId },
}

/// Port-level failures (ICS-05).
#[derive(Debug, PartialEq, Eq)]
pub enum PortError {
    UnknownPort { port_id: PortId },
}

/// Every failure that the contract reports.
#[derive(Debug, PartialEq, Eq)]
#[allow(inconsistent_fields)]
pub enum ContractError {
    Std(StdError),
    Unauthorized,
    InvalidCommitmentKey,
    InvalidConnectiontId { connection_id: String },
    InvalidClientId { client_id: String },
    InvalidNextClientSequence,
    InvalidClientType { client_type: String },
    IbcContextError { error: String },
    IbcDecodeError { error: String },
    IbcPortError { error: PortError },
    IbcPacketError { error: PacketError },
    IbcChannelError { error: ChannelError },
    IbcConnectionError { error: ConnectionError },
    IbcClientError { error: ClientError },
    IbcValidationError { error: String },
    ReplyError { code: u64, msg: String },
    InsufficientBalance,
    IbcRawConversionError { error: String },
    FailedConversion,
    LightClientValidationFailed(String),
    InvalidEventType { event: String, event_type: String },
    InvalidHeight,
    PacketNotExpired,
    CallAlreadyInProgress,
}

/// Whether `e` is the storage error that nothing of `kind` is stored.
pub open spec fn not_found(e: ContractError, kind: Seq<char>) -> bool {
    e matches ContractError::Std(StdError::NotFound { kind: k }) && k@ == kind
}

/// Whether `e` is a decoding error with this text.
pub open spec fn decode_error(e: ContractError, text: Seq<char>) -> bool {
    e matches ContractError::IbcDecodeError { error: t } && t@ == text
}

/// Whether `e` is the validation error with this text.
pub open spec fn validation_error(e: ContractError, text: Seq<char>) -> bool {
    e matches ContractError::IbcValidationError { error: t } && t@ == text
}

} // verus!
