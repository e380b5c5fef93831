//! Commitment paths (ICS-24) as bytes, and the packet and acknowledgement
//! commitments.
use vstd::prelude::*;

use crate::encoding::{be_bytes, decimal, sha256, sha256_digest, u64_to_decimal};
use crate::ibc_types::{timeout_revision_height, timeout_revision_number, Height, TimeoutHeight};
use crate::types::{ChannelId, ClientId, ConnectionId, PortId};

verus! {

/// The bytes of a path.
pub open spec fn path_bytes(s: Seq<char>) -> Seq<u8> {
    vstd::utf8::encode_utf8(s)
}

/// `ports/{port}/channels/{channel}`.
pub open spec fn port_channel_suffix(port: Seq<char>, channel: Seq<char>) -> Seq<char> {
    "ports/"@ + port + "/channels/"@ + channel
}

/// `commitments/ports/{port}/channels/{channel}/sequences/{sequence}`.
pub open spec fn packet_commitment_path_spec(port: Seq<char>, channel: Seq<char>, sequence: u64) -> Seq<u8> {
    path_bytes("commitments/"@ + port_channel_suffix(port, channel) + "/sequences/"@ + decimal(sequence as nat))
}

/// `acks/ports/{port}/channels/{channel}/sequences/{sequence}`.
pub open spec fn ack_path_spec(port: Seq<char>, channel: Seq<char>, sequence: u64) -> Seq<u8> {
    path_bytes("acks/"@ + port_channel_suffix(port, channel) + "/sequences/"@ + decimal(sequence as nat))
}

/// `receipts/ports/{port}/channels/{channel}/sequences/{sequence}`.
pub open spec fn receipt_path_spec(port: Seq<char>, channel: Seq<char>, sequence: u64) -> Seq<u8> {
    path_bytes("receipts/"@ + port_channel_suffix(port, channel) + "/sequences/"@ + decimal(sequence as nat))
}

/// `nextSequenceRecv/ports/{port}/channels/{channel}`.
pub open spec fn next_seq_recv_path_spec(port: Seq<char>, channel: Seq<char>) -> Seq<u8> {
    path_bytes("nextSequenceRecv/"@ + port_channel_suffix(port, channel))
}

/// `channelEnds/ports/{port}/channels/{channel}`.
pub open spec fn channel_path_spec(port: Seq<char>, channel: Seq<char>) -> Seq<u8> {
    path_bytes("channelEnds/"@ + port_channel_suffix(port, channel))
}

/// `connections/{connection}`.
pub open spec fn connection_path_spec(connection: Seq<char>) -> Seq<u8> {
    path_bytes("connections/"@ + connection)
}

/// `clients/{client}/clientState`.
pub open spec fn client_state_path_spec(client: Seq<char>) -> Seq<u8> {
    path_bytes("clients/"@ + client + "/clientState"@)
}

/// `clients/{client}/consensusStates/{revision}-{height}`.
pub open spec fn consensus_state_path_spec(client: Seq<char>, height: Height) -> Seq<u8> {
    path_bytes(
        "clients/"@ + client + "/consensusStates/"@ + decimal(height.revision_number as nat) + "-"@
            + decimal(height.revision_height as nat),
    )
}

fn text_bytes(s: String) -> (r: Vec<u8>)
    ensures
        r@ == path_bytes(s@),
{
    crate::encoding::copy_bytes(s.as_str().as_bytes())
}

fn port_channel_text(prefix: &str, port: &PortId, channel: &ChannelId) -> (r: String)
    ensures
        r@ == prefix@ + port_channel_suffix(port@, channel@),
{
    let s = String::from_str(prefix).concat("ports/").concat(port.as_str()).concat("/channels/").concat(
        channel.as_str(),
    );
    assert(s@ =~= prefix@ + port_channel_suffix(port@, channel@));
    s
}

fn sequenced_text(prefix: &str, port: &PortId, channel: &ChannelId, sequence: u64) -> (r: String)
    ensures
        r@ == prefix@ + port_channel_suffix(port@, channel@) + "/sequences/"@ + decimal(sequence as nat),
{
    let seq = u64_to_decimal(sequence);
    port_channel_text(prefix, port, channel).concat("/sequences/").concat(seq.as_str())
}

pub fn packet_commitment_path(port: &PortId, channel: &ChannelId, sequence: u64) -> (r: Vec<u8>)
    ensures
        r@ == packet_commitment_path_spec(port@, channel@, sequence),
{
    text_bytes(sequenced_text("commitments/", port, channel, sequence))
}

pub fn acknowledgement_commitment_path(port: &PortId, channel: &ChannelId, sequence: u64) -> (r: Vec<u8>)
    ensures
        r@ == ack_path_spec(port@, channel@, sequence),
{
    text_bytes(sequenced_text("acks/", port, channel, sequence))
}

pub fn receipt_commitment_path(port: &PortId, channel: &ChannelId, sequence: u64) -> (r: Vec<u8>)
    ensures
        r@ == receipt_path_spec(port@, channel@, sequence),
{
    text_bytes(sequenced_text("receipts/", port, channel, sequence))
}

pub fn next_seq_recv_commitment_path(port: &PortId, channel: &ChannelId) -> (r: Vec<u8>)
    ensures
        r@ == next_seq_recv_path_spec(port@, channel@),
{
    text_bytes(port_channel_text("nextSequenceRecv/", port, channel))
}

pub fn channel_path(port: &PortId, channel: &ChannelId) -> (r: Vec<u8>)
    ensures
        r@ == channel_path_spec(port@, channel@),
{
    text_bytes(port_channel_text("channelEnds/", port, channel))
}

pub fn connection_path(connection: &ConnectionId) -> (r: Vec<u8>)
    ensures
        r@ == connection_path_spec(connection@),
{
    text_bytes(String::from_str("connections/").concat(connection.as_str()))
}

pub fn client_state_path(client: &ClientId) -> (r: Vec<u8>)
    ensures
        r@ == client_state_path_spec(client@),
{
    text_bytes(String::from_str("clients/").concat(client.as_str()).concat("/clientState"))
}

pub fn consensus_state_path(client: &ClientId, height: &Height) -> (r: Vec<u8>)
    ensures
        r@ == consensus_state_path_spec(client@, *height),
{
    let n = u64_to_decimal(height.revision_number);
    let h = u64_to_decimal(height.revision_height);
    let s = String::from_str("clients/").concat(client.as_str()).concat("/consensusStates/").concat(
        n.as_str(),
    ).concat("-").concat(h.as_str());
    text_bytes(s)
}

/// The commitment to a packet: SHA-256 of the timeout timestamp, the timeout
/// revision number and the timeout revision height (eight big-endian bytes
/// each), followed by the SHA-256 of the data.
pub open spec fn packet_commitment_spec(data: Seq<u8>, timeout_height: TimeoutHeight, timeout_timestamp: u64) -> Seq<u8> {
    sha256_digest(
        be_bytes(timeout_timestamp) + be_bytes(timeout_revision_number(timeout_height)) + be_bytes(
            timeout_revision_height(timeout_height),
        ) + sha256_digest(data),
    )
}

/// The commitment to an acknowledgement: its SHA-256.
pub open spec fn ack_commitment_spec(ack: Seq<u8>) -> Seq<u8> {
    sha256_digest(ack)
}

/// Computes the commitment to an acknowledgement.
pub fn compute_ack_commitment(ack: &[u8]) -> (r: Vec<u8>)
    ensures
        r@ == ack_commitment_spec(ack@),
{
    sha256(ack)
}

} // verus!
