//! Packet messages, the facts that light clients report, and what the host asks
//! light clients to verify.
use vstd::prelude::*;

use crate::conversions::{height_error, height_of, packet_error, packet_readable, timeout_height_of, to_ibc_height, RawHeight, RawPacket};
use crate::encoding::{decimal, u64_to_decimal};
use crate::error::ContractError;
use crate::ibc_types::{ChannelEnd, ConnectionEndView, Height, Order, Packet, TimeoutHeight};
use crate::ics24_host::commitment::{next_seq_recv_path_spec, receipt_path_spec};

verus! {

/// A packet taken by its view.
pub struct PacketView {
    pub sequence: u64,
    pub source_port: Seq<char>,
    pub source_channel: Seq<char>,
    pub destination_port: Seq<char>,
    pub destination_channel: Seq<char>,
    pub data: Seq<u8>,
    pub timeout_height: TimeoutHeight,
    pub timeout_timestamp: u64,
}

impl View for Packet {
    type V = PacketView;

    open spec fn view(&self) -> PacketView {
        PacketView {
            sequence: self.sequence,
            source_port: self.source_port@,
            source_channel: self.source_channel@,
            destination_port: self.destination_port@,
            destination_channel: self.destination_channel@,
            data: self.data@,
            timeout_height: self.timeout_height,
            timeout_timestamp: self.timeout_timestamp,
        }
    }
}

impl Packet {
    pub fn duplicate(&self) -> (r: Packet)
        ensures
            r@ == self@,
    {
        Packet {
            sequence: self.sequence,
            source_port: crate::store::KeyLike::duplicate(&self.source_port),
            source_channel: crate::store::KeyLike::duplicate(&self.source_channel),
            destination_port: crate::store::KeyLike::duplicate(&self.destination_port),
            destination_channel: crate::store::KeyLike::duplicate(&self.destination_channel),
            data: crate::encoding::copy_bytes(self.data.as_slice()),
            timeout_height: self.timeout_height,
            timeout_timestamp: self.timeout_timestamp,
        }
    }
}

/// What the light client of a connection reports of its client state.
#[derive(Debug, Clone, Copy, PartialEq, Eq, Structural)]
pub struct ClientFacts {
    pub frozen: bool,
    pub latest_height: Height,
}

/// What the light client reports of a consensus state.
#[derive(Debug)]
pub struct ConsensusFacts {
    pub root: Vec<u8>,
    /// In nanoseconds.
    pub timestamp: u64,
}

/// `{revision}-{height}`, the text of a height.
pub open spec fn height_text(h: Height) -> Seq<char> {
    decimal(h.revision_number as nat) + seq!['-'] + decimal(h.revision_height as nat)
}

/// The text of a height.
pub fn height_to_string(h: &Height) -> (r: String)
    ensures
        r@ == height_text(*h),
{
    let n = u64_to_decimal(h.revision_number);
    let m = u64_to_decimal(h.revision_height);
    let r = n.concat("-").concat(m.as_str());
    proof {
        reveal_strlit("-");
    }
    assert(r@ =~= height_text(*h));
    r
}

/// A request to receive a packet, with the proof of its commitment.
#[derive(Debug)]
pub struct MsgRecvPacket {
    pub packet: Packet,
    pub proof_commitment: Vec<u8>,
    pub proof_height: Height,
    pub signer: String,
}

/// An acknowledgement of a sent packet, with its proof.
#[derive(Debug)]
pub struct MsgAcknowledgement {
    pub packet: Packet,
    pub acknowledgement: Vec<u8>,
    pub proof_acked: Vec<u8>,
    pub proof_height: Height,
    pub signer: String,
}

/// A claim that a sent packet timed out, with the proof that it was not received.
#[derive(Debug)]
pub struct MsgTimeout {
    pub packet: Packet,
    pub next_sequence_recv: u64,
    pub proof_unreceived: Vec<u8>,
    pub proof_height: Height,
    pub signer: String,
}

/// A claim that a sent packet cannot arrive because the counterparty closed
/// the channel, with both proofs.
#[derive(Debug)]
pub struct MsgTimeoutOnClose {
    pub packet: Packet,
    pub next_sequence_recv: u64,
    pub proof_unreceived: Vec<u8>,
    pub proof_close: Vec<u8>,
    pub proof_height: Height,
    pub signer: String,
}

/// What a light client checks of a received packet's commitment.
#[derive(Debug)]
pub struct VerifyPacketData {
    pub height: String,
    pub prefix: Vec<u8>,
    pub proof: Vec<u8>,
    pub root: Vec<u8>,
    pub commitment_path: Vec<u8>,
    pub commitment: Vec<u8>,
}

/// What a light client checks of an acknowledgement.
#[derive(Debug)]
pub struct VerifyPacketAcknowledgement {
    pub height: String,
    pub prefix: Vec<u8>,
    pub proof: Vec<u8>,
    pub root: Vec<u8>,
    pub ack_path: Vec<u8>,
    pub ack: Vec<u8>,
}

/// What a light client checks to confirm that a packet was not received.
#[derive(Debug)]
pub enum LightClientPacketMessage {
    VerifyPacketReceiptAbsence {
        height: String,
        prefix: Vec<u8>,
        proof: Vec<u8>,
        root: Vec<u8>,
        receipt_path: Vec<u8>,
    },
    VerifyNextSequenceRecv {
        height: String,
        prefix: Vec<u8>,
        proof: Vec<u8>,
        root: Vec<u8>,
        seq_recv_path: Vec<u8>,
        sequence: u64,
    },
}

/// What a light client checks of a channel end on the counterparty: that it
/// holds `expected_counterparty_channel_end` under its channel path.
#[derive(Debug)]
pub struct VerifyChannelState {
    pub proof_height: String,
    pub counterparty_prefix: Vec<u8>,
    pub proof: Vec<u8>,
    pub root: Vec<u8>,
    pub counterparty_chan_end_path: Vec<u8>,
    /// The protobuf encoding of the channel end that the counterparty must hold.
    pub expected_counterparty_channel_end: Vec<u8>,
    pub client_id: String,
}

/// The request that shows a packet was not received on the counterparty: the
/// next sequence to receive there (ordered channels) or the absence of a
/// receipt (other channels), at the proof height.
pub open spec fn unreceived_payload_matches(
    v: LightClientPacketMessage,
    ordering: Order,
    p: PacketView,
    proof_height: Height,
    proof: Seq<u8>,
    conn: ConnectionEndView,
    root: Seq<u8>,
) -> bool {
    if ordering == Order::Ordered {
        v matches LightClientPacketMessage::VerifyNextSequenceRecv { height, prefix, proof: pr, root: rt, seq_recv_path, sequence }
            && height@ == height_text(proof_height) && prefix@ == conn.counterparty.prefix && pr@ == proof
            && rt@ == root && seq_recv_path@ == next_seq_recv_path_spec(p.destination_port, p.destination_channel)
            && sequence == p.sequence
    } else {
        v matches LightClientPacketMessage::VerifyPacketReceiptAbsence { height, prefix, proof: pr, root: rt, receipt_path }
            && height@ == height_text(proof_height) && prefix@ == conn.counterparty.prefix && pr@ == proof
            && rt@ == root && receipt_path@ == receipt_path_spec(p.destination_port, p.destination_channel, p.sequence)
    }
}

/// Builds the request of [`unreceived_payload_matches`].
pub fn unreceived_payload(ordering: Order, packet: &Packet, proof_height: &Height, proof: &Vec<u8>, prefix: &Vec<u8>, root: &Vec<u8>) -> (r: LightClientPacketMessage)
    ensures
        forall|conn: ConnectionEndView| conn.counterparty.prefix == prefix@ ==> unreceived_payload_matches(r, ordering, packet@, *proof_height, proof@, conn, root@),
{
    if ordering == Order::Ordered {
        LightClientPacketMessage::VerifyNextSequenceRecv {
            height: height_to_string(proof_height),
            prefix: crate::encoding::copy_bytes(prefix.as_slice()),
            proof: crate::encoding::copy_bytes(proof.as_slice()),
            root: crate::encoding::copy_bytes(root.as_slice()),
            seq_recv_path: crate::ics24_host::commitment::next_seq_recv_commitment_path(&packet.destination_port, &packet.destination_channel),
            sequence: packet.sequence,
        }
    } else {
        LightClientPacketMessage::VerifyPacketReceiptAbsence {
            height: height_to_string(proof_height),
            prefix: crate::encoding::copy_bytes(prefix.as_slice()),
            proof: crate::encoding::copy_bytes(proof.as_slice()),
            root: crate::encoding::copy_bytes(root.as_slice()),
            receipt_path: crate::ics24_host::commitment::receipt_commitment_path(&packet.destination_port, &packet.destination_channel, packet.sequence),
        }
    }
}

/// The packet that a raw one gives, where the host reads it.
pub open spec fn packet_of(p: RawPacket) -> PacketView {
    PacketView {
        sequence: p.sequence,
        source_port: p.source_port@,
        source_channel: p.source_channel@,
        destination_port: p.destination_port@,
        destination_channel: p.destination_channel@,
        data: p.data@,
        timeout_height: timeout_height_of(p.timeout_height).unwrap(),
        timeout_timestamp: p.timeout_timestamp,
    }
}

/// Whether `r` is how a packet message with packet `p` and proof height `h`
/// is read, given what the rest of the message gives once read (`rest`): the
/// packet first, then the proof height.
pub open spec fn packet_message_read<M>(p: RawPacket, h: Option<RawHeight>, r: Result<M, ContractError>, rest: spec_fn(M) -> bool) -> bool {
    if !packet_readable(p) {
        r matches Err(e) && packet_error(p, e)
    } else if height_of(h) is None {
        r == Err::<M, ContractError>(height_error(h))
    } else {
        r matches Ok(m) && rest(m)
    }
}

/// A request to receive a packet as relayers encode it.
#[derive(Debug)]
pub struct RawMsgRecvPacket {
    pub packet: Option<RawPacket>,
    pub proof_commitment: Vec<u8>,
    pub proof_height: Option<RawHeight>,
    pub signer: String,
}

/// An acknowledgement as relayers encode it.
#[derive(Debug)]
pub struct RawMsgAcknowledgement {
    pub packet: Option<RawPacket>,
    pub acknowledgement: Vec<u8>,
    pub proof_acked: Vec<u8>,
    pub proof_height: Option<RawHeight>,
    pub signer: String,
}

/// A timeout as relayers encode it.
#[derive(Debug)]
pub struct RawMsgTimeout {
    pub packet: Option<RawPacket>,
    pub proof_unreceived: Vec<u8>,
    pub proof_height: Option<RawHeight>,
    pub next_sequence_recv: u64,
    pub signer: String,
}

/// A timeout on close as relayers encode it.
#[derive(Debug)]
pub struct RawMsgTimeoutOnClose {
    pub packet: Option<RawPacket>,
    pub proof_unreceived: Vec<u8>,
    pub proof_close: Vec<u8>,
    pub proof_height: Option<RawHeight>,
    pub next_sequence_recv: u64,
    pub signer: String,
}

impl MsgRecvPacket {
    /// The message that a relayer sent, which must carry a packet: the packet,
    /// then the proof height, must be accepted.
    pub fn from_raw(raw: RawMsgRecvPacket) -> (r: Result<MsgRecvPacket, ContractError>)
        requires
            raw.packet is Some,
        ensures
            packet_message_read(raw.packet.unwrap(), raw.proof_height, r, |m: MsgRecvPacket|
                m.packet@ == packet_of(raw.packet.unwrap()) && m.proof_commitment@ == raw.proof_commitment@
                    && Some(m.proof_height) == height_of(raw.proof_height) && m.signer@ == raw.signer@),
    {
        let RawMsgRecvPacket { packet, proof_commitment, proof_height, signer } = raw;
        let packet = Packet::from_raw(packet.unwrap())?;
        let proof_height = to_ibc_height(proof_height)?;
        Ok(MsgRecvPacket { packet, proof_commitment, proof_height, signer })
    }
}

impl MsgAcknowledgement {
    /// The message that a relayer sent, which must carry a packet: the packet,
    /// then the proof height, must be accepted.
    pub fn from_raw(raw: RawMsgAcknowledgement) -> (r: Result<MsgAcknowledgement, ContractError>)
        requires
            raw.packet is Some,
        ensures
            packet_message_read(raw.packet.unwrap(), raw.proof_height, r, |m: MsgAcknowledgement|
                m.packet@ == packet_of(raw.packet.unwrap()) && m.acknowledgement@ == raw.acknowledgement@
                    && m.proof_acked@ == raw.proof_acked@ && Some(m.proof_height) == height_of(raw.proof_height)
                    && m.signer@ == raw.signer@),
    {
        let RawMsgAcknowledgement { packet, acknowledgement, proof_acked, proof_height, signer } = raw;
        let packet = Packet::from_raw(packet.unwrap())?;
        let proof_height = to_ibc_height(proof_height)?;
        Ok(MsgAcknowledgement { packet, acknowledgement, proof_acked, proof_height, signer })
    }
}

impl MsgTimeout {
    /// The message that a relayer sent, which must carry a packet: the packet,
    /// then the proof height, must be accepted.
    pub fn from_raw(raw: RawMsgTimeout) -> (r: Result<MsgTimeout, ContractError>)
        requires
            raw.packet is Some,
        ensures
            packet_message_read(raw.packet.unwrap(), raw.proof_height, r, |m: MsgTimeout|
                m.packet@ == packet_of(raw.packet.unwrap()) && m.next_sequence_recv == raw.next_sequence_recv
                    && m.proof_unreceived@ == raw.proof_unreceived@ && Some(m.proof_height) == height_of(raw.proof_height)
                    && m.signer@ == raw.signer@),
    {
        let RawMsgTimeout { packet, proof_unreceived, proof_height, next_sequence_recv, signer } = raw;
        let packet = Packet::from_raw(packet.unwrap())?;
        let proof_height = to_ibc_height(proof_height)?;
        Ok(MsgTimeout { packet, next_sequence_recv, proof_unreceived, proof_height, signer })
    }
}

impl MsgTimeoutOnClose {
    /// The message that a relayer sent, which must carry a packet: the packet,
    /// then the proof height, must be accepted.
    pub fn from_raw(raw: RawMsgTimeoutOnClose) -> (r: Result<MsgTimeoutOnClose, ContractError>)
        requires
            raw.packet is Some,
        ensures
            packet_message_read(raw.packet.unwrap(), raw.proof_height, r, |m: MsgTimeoutOnClose|
                m.packet@ == packet_of(raw.packet.unwrap()) && m.next_sequence_recv == raw.next_sequence_recv
                    && m.proof_unreceived@ == raw.proof_unreceived@ && m.proof_close@ == raw.proof_close@
                    && Some(m.proof_height) == height_of(raw.proof_height) && m.signer@ == raw.signer@),
    {
        let RawMsgTimeoutOnClose { packet, proof_unreceived, proof_close, proof_height, next_sequence_recv, signer } = raw;
        let packet = Packet::from_raw(packet.unwrap())?;
        let proof_height = to_ibc_height(proof_height)?;
        Ok(MsgTimeoutOnClose { packet, next_sequence_recv, proof_unreceived, proof_close, proof_height, signer })
    }
}

} // verus!
