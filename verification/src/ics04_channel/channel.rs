//! Channel ends, channel counters, sequence counters and the packet
//! commitments, receipts and acknowledgements kept under their paths.
use vstd::prelude::*;

use crate::context::CwIbcCoreContext;
use crate::error::{decode_error, not_found, ChannelError, ContractError, PacketError, StdError};
use crate::ibc_types::{order_number, order_of_number, state_number, state_of_number, ChannelEnd, ChannelEndView, CounterpartyView, Order, State};
use crate::ics03_connection::connection::optional_text;
use crate::proto::{bytes_field, len_field, lemma_repeated_field_push, push_bytes_field, push_len_field, push_varint_field, read_bytes_field, read_repeated_field, read_varint_field, repeated_field, varint_field};
use vstd::utf8::{decode_utf8, encode_utf8};
use crate::ics24_host::commitment::{
    ack_path_spec, acknowledgement_commitment_path, packet_commitment_path,
    packet_commitment_path_spec, receipt_commitment_path, receipt_path_spec,
};
use crate::state::StoreView;
use crate::store::KeyLike;
use crate::types::{ChannelId, PortId};

verus! {

/// What a receipt holds: the text `true`.
pub open spec fn receipt_ok_bytes() -> Seq<u8> {
    seq![116u8, 114u8, 117u8, 101u8]
}

/// The message `ibc.core.channel.v1.Counterparty`: the port (field 1) and the
/// channel (field 2).
pub open spec fn channel_counterparty_encoding(c: CounterpartyView) -> Seq<u8> {
    bytes_field(10, encode_utf8(c.port_id)) + bytes_field(18, encode_utf8(optional_text(c.channel_id)))
}

/// The protobuf encoding of a channel end, the message
/// `ibc.core.channel.v1.Channel` as prost writes it: the state (field 1), the
/// ordering (field 2), the counterparty (field 3), each connection hop (field
/// 4) and the version (field 5), in that order, with empty strings and zero
/// numbers left out.
pub open spec fn channel_end_encoding(end: ChannelEndView) -> Seq<u8> {
    varint_field(8, state_number(end.state) as nat)
        + varint_field(16, order_number(end.ordering) as nat)
        + len_field(26, channel_counterparty_encoding(end.remote))
        + repeated_field(34, end.connection_hops.map_values(|h: Seq<char>| encode_utf8(h)))
        + bytes_field(42, encode_utf8(end.version))
}

/// Reads a channel `Counterparty` message.
pub open spec fn read_channel_counterparty(b: Seq<u8>) -> CounterpartyView {
    let (port, k1) = read_bytes_field(10, b);
    let (channel, _) = read_bytes_field(18, b.subrange(k1 as int, b.len() as int));
    CounterpartyView {
        port_id: decode_utf8(port),
        channel_id: if channel.len() == 0 { None } else { Some(decode_utf8(channel)) },
    }
}

/// Reads a `Channel` message.
pub open spec fn read_channel_end(s: Seq<u8>) -> ChannelEndView {
    let (state, k1) = read_varint_field(8, s);
    let s1 = s.subrange(k1 as int, s.len() as int);
    let (ordering, k2) = read_varint_field(16, s1);
    let s2 = s1.subrange(k2 as int, s1.len() as int);
    let (counterparty, k3) = read_bytes_field(26, s2);
    let s3 = s2.subrange(k3 as int, s2.len() as int);
    let (hops, k4) = read_repeated_field(34, s3);
    let s4 = s3.subrange(k4 as int, s3.len() as int);
    let (version, _) = read_bytes_field(42, s4);
    ChannelEndView {
        state: match state_of_number(state as i32) { Some(x) => x, None => State::Uninitialized },
        ordering: match order_of_number(ordering as i32) { Some(x) => x, None => Order::NoOrder },
        remote: read_channel_counterparty(counterparty),
        connection_hops: hops.map_values(|h: Seq<u8>| decode_utf8(h)),
        version: decode_utf8(version),
    }
}

/// Encodes `end` as the protobuf message `ibc.core.channel.v1.Channel`.
pub(crate) fn encode_channel_end(end: &ChannelEnd) -> (r: Vec<u8>)
    ensures
        r@ == channel_end_encoding(end@),
{
    let mut out: Vec<u8> = Vec::new();
    push_varint_field(&mut out, 8, end.state.proto_number() as u64);
    push_varint_field(&mut out, 16, end.ordering.proto_number() as u64);
    let mut counterparty: Vec<u8> = Vec::new();
    push_bytes_field(&mut counterparty, 10, end.remote.port_id.as_str().as_bytes());
    let channel = end.remote.channel_id_text();
    push_bytes_field(&mut counterparty, 18, channel.as_str().as_bytes());
    assert(counterparty@ =~= channel_counterparty_encoding(end.remote@));
    push_len_field(&mut out, 26, counterparty.as_slice());
    let ghost head = out@;
    let ghost bodies = end@.connection_hops.map_values(|h: Seq<char>| encode_utf8(h));
    let mut i: usize = 0;
    while i < end.connection_hops.len()
        invariant
            i <= end.connection_hops.len(),
            bodies == end@.connection_hops.map_values(|h: Seq<char>| encode_utf8(h)),
            end@.connection_hops.len() == end.connection_hops.len(),
            forall|j: int| 0 <= j < end.connection_hops.len() ==> #[trigger] end@.connection_hops[j] == end.connection_hops@[j]@,
            out@ == head + repeated_field(34, bodies.take(i as int)),
        decreases end.connection_hops.len() - i,
    {
        push_len_field(&mut out, 34, end.connection_hops[i].as_str().as_bytes());
        proof {
            assert(bodies[i as int] == encode_utf8(end.connection_hops@[i as int]@));
            assert(bodies.take(i + 1) =~= bodies.take(i as int).push(bodies[i as int]));
            lemma_repeated_field_push(34, bodies.take(i as int), bodies[i as int]);
            assert(out@ =~= head + repeated_field(34, bodies.take(i + 1)));
        }
        i = i + 1;
    }
    proof {
        assert(bodies.take(i as int) =~= bodies);
    }
    push_bytes_field(&mut out, 42, end.version.as_str().as_bytes());
    assert(out@ =~= channel_end_encoding(end@));
    out
}

impl CwIbcCoreContext {
    /// The channel end of `port_id` / `channel_id`.
    pub fn get_channel_end(&self, port_id: &PortId, channel_id: &ChannelId) -> (r: Result<ChannelEnd, ContractError>)
        ensures
            match r {
                Ok(c) => self@.store.channels.contains_key((port_id@, channel_id@)) && c@ == self@.store.channels[(port_id@, channel_id@)],
                Err(e) => !self@.store.channels.contains_key((port_id@, channel_id@)) && (e matches ContractError::IbcChannelError {
                    error: ChannelError::ChannelNotFound { port_id: p, channel_id: c },
                } && p@ == port_id@ && c@ == channel_id@),
            },
    {
        let key = (port_id.duplicate(), channel_id.duplicate());
        match self.store.channels.get(&key) {
            Some(c) => Ok(c.duplicate()),
            None => Err(ContractError::IbcChannelError {
                error: ChannelError::ChannelNotFound { port_id: port_id.duplicate(), channel_id: channel_id.duplicate() },
            }),
        }
    }

    /// Stores the channel end of `port_id` / `channel_id`.
    pub fn store_channel_end(&mut self, port_id: &PortId, channel_id: &ChannelId, channel_end: ChannelEnd) -> (r: Result<(), ContractError>)
        ensures
            r is Ok,
            final(self)@ == old(self)@.with_store(
                StoreView {
                    channels: old(self)@.store.channels.insert((port_id@, channel_id@), channel_end@),
                    ..old(self)@.store
                },
            ),
    {
        self.store.channels.insert((port_id.duplicate(), channel_id.duplicate()), channel_end);
        Ok(())
    }

    /// Adds one to the channel counter and returns the new value.
    pub fn increase_channel_sequence(&mut self) -> (r: Result<u64, ContractError>)
        requires
            old(self)@.store.next_channel_sequence matches Some(n) ==> n < u64::MAX,
        ensures
            match old(self)@.store.next_channel_sequence {
                Some(n) => r == Ok::<u64, ContractError>((n + 1) as u64) && final(self)@
                    == old(self)@.with_store(
                    StoreView { next_channel_sequence: Some((n + 1) as u64), ..old(self)@.store },
                ),
                None => final(self)@ == old(self)@ && (r matches Err(e) && not_found(e, "u64"@)),
            },
    {
        match self.store.next_channel_sequence {
            Some(n) => {
                self.store.next_channel_sequence = Some(n + 1);
                Ok(n + 1)
            },
            None => Err(ContractError::Std(StdError::NotFound { kind: String::from_str("u64") })),
        }
    }

    /// Sets the channel counter to `sequence_no`.
    pub fn init_channel_counter(&mut self, sequence_no: u64) -> (r: Result<(), ContractError>)
        ensures
            r is Ok,
            final(self)@ == old(self)@.with_store(
                StoreView { next_channel_sequence: Some(sequence_no), ..old(self)@.store },
            ),
    {
        self.store.next_channel_sequence = Some(sequence_no);
        Ok(())
    }

    /// The channel counter.
    pub fn channel_counter(&self) -> (r: Result<u64, ContractError>)
        ensures
            match self@.store.next_channel_sequence {
                Some(n) => r == Ok::<u64, ContractError>(n),
                None => r matches Err(e) && not_found(e, "u64"@),
            },
    {
        match self.store.next_channel_sequence {
            Some(n) => Ok(n),
            None => Err(ContractError::Std(StdError::NotFound { kind: String::from_str("u64") })),
        }
    }

    /// The next sequence to send on `port_id` / `channel_id`.
    pub fn get_next_sequence_send(&self, port_id: &PortId, channel_id: &ChannelId) -> (r: Result<u64, ContractError>)
        ensures
            match self@.store.next_sequence_send.get((port_id@, channel_id@)) {
                Some(n) => r == Ok::<u64, ContractError>(n),
                None => r matches Err(e) && not_found(e, "sequence"@),
            },
    {
        match self.store.next_sequence_send.get(&(port_id.duplicate(), channel_id.duplicate())) {
            Some(n) => Ok(*n),
            None => Err(ContractError::Std(StdError::NotFound { kind: String::from_str("sequence") })),
        }
    }

    /// Sets the next sequence to send on `port_id` / `channel_id`.
    pub fn store_next_sequence_send(&mut self, port_id: &PortId, channel_id: &ChannelId, sequence: u64) -> (r: Result<(), ContractError>)
        ensures
            r is Ok,
            final(self)@ == old(self)@.with_store(
                StoreView {
                    next_sequence_send: old(self)@.store.next_sequence_send.insert((port_id@, channel_id@), sequence),
                    ..old(self)@.store
                },
            ),
    {
        self.store.next_sequence_send.insert((port_id.duplicate(), channel_id.duplicate()), sequence);
        Ok(())
    }

    /// Records the host height at which packet `sequence` of `port_id` /
    /// `channel_id` was sent; zero once it is acknowledged.
    pub fn store_sent_packet(&mut self, port_id: &PortId, channel_id: &ChannelId, sequence: u64, height: u64) -> (r: Result<(), ContractError>)
        ensures
            r is Ok,
            final(self)@ == old(self)@.with_store(
                StoreView {
                    packet_receipts: old(self)@.store.packet_receipts.insert((port_id@, channel_id@, sequence), height),
                    ..old(self)@.store
                },
            ),
    {
        self.store.packet_receipts.insert((port_id.duplicate(), channel_id.duplicate(), sequence), height);
        Ok(())
    }

    /// Adds one to the next sequence to send and returns the new value.
    pub fn increase_next_sequence_send(&mut self, port_id: &PortId, channel_id: &ChannelId) -> (r: Result<u64, ContractError>)
        requires
            old(self)@.store.next_sequence_send.get((port_id@, channel_id@)) matches Some(n) ==> n < u64::MAX,
        ensures
            match old(self)@.store.next_sequence_send.get((port_id@, channel_id@)) {
                Some(n) => r == Ok::<u64, ContractError>((n + 1) as u64) && final(self)@ == old(self)@.with_store(
                    StoreView {
                        next_sequence_send: old(self)@.store.next_sequence_send.insert((port_id@, channel_id@), (n + 1) as u64),
                        ..old(self)@.store
                    },
                ),
                None => final(self)@ == old(self)@ && (r matches Err(ContractError::IbcPacketError {
                    error: PacketError::MissingNextSendSeq { port_id: p, channel_id: c },
                }) && p@ == port_id@ && c@ == channel_id@),
            },
    {
        let key = (port_id.duplicate(), channel_id.duplicate());
        match self.store.next_sequence_send.get(&key) {
            Some(n) => {
                let next = *n + 1;
                self.store.next_sequence_send.insert(key, next);
                Ok(next)
            },
            None => Err(ContractError::IbcPacketError {
                error: PacketError::MissingNextSendSeq { port_id: port_id.duplicate(), channel_id: channel_id.duplicate() },
            }),
        }
    }

    /// The next sequence to receive on `port_id` / `channel_id`.
    pub fn get_next_sequence_recv(&self, port_id: &PortId, channel_id: &ChannelId) -> (r: Result<u64, ContractError>)
        ensures
            match self@.store.next_sequence_recv.get((port_id@, channel_id@)) {
                Some(n) => r == Ok::<u64, ContractError>(n),
                None => r matches Err(e) && not_found(e, "sequence"@),
            },
    {
        match self.store.next_sequence_recv.get(&(port_id.duplicate(), channel_id.duplicate())) {
            Some(n) => Ok(*n),
            None => Err(ContractError::Std(StdError::NotFound { kind: String::from_str("sequence") })),
        }
    }

    /// Sets the next sequence to receive on `port_id` / `channel_id`.
    pub fn store_next_sequence_recv(&mut self, port_id: &PortId, channel_id: &ChannelId, sequence: u64) -> (r: Result<(), ContractError>)
        ensures
            r is Ok,
            final(self)@ == old(self)@.with_store(
                StoreView {
                    next_sequence_recv: old(self)@.store.next_sequence_recv.insert((port_id@, channel_id@), sequence),
                    ..old(self)@.store
                },
            ),
    {
        self.store.next_sequence_recv.insert((port_id.duplicate(), channel_id.duplicate()), sequence);
        Ok(())
    }

    /// Adds one to the next sequence to receive and returns the new value.
    pub fn increase_next_sequence_recv(&mut self, port_id: &PortId, channel_id: &ChannelId) -> (r: Result<u64, ContractError>)
        requires
            old(self)@.store.next_sequence_recv.get((port_id@, channel_id@)) matches Some(n) ==> n < u64::MAX,
        ensures
            match old(self)@.store.next_sequence_recv.get((port_id@, channel_id@)) {
                Some(n) => r == Ok::<u64, ContractError>((n + 1) as u64) && final(self)@ == old(self)@.with_store(
                    StoreView {
                        next_sequence_recv: old(self)@.store.next_sequence_recv.insert((port_id@, channel_id@), (n + 1) as u64),
                        ..old(self)@.store
                    },
                ),
                None => final(self)@ == old(self)@ && (r matches Err(ContractError::IbcPacketError {
                    error: PacketError::MissingNextRecvSeq { port_id: p, channel_id: c },
                }) && p@ == port_id@ && c@ == channel_id@),
            },
    {
        let key = (port_id.duplicate(), channel_id.duplicate());
        match self.store.next_sequence_recv.get(&key) {
            Some(n) => {
                let next = *n + 1;
                self.store.next_sequence_recv.insert(key, next);
                Ok(next)
            },
            None => Err(ContractError::IbcPacketError {
                error: PacketError::MissingNextRecvSeq { port_id: port_id.duplicate(), channel_id: channel_id.duplicate() },
            }),
        }
    }

    /// The next sequence to acknowledge on `port_id` / `channel_id`.
    pub fn get_next_sequence_ack(&self, port_id: &PortId, channel_id: &ChannelId) -> (r: Result<u64, ContractError>)
        ensures
            match self@.store.next_sequence_ack.get((port_id@, channel_id@)) {
                Some(n) => r == Ok::<u64, ContractError>(n),
                None => r matches Err(e) && not_found(e, "sequence"@),
            },
    {
        match self.store.next_sequence_ack.get(&(port_id.duplicate(), channel_id.duplicate())) {
            Some(n) => Ok(*n),
            None => Err(ContractError::Std(StdError::NotFound { kind: String::from_str("sequence") })),
        }
    }

    /// Sets the next sequence to acknowledge on `port_id` / `channel_id`.
    pub fn store_next_sequence_ack(&mut self, port_id: &PortId, channel_id: &ChannelId, sequence: u64) -> (r: Result<(), ContractError>)
        ensures
            r is Ok,
            final(self)@ == old(self)@.with_store(
                StoreView {
                    next_sequence_ack: old(self)@.store.next_sequence_ack.insert((port_id@, channel_id@), sequence),
                    ..old(self)@.store
                },
            ),
    {
        self.store.next_sequence_ack.insert((port_id.duplicate(), channel_id.duplicate()), sequence);
        Ok(())
    }

    /// Adds one to the next sequence to acknowledge and returns the new value.
    pub fn increase_next_sequence_ack(&mut self, port_id: &PortId, channel_id: &ChannelId) -> (r: Result<u64, ContractError>)
        requires
            old(self)@.store.next_sequence_ack.get((port_id@, channel_id@)) matches Some(n) ==> n < u64::MAX,
        ensures
            match old(self)@.store.next_sequence_ack.get((port_id@, channel_id@)) {
                Some(n) => r == Ok::<u64, ContractError>((n + 1) as u64) && final(self)@ == old(self)@.with_store(
                    StoreView {
                        next_sequence_ack: old(self)@.store.next_sequence_ack.insert((port_id@, channel_id@), (n + 1) as u64),
                        ..old(self)@.store
                    },
                ),
                None => final(self)@ == old(self)@ && (r matches Err(ContractError::IbcPacketError {
                    error: PacketError::MissingNextAckSeq { port_id: p, channel_id: c },
                }) && p@ == port_id@ && c@ == channel_id@),
            },
    {
        let key = (port_id.duplicate(), channel_id.duplicate());
        match self.store.next_sequence_ack.get(&key) {
            Some(n) => {
                let next = *n + 1;
                self.store.next_sequence_ack.insert(key, next);
                Ok(next)
            },
            None => Err(ContractError::IbcPacketError {
                error: PacketError::MissingNextAckSeq { port_id: port_id.duplicate(), channel_id: channel_id.duplicate() },
            }),
        }
    }

    /// Keeps the commitment to packet `sequence` of `port_id` / `channel_id`.
    pub fn store_packet_commitment(&mut self, port_id: &PortId, channel_id: &ChannelId, sequence: u64, commitment: Vec<u8>) -> (r: Result<(), ContractError>)
        ensures
            r is Ok,
            final(self)@ == old(self)@.with_store(
                StoreView {
                    commitments: old(self)@.store.commitments.insert(packet_commitment_path_spec(port_id@, channel_id@, sequence), commitment@),
                    ..old(self)@.store
                },
            ),
    {
        let path = packet_commitment_path(port_id, channel_id, sequence);
        self.store.commitments.insert(path, commitment);
        Ok(())
    }

    /// Forgets the commitment to packet `sequence` of `port_id` / `channel_id`.
    pub fn delete_packet_commitment(&mut self, port_id: &PortId, channel_id: &ChannelId, sequence: u64) -> (r: Result<(), ContractError>)
        ensures
            r is Ok,
            final(self)@ == old(self)@.with_store(
                StoreView {
                    commitments: old(self)@.store.commitments.remove(packet_commitment_path_spec(port_id@, channel_id@, sequence)),
                    ..old(self)@.store
                },
            ),
    {
        let path = packet_commitment_path(port_id, channel_id, sequence);
        self.store.commitments.remove(&path);
        Ok(())
    }

    /// The commitment to packet `sequence` of `port_id` / `channel_id`.
    pub fn get_packet_commitment(&self, port_id: &PortId, channel_id: &ChannelId, sequence: u64) -> (r: Result<Vec<u8>, ContractError>)
        ensures
            match self@.store.commitments.get(packet_commitment_path_spec(port_id@, channel_id@, sequence)) {
                Some(c) => r matches Ok(v) && v@ == c,
                None => r matches Err(e) && decode_error(e, "PacketCommitmentNotFound"@),
            },
    {
        let path = packet_commitment_path(port_id, channel_id, sequence);
        match self.store.commitments.get(&path) {
            Some(c) => Ok(crate::encoding::copy_bytes(c.as_slice())),
            None => Err(ContractError::IbcDecodeError { error: String::from_str("PacketCommitmentNotFound") }),
        }
    }

    /// Records that packet `sequence` of `port_id` / `channel_id` was received.
    pub fn store_packet_receipt(&mut self, port_id: &PortId, channel_id: &ChannelId, sequence: u64) -> (r: Result<(), ContractError>)
        ensures
            r is Ok,
            final(self)@ == old(self)@.with_store(
                StoreView {
                    commitments: old(self)@.store.commitments.insert(receipt_path_spec(port_id@, channel_id@, sequence), receipt_ok_bytes()),
                    ..old(self)@.store
                },
            ),
    {
        let path = receipt_commitment_path(port_id, channel_id, sequence);
        let ok: Vec<u8> = vec![116u8, 114u8, 117u8, 101u8];
        assert(ok@ =~= receipt_ok_bytes());
        self.store.commitments.insert(path, ok);
        Ok(())
    }

    /// Succeeds when packet `sequence` of `port_id` / `channel_id` has a receipt.
    pub fn get_packet_receipt(&self, port_id: &PortId, channel_id: &ChannelId, sequence: u64) -> (r: Result<(), ContractError>)
        ensures
            match self@.store.commitments.get(receipt_path_spec(port_id@, channel_id@, sequence)) {
                Some(c) => if c == receipt_ok_bytes() {
                    r is Ok
                } else {
                    r == Err::<(), ContractError>(ContractError::IbcPacketError { error: PacketError::PacketReceiptNotFound { sequence } })
                },
                None => r matches Err(e) && decode_error(e, "PacketCommitmentNotFound"@),
            },
    {
        let path = receipt_commitment_path(port_id, channel_id, sequence);
        let ok: Vec<u8> = vec![116u8, 114u8, 117u8, 101u8];
        assert(ok@ =~= receipt_ok_bytes());
        match self.store.commitments.get(&path) {
            Some(c) => {
                if crate::encoding::bytes_eq(c.as_slice(), ok.as_slice()) {
                    Ok(())
                } else {
                    Err(ContractError::IbcPacketError { error: PacketError::PacketReceiptNotFound { sequence } })
                }
            },
            None => Err(ContractError::IbcDecodeError { error: String::from_str("PacketCommitmentNotFound") }),
        }
    }

    /// Keeps the commitment to the acknowledgement of packet `sequence`.
    pub fn store_packet_acknowledgement(&mut self, port_id: &PortId, channel_id: &ChannelId, sequence: u64, ack_commitment: Vec<u8>) -> (r: Result<(), ContractError>)
        ensures
            r is Ok,
            final(self)@ == old(self)@.with_store(
                StoreView {
                    commitments: old(self)@.store.commitments.insert(ack_path_spec(port_id@, channel_id@, sequence), ack_commitment@),
                    ..old(self)@.store
                },
            ),
    {
        let path = acknowledgement_commitment_path(port_id, channel_id, sequence);
        self.store.commitments.insert(path, ack_commitment);
        Ok(())
    }

    /// The commitment to the acknowledgement of packet `sequence`.
    pub fn get_packet_acknowledgement(&self, port_id: &PortId, channel_id: &ChannelId, sequence: u64) -> (r: Result<Vec<u8>, ContractError>)
        ensures
            match self@.store.commitments.get(ack_path_spec(port_id@, channel_id@, sequence)) {
                Some(c) => r matches Ok(v) && v@ == c,
                None => r matches Err(e) && decode_error(e, "PacketCommitmentNotFound"@),
            },
    {
        let path = acknowledgement_commitment_path(port_id, channel_id, sequence);
        match self.store.commitments.get(&path) {
            Some(c) => Ok(crate::encoding::copy_bytes(c.as_slice())),
            None => Err(ContractError::IbcDecodeError { error: String::from_str("PacketCommitmentNotFound") }),
        }
    }
}

} // verus!
