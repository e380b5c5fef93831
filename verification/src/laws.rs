//! Properties that hold across the host's operations.
use vstd::prelude::*;

use crate::context::ContextView;
use crate::encoding::{decimal, digit_char};
use crate::conversions::{channel_of, RawChannelView};
use crate::ibc_types::{order_number, order_of_number, state_number, state_of_number, ConnectionState, Order, State};
use crate::encoding::{hex_text, keccak256_digest};
use crate::ibc_types::strings_view;
use crate::ics03_connection::conn_types::{MsgConnectionOpenAck, MsgConnectionOpenConfirm};
use crate::ics03_connection::connection::{connection_end_encoding, with_connection_commitment};
use crate::ics03_connection::handler::{next_connection_id, open_ack_step, open_confirm_step, try_open_counterparties_known, OpenAckStep, OpenConfirmStep};
use crate::ics04_channel::channel::receipt_ok_bytes;
use crate::ics24_host::commitment::{ack_path_spec, connection_path_spec, packet_commitment_path_spec, packet_commitment_spec, port_channel_suffix};
use crate::query::{channel_ids_valid, query_outcome, QueryAnswer, QueryMsg, QueryOutcome};
use crate::ics04_channel::handler::{chan_open_init_step, chan_open_try_step, next_channel_id, with_channel_state, with_new_channel};
use crate::ics04_channel::packet::acknowledgement::{ack_effect, ack_step, AckStep};
use crate::ics04_channel::packet::packet_types::{ClientFacts, PacketView};
use crate::ics04_channel::packet::receive_packet::{already_received, channels_have_hops, recv_effect, recv_step, RecvStep};
use crate::ics04_channel::packet::send_packet::{send_effect, send_step, SendStep};
use crate::ics04_channel::packet::timeout::{timeout_effect, timeout_step};
use crate::ibc_types::{ChannelEndView, ConnectionCounterpartyView, ConnectionEndView, Height};
use crate::state::{same_in_namespace, with_namespace, StoreView};
use crate::storage_keys::{law_storage_keys_distinct, storage_key_name, StorageKey};
use crate::ics04_channel::channel::{channel_counterparty_encoding, channel_end_encoding, read_channel_counterparty, read_channel_end};
use crate::ics04_channel::handler::{channel_payload_matches, expected_init_end, expected_remote_end, ChanOpenTryStep};
use crate::ics04_channel::packet::packet_types::{unreceived_payload_matches, ConsensusFacts, LightClientPacketMessage, MsgAcknowledgement, MsgRecvPacket, VerifyChannelState, VerifyPacketAcknowledgement, VerifyPacketData};
use crate::ics04_channel::packet::acknowledgement::ack_payload_matches;
use crate::ics04_channel::packet::receive_packet::recv_payload_matches;
use crate::ibc_types::{CounterpartyView, VersionView};
use crate::ics03_connection::connection::{connection_counterparty_encoding, connection_state_number, connection_state_of, optional_text, read_connection_counterparty, read_connection_end, read_version, version_encoding};
use crate::proto::{bytes_field, len_field, read_bytes_field, read_repeated_field, read_varint_field, lemma_read_bytes_field, lemma_read_len_field, lemma_read_repeated_field, lemma_read_varint_field, not_next, repeated_field, varint_field};
use vstd::utf8::{decode_utf8, encode_utf8, encode_utf8_decode_utf8};
use crate::types::{ascii_identifier, channel_id_parses, channel_prefix, connection_id_parses, connection_prefix, is_ascii_alnum, numbered_id};

verus! {

proof fn lemma_decimal_nonempty(n: nat)
    ensures
        decimal(n).len() >= 1,
        n >= 10 ==> decimal(n).len() >= 2,
    decreases n,
{
    if n >= 10 {
        lemma_decimal_nonempty(n / 10);
    }
}

/// Ten to the power `k`.
pub open spec fn ten_pow(k: nat) -> nat
    decreases k,
{
    if k == 0 {
        1
    } else {
        10 * ten_pow((k - 1) as nat)
    }
}

/// A number below ten to the `k` has a numeral of at most `k` digits.
proof fn lemma_decimal_digits(n: nat, k: nat)
    requires
        1 <= k,
        n < ten_pow(k),
    ensures
        1 <= decimal(n).len() <= k,
        forall|i: int| 0 <= i < decimal(n).len() ==> '0' <= #[trigger] decimal(n)[i] <= '9',
    decreases n,
{
    if n < 10 {
        assert((48 + n) as char as int == 48 + n);
    } else {
        assert(k >= 2) by {
            if k == 1 {
                assert(ten_pow(1) == 10) by {
                    reveal_with_fuel(ten_pow, 2);
                }
            }
        }
        assert(n / 10 < ten_pow((k - 1) as nat)) by (nonlinear_arith)
            requires
                n < 10 * ten_pow((k - 1) as nat),
        ;
        lemma_decimal_digits(n / 10, (k - 1) as nat);
        assert((48 + n % 10) as char as int == 48 + n % 10);
        let d = decimal(n);
        assert(d == decimal(n / 10).push(digit_char(n % 10)));
        assert forall|i: int| 0 <= i < d.len() implies '0' <= #[trigger] d[i] <= '9' by {
            if i < d.len() - 1 {
                assert(d[i] == decimal(n / 10)[i]);
            }
        }
    }
}

/// `prefix-n`, for a prefix of lower-case letters, is an ASCII identifier of
/// between `prefix.len() + 2` and `prefix.len() + 21` characters.
proof fn lemma_numbered_id_ascii(prefix: Seq<char>, n: u64)
    requires
        forall|i: int| 0 <= i < prefix.len() ==> 'a' <= #[trigger] prefix[i] <= 'z',
    ensures
        ascii_identifier(numbered_id(prefix, n as nat), prefix.len() + 2, prefix.len() + 21),
{
    assert(ten_pow(20) == 100000000000000000000) by {
        reveal_with_fuel(ten_pow, 21);
    }
    lemma_decimal_digits(n as nat, 20);
    let s = numbered_id(prefix, n as nat);
    let d = decimal(n as nat);
    assert forall|i: int| 0 <= i < s.len() implies is_ascii_alnum(#[trigger] s[i]) || crate::types::is_special_id_char(s[i]) by {
        if i < prefix.len() {
            assert(s[i] == prefix[i]);
        } else if i == prefix.len() {
            assert(s[i] == '-');
        } else {
            assert(s[i] == d[i - prefix.len() - 1]);
        }
    }
}

/// Every identifier that the handshakes generate parses: `connection-n` as a
/// connection identifier and `channel-n` as a channel identifier, for every
/// counter value `n`.
pub proof fn law_generated_ids_parse(n: u64)
    ensures
        connection_id_parses(numbered_id(connection_prefix(), n as nat)),
        channel_id_parses(numbered_id(channel_prefix(), n as nat)),
{
    lemma_numbered_id_ascii(connection_prefix(), n);
    lemma_numbered_id_ascii(channel_prefix(), n);
}

proof fn lemma_digit_char_injective(a: nat, b: nat)
    requires
        a < 10,
        b < 10,
        digit_char(a) == digit_char(b),
    ensures
        a == b,
{
    assert((48 + a) as char as int == 48 + a);
    assert((48 + b) as char as int == 48 + b);
}

/// Different numbers have different decimal numerals.
pub proof fn lemma_decimal_injective(n: nat, m: nat)
    ensures
        decimal(n) == decimal(m) ==> n == m,
    decreases n,
{
    if decimal(n) == decimal(m) {
        lemma_decimal_nonempty(n);
        lemma_decimal_nonempty(m);
        if n < 10 && m < 10 {
            assert(decimal(n)[0] == decimal(m)[0]);
            lemma_digit_char_injective(n, m);
        } else if n >= 10 && m >= 10 {
            let dn = decimal(n);
            let dm = decimal(m);
            assert(dn.last() == dm.last());
            lemma_digit_char_injective(n % 10, m % 10);
            assert(dn.drop_last() =~= decimal(n / 10));
            assert(dm.drop_last() =~= decimal(m / 10));
            lemma_decimal_injective(n / 10, m / 10);
        }
    }
}

proof fn lemma_numbered_id_injective(prefix: Seq<char>, n: nat, m: nat)
    ensures
        numbered_id(prefix, n) == numbered_id(prefix, m) ==> n == m,
{
    if numbered_id(prefix, n) == numbered_id(prefix, m) {
        let k = prefix.len() + 1;
        assert(numbered_id(prefix, n).subrange(k as int, numbered_id(prefix, n).len() as int) =~= decimal(n));
        assert(numbered_id(prefix, m).subrange(k as int, numbered_id(prefix, m).len() as int) =~= decimal(m));
        lemma_decimal_injective(n, m);
    }
}

/// Connection identifiers generated from different counter values differ, so
/// the connections that the handshake creates never share an identifier.
pub proof fn law_connection_ids_distinct(n: u64, m: u64)
    requires
        n != m,
    ensures
        next_connection_id(n) != next_connection_id(m),
{
    lemma_numbered_id_injective(connection_prefix(), n as nat, m as nat);
}

/// Channel identifiers generated from different counter values differ.
pub proof fn law_channel_ids_distinct(n: u64, m: u64)
    requires
        n != m,
    ensures
        next_channel_id(n) != next_channel_id(m),
{
    lemma_numbered_id_injective(channel_prefix(), n as nat, m as nat);
}

/// A packet is delivered at most once: once received on an ordered or an
/// unordered channel, receiving it again finds it already received.
pub proof fn law_receive_at_most_once(c: ContextView, p: PacketView, client: ClientFacts, host_height: u64, client2: ClientFacts, host_height2: u64)
    requires
        recv_step(c, p, client, host_height) is Proceed,
        c.store.channels[(p.destination_port, p.destination_channel)].ordering != Order::NoOrder,
        c.store.channels[(p.destination_port, p.destination_channel)].ordering == Order::Ordered ==> p.sequence < u64::MAX,
    ensures
        recv_step(
            recv_effect(c, p, c.store.channels[(p.destination_port, p.destination_channel)].ordering),
            p,
            client2,
            host_height2,
        ) == RecvStep::AlreadyReceived,
{
    let chan = c.store.channels[(p.destination_port, p.destination_channel)];
    let d = recv_effect(c, p, chan.ordering);
    assert(d.store.channels == c.store.channels);
    assert(already_received(d, chan, p.destination_port, p.destination_channel, p.sequence) == Ok::<bool, Option<u64>>(true));
}

/// A sent packet's commitment is the one that acknowledging or timing out that
/// same packet checks: those steps never fail on the commitment.
pub proof fn law_sent_commitment_matches(c: ContextView, caller: Seq<char>, p: PacketView, client: ClientFacts, consensus_timestamp: u64, client2: ClientFacts, host_time: u64, host_height: u64, proof_height: Height, next_seq_recv: u64, height: u64)
    requires
        send_step(c, caller, p, client, consensus_timestamp) is Proceed,
    ensures
        !(ack_step(send_effect(c, p, height), p, client2, host_time, host_height) is CommitmentMissing),
        !(ack_step(send_effect(c, p, height), p, client2, host_time, host_height) is CommitmentMismatch),
        !(timeout_step(send_effect(c, p, height), p, proof_height, next_seq_recv, host_time, host_height) is CommitmentMissing),
        !(timeout_step(send_effect(c, p, height), p, proof_height, next_seq_recv, host_time, host_height) is CommitmentMismatch),
{
}

/// Each sequence is sent at most once: after a packet is sent, sending it
/// again fails, as the next sequence to send has moved past it.
pub proof fn law_sequence_sent_once(c: ContextView, caller: Seq<char>, p: PacketView, client: ClientFacts, consensus_timestamp: u64, height: u64)
    requires
        send_step(c, caller, p, client, consensus_timestamp) is Proceed,
        p.sequence < u64::MAX,
    ensures
        send_step(send_effect(c, p, height), caller, p, client, consensus_timestamp) == (SendStep::WrongSequence { next: (p.sequence + 1) as u64 }),
{
}

/// A packet is acknowledged at most once: after an acknowledgement is
/// accepted, acknowledging the same packet again finds no commitment.
pub proof fn law_acknowledged_once(c: ContextView, p: PacketView, client: ClientFacts, host_time: u64, host_height: u64, client2: ClientFacts, host_time2: u64, host_height2: u64)
    requires
        ack_step(c, p, client, host_time, host_height) is Proceed,
        c.store.channels[(p.source_port, p.source_channel)].ordering == Order::Ordered ==> p.sequence < u64::MAX,
    ensures
        ack_step(ack_effect(c, p, c.store.channels[(p.source_port, p.source_channel)].ordering), p, client2, host_time2, host_height2) == AckStep::CommitmentMissing,
{
}

/// The host records the height at which a packet is sent, and the
/// acknowledgement of that packet resets the record to zero.
pub proof fn law_sent_height_recorded(c: ContextView, caller: Seq<char>, p: PacketView, client: ClientFacts, consensus_timestamp: u64, height: u64)
    requires
        send_step(c, caller, p, client, consensus_timestamp) is Proceed,
    ensures
        ({
            let d = send_effect(c, p, height);
            let key = (p.source_port, p.source_channel, p.sequence);
            &&& d.store.packet_receipts.contains_key(key) && d.store.packet_receipts[key] == height
            &&& ack_effect(d, p, d.store.channels[(p.source_port, p.source_channel)].ordering).store.packet_receipts[key] == 0
        }),
{
}

/// A timed-out packet can neither time out again nor be acknowledged: its
/// commitment is gone (and an ordered channel is closed).
pub proof fn law_timeout_final(c: ContextView, p: PacketView, proof_height: Height, next_seq_recv: u64, host_time: u64, host_height: u64, client2: ClientFacts, host_time2: u64, host_height2: u64, proof_height2: Height, next_seq_recv2: u64)
    requires
        timeout_step(c, p, proof_height, next_seq_recv, host_time, host_height) is Proceed,
    ensures
        ({
            let d = timeout_effect(c, p, c.store.channels[(p.source_port, p.source_channel)]);
            &&& !(timeout_step(d, p, proof_height2, next_seq_recv2, host_time2, host_height2) is Proceed)
            &&& !(ack_step(d, p, client2, host_time2, host_height2) is Proceed)
        }),
{
}

/// A connection is acknowledged at most once: once open, its end is no longer
/// in `Init`, and a second acknowledgement is refused.
pub proof fn law_connection_ack_once(c: ContextView, msg: MsgConnectionOpenAck, client: ClientFacts, host_height: u64, version: crate::ibc_types::VersionView)
    requires
        open_ack_step(c, msg, client, host_height) is Proceed,
    ensures
        ({
            let conn = c.store.connections[msg.connection_id@];
            let end = ConnectionEndView {
                state: ConnectionState::Open,
                versions: seq![version],
                counterparty: ConnectionCounterpartyView {
                    client_id: conn.counterparty.client_id,
                    connection_id: Some(msg.counterparty_connection_id@),
                    prefix: conn.counterparty.prefix,
                },
                ..conn
            };
            let d = c.with_store(with_connection_commitment(StoreView {
                connections: c.store.connections.insert(msg.connection_id@, end),
                ..c.store
            }, msg.connection_id@, end));
            open_ack_step(d, msg, client, host_height) == OpenAckStep::NotInit
        }),
{
}

/// A connection is confirmed at most once: once open, its end is no longer in
/// `TryOpen`, and a second confirmation is refused.
pub proof fn law_connection_confirm_once(c: ContextView, msg: MsgConnectionOpenConfirm, client: ClientFacts)
    requires
        open_confirm_step(c, msg, client) is Proceed,
    ensures
        ({
            let end = ConnectionEndView { state: ConnectionState::Open, ..c.store.connections[msg.connection_id@] };
            let d = c.with_store(with_connection_commitment(StoreView {
                connections: c.store.connections.insert(msg.connection_id@, end),
                ..c.store
            }, msg.connection_id@, end));
            open_confirm_step(d, msg, client) == OpenConfirmStep::NotTryOpen
        }),
{
}

/// Every step of the connection handshake leaves, under the connection's
/// path, the Keccak-256 of the protobuf encoding of the end it stored.
pub proof fn law_connection_commitment_tracks_end(s: StoreView, id: Seq<char>, end: ConnectionEndView)
    ensures
        ({
            let t = with_connection_commitment(StoreView { connections: s.connections.insert(id, end), ..s }, id, end);
            &&& t.connections[id] == end
            &&& t.commitments[connection_path_spec(id)] == keccak256_digest(connection_end_encoding(t.connections[id]))
        }),
{
}

/// What is sent can be read back: after a packet is sent, the query of its
/// commitment answers the commitment to that packet, in hexadecimal.
pub proof fn law_sent_commitment_queryable(c: ContextView, caller: Seq<char>, p: PacketView, client: ClientFacts, consensus_timestamp: u64, port_id: String, channel_id: String, height: u64)
    requires
        send_step(c, caller, p, client, consensus_timestamp) is Proceed,
        port_id@ == p.source_port,
        channel_id@ == p.source_channel,
        channel_ids_valid(port_id@, channel_id@),
    ensures
        query_outcome(send_effect(c, p, height), QueryMsg::GetPacketCommitment { port_id, channel_id, sequence: p.sequence })
            == QueryOutcome::Answer(QueryAnswer::Text(hex_text(packet_commitment_spec(p.data, p.timeout_height, p.timeout_timestamp)))),
{
}

/// What is received can be read back: after a packet is received on an
/// unordered channel, the query for its receipt answers yes.
pub proof fn law_received_packet_has_receipt(c: ContextView, p: PacketView, client: ClientFacts, host_height: u64, port_id: String, channel_id: String)
    requires
        recv_step(c, p, client, host_height) is Proceed,
        c.store.channels[(p.destination_port, p.destination_channel)].ordering == Order::Unordered,
        port_id@ == p.destination_port,
        channel_id@ == p.destination_channel,
        channel_ids_valid(port_id@, channel_id@),
    ensures
        query_outcome(recv_effect(c, p, Order::Unordered), QueryMsg::HasPacketReceipt { port_id, channel_id, sequence: p.sequence })
            == QueryOutcome::Answer(QueryAnswer::Flag(true)),
{
    let d = recv_effect(c, p, Order::Unordered);
    assert(d.store.commitments.get(crate::ics24_host::commitment::receipt_path_spec(p.destination_port, p.destination_channel, p.sequence)) == Some(receipt_ok_bytes()));
}

/// What a module acknowledges can be read back: after an acknowledgement is
/// written for a packet, the query of the packet's acknowledgement commitment
/// answers its Keccak-256, in hexadecimal.
pub proof fn law_written_ack_queryable(c: ContextView, p: PacketView, ack: Seq<u8>, port_id: String, channel_id: String)
    requires
        port_id@ == p.destination_port,
        channel_id@ == p.destination_channel,
        channel_ids_valid(port_id@, channel_id@),
    ensures
        ({
            let d = c.with_store(StoreView {
                commitments: c.store.commitments.insert(ack_path_spec(p.destination_port, p.destination_channel, p.sequence), keccak256_digest(ack)),
                ..c.store
            });
            query_outcome(d, QueryMsg::GetPacketAcknowledgementCommitment { port_id, channel_id, sequence: p.sequence })
                == QueryOutcome::Answer(QueryAnswer::Text(hex_text(keccak256_digest(ack))))
        }),
{
}

/// A connection that a handshake step stored can be read back: the query of
/// the connection answers the protobuf encoding of the stored end, in
/// hexadecimal. Every identifier that the handshakes generate parses (see
/// [`law_generated_ids_parse`]).
pub proof fn law_stored_connection_queryable(c: ContextView, id: Seq<char>, end: ConnectionEndView, connection_id: String)
    requires
        connection_id@ == id,
        connection_id_parses(id),
    ensures
        ({
            let d = c.with_store(with_connection_commitment(StoreView { connections: c.store.connections.insert(id, end), ..c.store }, id, end));
            query_outcome(d, QueryMsg::GetConnection { connection_id }) == QueryOutcome::Answer(QueryAnswer::Text(hex_text(connection_end_encoding(end))))
        }),
{
}

/// The handshake steps keep every stored channel end naming a connection:
/// moving an end to another state, or opening a new end, leaves its hops as
/// they were.
pub proof fn law_handshakes_keep_hops(c: ContextView, port: Seq<char>, channel: Seq<char>, state: State)
    requires
        channels_have_hops(c),
        c.store.channels.contains_key((port, channel)),
    ensures
        channels_have_hops(with_channel_state(c, port, channel, state)),
        channels_have_hops(with_new_channel(c, port, channel, state)),
{
    let d = with_channel_state(c, port, channel, state);
    assert forall|k: (Seq<char>, Seq<char>)| #[trigger] d.store.channels.contains_key(k) implies d.store.channels[k].connection_hops.len() > 0 by {
        if k != (port, channel) {
            assert(c.store.channels.contains_key(k));
        }
    }
    let e = with_new_channel(c, port, channel, state);
    assert(e.store.channels == d.store.channels);
}

/// A channel that a module opens, or that answers the counterparty, runs over
/// one connection: storing it keeps every channel end naming a connection.
pub proof fn law_channel_opening_keeps_hops(c: ContextView, port: Seq<char>, chan: ChannelEndView, client: ClientFacts, id: Seq<char>)
    requires
        channels_have_hops(c),
        chan_open_init_step(c, port, chan, client) is Proceed || chan_open_try_step(c, chan, client) is Proceed,
    ensures
        channels_have_hops(c.with_store(StoreView {
            channels: c.store.channels.insert((port, id), ChannelEndView { state: State::Uninitialized, ..chan }),
            ..c.store
        })),
{
    let d = c.with_store(StoreView {
        channels: c.store.channels.insert((port, id), ChannelEndView { state: State::Uninitialized, ..chan }),
        ..c.store
    });
    assert forall|k: (Seq<char>, Seq<char>)| #[trigger] d.store.channels.contains_key(k) implies d.store.channels[k].connection_hops.len() > 0 by {
        if k != (port, id) {
            assert(c.store.channels.contains_key(k));
        }
    }
}

/// Sending, receiving, acknowledging and timing out packets keep every stored
/// channel end naming a connection.
pub proof fn law_packets_keep_hops(c: ContextView, p: PacketView, ordering: Order, height: u64)
    requires
        channels_have_hops(c),
    ensures
        channels_have_hops(send_effect(c, p, height)),
        channels_have_hops(recv_effect(c, p, ordering)),
        channels_have_hops(ack_effect(c, p, ordering)),
        c.store.channels.contains_key((p.source_port, p.source_channel))
            ==> channels_have_hops(timeout_effect(c, p, c.store.channels[(p.source_port, p.source_channel)])),
{
    let key = (p.source_port, p.source_channel);
    if c.store.channels.contains_key(key) {
        let d = timeout_effect(c, p, c.store.channels[key]);
        assert forall|k: (Seq<char>, Seq<char>)| #[trigger] d.store.channels.contains_key(k) implies d.store.channels[k].connection_hops.len() > 0 by {
            if k != key {
                assert(c.store.channels.contains_key(k));
            }
        }
    }
}

/// The connection handshake keeps every connection in `TryOpen` knowing its
/// counterparty's connection: a step stores either an end in another state or
/// one that names the counterparty's connection.
pub proof fn law_connection_steps_keep_counterparties(c: ContextView, d: ContextView, id: Seq<char>, end: ConnectionEndView)
    requires
        try_open_counterparties_known(c),
        d.store.connections == c.store.connections.insert(id, end),
        end.state == ConnectionState::TryOpen ==> end.counterparty.connection_id is Some,
    ensures
        try_open_counterparties_known(d),
{
    assert forall|k: Seq<char>| #[trigger] d.store.connections.contains_key(k) && d.store.connections[k].state == ConnectionState::TryOpen
        implies d.store.connections[k].counterparty.connection_id is Some by {
        if k != id {
            assert(c.store.connections.contains_key(k));
        }
    }
}

/// A claimed capability authenticates its claimant: once `address` is added
/// to the holders of `name`, authentication of `address` for `name` succeeds,
/// and every earlier holder still authenticates.
pub proof fn law_claim_then_authenticate(before: Seq<String>, after: Seq<String>, address: String, holder: Seq<char>)
    requires
        strings_view(after) == strings_view(before).push(address@),
    ensures
        strings_view(after).contains(address@),
        strings_view(before).contains(holder) ==> strings_view(after).contains(holder),
{
    assert(strings_view(after)[strings_view(before).len() as int] == address@);
    if strings_view(before).contains(holder) {
        let i = choose|i: int| 0 <= i < strings_view(before).len() && strings_view(before)[i] == holder;
        assert(strings_view(after)[i] == holder);
    }
}

/// A channel end that a handshake step closed or opened stays in that state
/// for the other ends of the map, and reads back in the new state.
pub proof fn law_channel_state_update(c: ContextView, port: Seq<char>, channel: Seq<char>, state: State, other: (Seq<char>, Seq<char>))
    requires
        c.store.channels.contains_key((port, channel)),
    ensures
        with_channel_state(c, port, channel, state).store.channels[(port, channel)].state == state,
        other != (port, channel) ==> with_channel_state(c, port, channel, state).store.channels.get(other) == c.store.channels.get(other),
{
}

/// A channel state and a channel ordering read back as themselves from their
/// protobuf numbers, and no other number reads as them.
pub proof fn law_channel_numbers_round_trip(s: State, o: Order, n: i32, m: i32)
    ensures
        state_of_number(state_number(s)) == Some(s),
        order_of_number(order_number(o)) == Some(o),
        state_of_number(n) == Some(s) ==> n == state_number(s),
        order_of_number(m) == Some(o) ==> m == order_number(o),
{
}

/// A channel end read from a message is never in the uninitialized state nor
/// unordered, and keeps the message's hops, version and counterparty port.
pub proof fn law_read_channel_is_usable(raw: RawChannelView)
    ensures
        channel_of(Some(raw)) matches Some(c) ==> {
            &&& c.state != State::Uninitialized
            &&& c.ordering != Order::NoOrder
            &&& c.connection_hops == raw.connection_hops
            &&& c.version == raw.version
            &&& raw.counterparty matches Some(cp) && c.remote.port_id == cp.port_id
            &&& state_number(c.state) == raw.state
            &&& order_number(c.ordering) == raw.ordering
        },
{
}

/// The store's namespaces are independent: a write to namespace `k` leaves it
/// holding what was written and every other namespace holding what it held,
/// and the two namespaces have different names, so what is saved through one
/// accessor is never read through another.
pub proof fn law_store_namespaces_independent(s: StoreView, from: StoreView, k: StorageKey, other: StorageKey)
    requires
        other != k,
    ensures
        same_in_namespace(with_namespace(s, from, k), from, k),
        same_in_namespace(with_namespace(s, from, k), s, other),
        storage_key_name(k)@ != storage_key_name(other)@,
{
    law_storage_keys_distinct(k, other);
}

/// A packet without a timeout timestamp (zero) is never refused for its
/// timestamp, whatever the counterparty's consensus time; a packet is refused
/// for its timestamp only when that timestamp is set and the counterparty's
/// (set) consensus time is past it, and such a packet is never sent.
pub proof fn law_send_timestamp_timeout(c: ContextView, caller: Seq<char>, p: PacketView, client: ClientFacts, consensus_timestamp: u64)
    ensures
        p.timeout_timestamp == 0 ==> !(send_step(c, caller, p, client, consensus_timestamp) is TimedOutTimestamp),
        send_step(c, caller, p, client, consensus_timestamp) is TimedOutTimestamp
            ==> p.timeout_timestamp != 0 && consensus_timestamp != 0 && consensus_timestamp > p.timeout_timestamp,
        p.timeout_timestamp != 0 && consensus_timestamp != 0 && consensus_timestamp > p.timeout_timestamp
            ==> !(send_step(c, caller, p, client, consensus_timestamp) is Proceed),
{
}

/// The channel end that an open try asks the light client to find on the
/// counterparty runs over the counterparty's end of the channel's connection:
/// its one hop is the counterparty connection of the stored connection that
/// the proposed channel names, as for the ends that the ack and confirm steps
/// ask for, and never this chain's own hop.
pub proof fn law_open_try_expects_counterparty_hop(c: ContextView, chan: ChannelEndView, client: ClientFacts, port: Seq<char>, v: VerifyChannelState,
    proof_height: Height, proof: Seq<u8>, root: Seq<u8>, path: Seq<u8>, conn: ConnectionEndView, state: State, channel: Seq<char>, version: Seq<char>)
    requires
        chan_open_try_step(c, chan, client) == (ChanOpenTryStep::Proceed { conn }),
        channel_payload_matches(v, proof_height, proof, root, path, expected_init_end(chan, port, conn), conn),
    ensures
        conn == c.store.connections[chan.connection_hops[0]],
        v.expected_counterparty_channel_end@ == channel_end_encoding(ChannelEndView {
            state: State::Init,
            ordering: chan.ordering,
            remote: CounterpartyView { port_id: port, channel_id: None },
            connection_hops: seq![c.store.connections[chan.connection_hops[0]].counterparty.connection_id.unwrap()],
            version: chan.version,
        }),
        expected_init_end(chan, port, conn).connection_hops == expected_remote_end(chan, state, port, channel, conn, version).connection_hops,
{
    assert(expected_init_end(chan, port, conn).connection_hops =~= seq![c.store.connections[chan.connection_hops[0]].counterparty.connection_id.unwrap()]);
}

/// A timeout asks the light client to prove the receipt absent exactly where
/// the counterparty's receive of that packet on an unordered channel writes
/// its receipt: receiving the packet on the counterparty stores its receipt
/// under that path and nowhere else.
pub proof fn law_timeout_checks_the_receipt_path(v: LightClientPacketMessage, p: PacketView, proof_height: Height, proof: Seq<u8>, conn: ConnectionEndView, root: Seq<u8>, d: ContextView)
    requires
        unreceived_payload_matches(v, Order::Unordered, p, proof_height, proof, conn, root),
    ensures
        v matches LightClientPacketMessage::VerifyPacketReceiptAbsence { receipt_path, .. }
            && recv_effect(d, p, Order::Unordered).store.commitments == d.store.commitments.insert(receipt_path@, receipt_ok_bytes()),
{
}

/// On an unordered channel the acknowledgement of a sent packet is not held to
/// any sequence: the next sequence to acknowledge is neither needed nor
/// compared, and acknowledging one packet leaves the checks of the
/// acknowledgement of any other packet of the channel as they were.
pub proof fn law_unordered_ack_ignores_sequence(c: ContextView, p: PacketView, client: ClientFacts, host_time: u64, host_height: u64,
    m: PacketView, client2: ClientFacts, host_time2: u64, host_height2: u64)
    requires
        c.store.channels.contains_key((p.source_port, p.source_channel)),
        c.store.channels[(p.source_port, p.source_channel)].ordering == Order::Unordered,
    ensures
        !(ack_step(c, p, client, host_time, host_height) is NextAckMissing),
        !(ack_step(c, p, client, host_time, host_height) is WrongSequence),
        m.source_port == p.source_port && m.source_channel == p.source_channel && m.sequence != p.sequence
            ==> ack_step(ack_effect(c, p, Order::Unordered), m, client2, host_time2, host_height2) == ack_step(c, m, client2, host_time2, host_height2),
{
    if m.source_port == p.source_port && m.source_channel == p.source_channel && m.sequence != p.sequence {
        lemma_commitment_paths_differ(p.source_port, p.source_channel, p.sequence, m.sequence);
        let d = ack_effect(c, p, Order::Unordered);
        assert(d.store.commitments.remove(packet_commitment_path_spec(p.source_port, p.source_channel, p.sequence)) == d.store.commitments.remove(packet_commitment_path_spec(p.source_port, p.source_channel, p.sequence)));
    }
}

/// Commitment paths of different sequences on one channel differ.
proof fn lemma_commitment_paths_differ(port: Seq<char>, channel: Seq<char>, n: u64, m: u64)
    requires
        n != m,
    ensures
        packet_commitment_path_spec(port, channel, n) != packet_commitment_path_spec(port, channel, m),
{
    let head = "commitments/"@ + port_channel_suffix(port, channel) + "/sequences/"@;
    let a = head + decimal(n as nat);
    let b = head + decimal(m as nat);
    if packet_commitment_path_spec(port, channel, n) == packet_commitment_path_spec(port, channel, m) {
        vstd::utf8::encode_utf8_decode_utf8(a);
        vstd::utf8::encode_utf8_decode_utf8(b);
        assert(a == b);
        assert(a.subrange(head.len() as int, a.len() as int) =~= decimal(n as nat));
        assert(b.subrange(head.len() as int, b.len() as int) =~= decimal(m as nat));
        lemma_decimal_injective(n as nat, m as nat);
    }
}

proof fn lemma_len_field_first(tag: u8, body: Seq<u8>, rest: Seq<u8>)
    ensures
        (len_field(tag, body) + rest).len() > 0,
        (len_field(tag, body) + rest)[0] == tag,
{
}

proof fn lemma_repeated_field_first(tag: u8, bodies: Seq<Seq<u8>>, rest: Seq<u8>)
    requires
        bodies.len() > 0,
    ensures
        (repeated_field(tag, bodies) + rest).len() > 0,
        (repeated_field(tag, bodies) + rest)[0] == tag,
{
    let tail = repeated_field(tag, bodies.drop_first());
    assert(repeated_field(tag, bodies) + rest =~= len_field(tag, bodies[0]) + (tail + rest));
    lemma_len_field_first(tag, bodies[0], tail + rest);
}

proof fn lemma_read_back_strings(ss: Seq<Seq<char>>)
    ensures
        ss.map_values(|f: Seq<char>| encode_utf8(f)).map_values(|f: Seq<u8>| decode_utf8(f)) == ss,
{
    let m = ss.map_values(|f: Seq<char>| encode_utf8(f)).map_values(|f: Seq<u8>| decode_utf8(f));
    assert forall|i: int| 0 <= i < ss.len() implies #[trigger] m[i] == ss[i] by {
        encode_utf8_decode_utf8(ss[i]);
    }
    assert(m =~= ss);
}

proof fn lemma_version_reads_back(v: VersionView)
    ensures
        read_version(version_encoding(v)) == v,
{
    let a = bytes_field(10, encode_utf8(v.identifier));
    let fbs = v.features.map_values(|f: Seq<char>| encode_utf8(f));
    let r = repeated_field(18, fbs);
    let b = a + r;
    assert(version_encoding(v) == b);
    if fbs.len() > 0 {
        lemma_repeated_field_first(18, fbs, Seq::empty());
        assert(r + Seq::<u8>::empty() =~= r);
    } else {
        assert(r =~= Seq::<u8>::empty());
    }
    lemma_read_bytes_field(10, encode_utf8(v.identifier), r);
    assert(b.subrange(a.len() as int, b.len() as int) =~= r);
    lemma_read_repeated_field(18, fbs, Seq::empty());
    assert(r + Seq::<u8>::empty() =~= r);
    encode_utf8_decode_utf8(v.identifier);
    lemma_read_back_strings(v.features);
}

proof fn lemma_counterparty_reads_back(c: crate::ibc_types::ConnectionCounterpartyView)
    requires
        c.connection_id != Some(Seq::<char>::empty()),
    ensures
        read_connection_counterparty(connection_counterparty_encoding(c)) == c,
{
    let text = optional_text(c.connection_id);
    let a = bytes_field(10, encode_utf8(c.client_id));
    let bb = bytes_field(18, encode_utf8(text));
    let p = bytes_field(10, c.prefix);
    let cc = len_field(26, p);
    let s = a + bb + cc;
    assert(connection_counterparty_encoding(c) == s);
    lemma_len_field_first(26, p, Seq::empty());
    assert(cc + Seq::<u8>::empty() =~= cc);
    if encode_utf8(text).len() > 0 {
        lemma_len_field_first(18, encode_utf8(text), cc);
    } else {
        assert(bb + cc =~= cc);
    }
    assert(s =~= a + (bb + cc));
    lemma_read_bytes_field(10, encode_utf8(c.client_id), bb + cc);
    let s1 = s.subrange(a.len() as int, s.len() as int);
    assert(s1 =~= bb + cc);
    lemma_read_bytes_field(18, encode_utf8(text), cc);
    let s2 = s1.subrange(bb.len() as int, s1.len() as int);
    assert(s2 =~= cc);
    lemma_read_len_field(26, p, Seq::empty());
    lemma_read_bytes_field(10, c.prefix, Seq::empty());
    assert(p + Seq::<u8>::empty() =~= p);
    encode_utf8_decode_utf8(c.client_id);
    encode_utf8_decode_utf8(text);
    encode_utf8_decode_utf8(Seq::<char>::empty());
    assert(encode_utf8(Seq::<char>::empty()) =~= Seq::<u8>::empty());
    assert(decode_utf8(Seq::<u8>::empty()) =~= Seq::<char>::empty());
}

/// The connection-end encoding is faithful: reading the bytes of
/// `connection_end_encoding(e)` back as an `ibc.core.connection.v1.ConnectionEnd`
/// gives `e` itself, so the bytes that the host commits to and hands to light
/// clients name every field of the end (a connection without a counterparty
/// connection is written with an empty identifier, so an empty identifier
/// cannot be told from none).
#[verifier::rlimit(100)]
#[verifier::spinoff_prover]
pub proof fn law_connection_end_encoding_reads_back(e: ConnectionEndView)
    requires
        e.counterparty.connection_id != Some(Seq::<char>::empty()),
    ensures
        read_connection_end(crate::ics03_connection::connection::connection_end_encoding(e)) == e,
{
    let f1 = bytes_field(10, encode_utf8(e.client_id));
    let vbs = e.versions.map_values(|v: VersionView| version_encoding(v));
    let f2 = repeated_field(18, vbs);
    let f3 = varint_field(24, connection_state_number(e.state));
    let cpb = connection_counterparty_encoding(e.counterparty);
    let f4 = len_field(34, cpb);
    let f5 = varint_field(40, e.delay_period as nat);
    let t4 = f4 + f5;
    let t3 = f3 + t4;
    let t2 = f2 + t3;
    let s = f1 + t2;
    assert(crate::ics03_connection::connection::connection_end_encoding(e) == s) by {
        assert(crate::ics03_connection::connection::connection_end_encoding(e) =~= s);
    }
    assert(not_next(24, t4) && not_next(18, t3) && not_next(10, t2)) by {
        lemma_len_field_first(34, cpb, f5);
        if connection_state_number(e.state) == 0 {
            assert(t3 =~= t4);
        }
        if vbs.len() > 0 {
            lemma_repeated_field_first(18, vbs, t3);
        } else {
            assert(t2 =~= t3);
        }
    }
    let s1 = s.subrange(f1.len() as int, s.len() as int);
    assert(read_bytes_field(10, s) == (encode_utf8(e.client_id), f1.len()) && s1 == t2) by {
        lemma_read_bytes_field(10, encode_utf8(e.client_id), t2);
        assert(s1 =~= t2);
    }
    let s2 = t2.subrange(f2.len() as int, t2.len() as int);
    assert(read_repeated_field(18, t2) == (vbs, f2.len()) && s2 == t3) by {
        lemma_read_repeated_field(18, vbs, t3);
        assert(s2 =~= t3);
    }
    let s3 = t3.subrange(f3.len() as int, t3.len() as int);
    assert(read_varint_field(24, t3) == (connection_state_number(e.state), f3.len()) && s3 == t4) by {
        lemma_read_varint_field(24, connection_state_number(e.state), t4);
        assert(s3 =~= t4);
    }
    let s4 = t4.subrange(f4.len() as int, t4.len() as int);
    assert(crate::proto::read_bytes_field(34, t4) == (cpb, f4.len()) && s4 == f5) by {
        lemma_read_len_field(34, cpb, f5);
        assert(s4 =~= f5);
    }
    assert(crate::proto::read_varint_field(40, f5) == (e.delay_period as nat, f5.len())) by {
        lemma_read_varint_field(40, e.delay_period as nat, Seq::empty());
        assert(f5 + Seq::<u8>::empty() =~= f5);
    }
    assert(decode_utf8(encode_utf8(e.client_id)) == e.client_id) by {
        encode_utf8_decode_utf8(e.client_id);
    }
    assert(read_connection_counterparty(cpb) == e.counterparty) by {
        lemma_counterparty_reads_back(e.counterparty);
    }
    let read = vbs.map_values(|v: Seq<u8>| read_version(v));
    assert(read == e.versions) by {
        assert forall|i: int| 0 <= i < e.versions.len() implies #[trigger] read[i] == e.versions[i] by {
            lemma_version_reads_back(e.versions[i]);
        }
        assert(read =~= e.versions);
    }
    assert(connection_state_of(connection_state_number(e.state)) == e.state);
}

/// Two connection ends with different counterparty connections are written
/// differently, so a light client asked for one never accepts the other.
pub proof fn law_connection_encodings_tell_counterparties_apart(e1: ConnectionEndView, e2: ConnectionEndView)
    requires
        e1.counterparty.connection_id != Some(Seq::<char>::empty()),
        e2.counterparty.connection_id != Some(Seq::<char>::empty()),
        e1 != e2,
    ensures
        crate::ics03_connection::connection::connection_end_encoding(e1) != crate::ics03_connection::connection::connection_end_encoding(e2),
{
    law_connection_end_encoding_reads_back(e1);
    law_connection_end_encoding_reads_back(e2);
}

proof fn lemma_channel_counterparty_reads_back(c: CounterpartyView)
    requires
        c.channel_id != Some(Seq::<char>::empty()),
    ensures
        read_channel_counterparty(channel_counterparty_encoding(c)) == c,
{
    let text = optional_text(c.channel_id);
    let a = bytes_field(10, encode_utf8(c.port_id));
    let bb = bytes_field(18, encode_utf8(text));
    let s = a + bb;
    if encode_utf8(text).len() > 0 {
        lemma_len_field_first(18, encode_utf8(text), Seq::empty());
        assert(bb + Seq::<u8>::empty() =~= bb);
    }
    lemma_read_bytes_field(10, encode_utf8(c.port_id), bb);
    assert(s.subrange(a.len() as int, s.len() as int) =~= bb);
    lemma_read_bytes_field(18, encode_utf8(text), Seq::empty());
    assert(bb + Seq::<u8>::empty() =~= bb);
    encode_utf8_decode_utf8(c.port_id);
    encode_utf8_decode_utf8(text);
    assert(decode_utf8(Seq::<u8>::empty()) =~= Seq::<char>::empty());
}

/// The fields of a channel end's encoding, one after another.
pub open spec fn channel_fields(e: ChannelEndView) -> (Seq<u8>, Seq<u8>, Seq<u8>, Seq<u8>, Seq<u8>) {
    (
        varint_field(8, state_number(e.state) as nat),
        varint_field(16, order_number(e.ordering) as nat),
        len_field(26, channel_counterparty_encoding(e.remote)),
        repeated_field(34, e.connection_hops.map_values(|h: Seq<char>| encode_utf8(h))),
        bytes_field(42, encode_utf8(e.version)),
    )
}

#[verifier::rlimit(100)]
#[verifier::spinoff_prover]
proof fn lemma_channel_reads(e: ChannelEndView)
    ensures
        ({
            let (f1, f2, f3, f4, f5) = channel_fields(e);
            let s = channel_end_encoding(e);
            let t2 = f2 + f3 + f4 + f5;
            let t3 = f3 + f4 + f5;
            let t4 = f4 + f5;
            &&& read_varint_field(8, s) == (state_number(e.state) as nat, f1.len())
            &&& s.subrange(f1.len() as int, s.len() as int) == t2
            &&& read_varint_field(16, t2) == (order_number(e.ordering) as nat, f2.len())
            &&& t2.subrange(f2.len() as int, t2.len() as int) == t3
            &&& crate::proto::read_bytes_field(26, t3) == (channel_counterparty_encoding(e.remote), f3.len())
            &&& t3.subrange(f3.len() as int, t3.len() as int) == t4
            &&& read_repeated_field(34, t4) == (e.connection_hops.map_values(|h: Seq<char>| encode_utf8(h)), f4.len())
            &&& t4.subrange(f4.len() as int, t4.len() as int) == f5
            &&& crate::proto::read_bytes_field(42, f5) == (encode_utf8(e.version), f5.len())
        }),
{
    let (f1, f2, f3, f4, f5) = channel_fields(e);
    let cpb = channel_counterparty_encoding(e.remote);
    let hbs = e.connection_hops.map_values(|h: Seq<char>| encode_utf8(h));
    let t4 = f4 + f5;
    let t3 = f3 + t4;
    let t2 = f2 + t3;
    let s = f1 + t2;
    assert(channel_end_encoding(e) =~= s);
    assert(f2 + f3 + f4 + f5 =~= t2);
    assert(f3 + f4 + f5 =~= t3);
    assert(not_next(8, t2) && not_next(16, t3) && not_next(34, f5)) by {
        lemma_len_field_first(26, cpb, t4);
        if order_number(e.ordering) == 0 {
            assert(t2 =~= t3);
        }
        if encode_utf8(e.version).len() > 0 {
            lemma_len_field_first(42, encode_utf8(e.version), Seq::empty());
            assert(f5 + Seq::<u8>::empty() =~= f5);
        }
    }
    lemma_read_varint_field(8, state_number(e.state) as nat, t2);
    assert(s.subrange(f1.len() as int, s.len() as int) =~= t2);
    lemma_read_varint_field(16, order_number(e.ordering) as nat, t3);
    assert(t2.subrange(f2.len() as int, t2.len() as int) =~= t3);
    lemma_read_len_field(26, cpb, t4);
    assert(t3.subrange(f3.len() as int, t3.len() as int) =~= t4);
    lemma_read_repeated_field(34, hbs, f5);
    assert(t4.subrange(f4.len() as int, t4.len() as int) =~= f5);
    lemma_read_bytes_field(42, encode_utf8(e.version), Seq::empty());
    assert(f5 + Seq::<u8>::empty() =~= f5);
}

/// The channel-end encoding is faithful: reading the bytes of
/// `channel_end_encoding(e)` back as an `ibc.core.channel.v1.Channel` gives `e`
/// itself, so the channel end that a light client is asked to find names every
/// field of `e`, its connection hops among them (a channel without a
/// counterparty channel is written with an empty identifier, so an empty
/// identifier cannot be told from none).
#[verifier::rlimit(100)]
#[verifier::spinoff_prover]
pub proof fn law_channel_end_encoding_reads_back(e: ChannelEndView)
    requires
        e.remote.channel_id != Some(Seq::<char>::empty()),
    ensures
        read_channel_end(channel_end_encoding(e)) == e,
{
    lemma_channel_reads(e);
    encode_utf8_decode_utf8(e.version);
    lemma_channel_counterparty_reads_back(e.remote);
    lemma_read_back_strings(e.connection_hops);
    assert(crate::ibc_types::state_of_number((state_number(e.state) as nat) as i32) == Some(e.state));
    assert(crate::ibc_types::order_of_number((order_number(e.ordering) as nat) as i32) == Some(e.ordering));
}

/// Two channel ends that differ, in their connection hops or anywhere else,
/// are written differently, so a light client asked for one never accepts
/// the other.
pub proof fn law_channel_encodings_tell_ends_apart(e1: ChannelEndView, e2: ChannelEndView)
    requires
        e1.remote.channel_id != Some(Seq::<char>::empty()),
        e2.remote.channel_id != Some(Seq::<char>::empty()),
        e1 != e2,
    ensures
        channel_end_encoding(e1) != channel_end_encoding(e2),
{
    law_channel_end_encoding_reads_back(e1);
    law_channel_end_encoding_reads_back(e2);
}

/// A receive asks the light client to find, on the sending chain, exactly the
/// commitment that sending the packet there stores: at the path where the send
/// puts it, with the value it puts there.
pub proof fn law_receive_checks_the_sent_commitment(v: VerifyPacketData, msg: MsgRecvPacket, conn: ConnectionEndView, consensus: ConsensusFacts, d: ContextView, height: u64)
    requires
        recv_payload_matches(v, msg, conn, consensus),
    ensures
        send_effect(d, msg.packet@, height).store.commitments == d.store.commitments.insert(v.commitment_path@, v.commitment@),
{
}

/// An acknowledgement asks the light client to find the acknowledgement where
/// the receiving chain writes it: once that chain stores the commitment to an
/// acknowledgement under the path asked for, its query of the acknowledgement
/// of that packet on the receiving channel answers that commitment.
pub proof fn law_ack_checks_where_the_ack_is_written(v: VerifyPacketAcknowledgement, msg: MsgAcknowledgement, conn: ConnectionEndView, consensus: ConsensusFacts,
    d: ContextView, port_id: String, channel_id: String)
    requires
        ack_payload_matches(v, msg, conn, consensus),
        port_id@ == msg.packet@.destination_port,
        channel_id@ == msg.packet@.destination_channel,
        channel_ids_valid(port_id@, channel_id@),
    ensures
        ({
            let e = d.with_store(StoreView { commitments: d.store.commitments.insert(v.ack_path@, keccak256_digest(msg.acknowledgement@)), ..d.store });
            query_outcome(e, QueryMsg::GetPacketAcknowledgementCommitment { port_id, channel_id, sequence: msg.packet.sequence })
                == QueryOutcome::Answer(QueryAnswer::Text(hex_text(keccak256_digest(msg.acknowledgement@))))
        }),
{
}

/// A packet without a timeout height is never refused for its height; a
/// packet is refused for its height only when its timeout height is set and
/// the counterparty's latest height has reached it (a later revision, or the
/// same revision at that height or above), and such a packet is never sent.
pub proof fn law_send_height_timeout(c: ContextView, caller: Seq<char>, p: PacketView, client: ClientFacts, consensus_timestamp: u64)
    ensures
        p.timeout_height == crate::ibc_types::TimeoutHeight::Never ==> !(send_step(c, caller, p, client, consensus_timestamp) is TimedOutHeight),
        send_step(c, caller, p, client, consensus_timestamp) is TimedOutHeight ==> (p.timeout_height matches crate::ibc_types::TimeoutHeight::At(h)
            && (h.revision_number < client.latest_height.revision_number
                || (h.revision_number == client.latest_height.revision_number && h.revision_height <= client.latest_height.revision_height))),
        (p.timeout_height matches crate::ibc_types::TimeoutHeight::At(h)
            && (h.revision_number < client.latest_height.revision_number
                || (h.revision_number == client.latest_height.revision_number && h.revision_height <= client.latest_height.revision_height)))
            ==> !(send_step(c, caller, p, client, consensus_timestamp) is Proceed),
{
}

} // verus!
