//! The channel handshake.
pub mod close_confirm;
pub mod close_init;
pub mod open_ack;
pub mod open_confirm;
pub mod open_init;
pub mod open_try;
pub mod submessages;
pub mod validate_channel;

use vstd::prelude::*;

use crate::context::{ContextView, CwIbcCoreContext};
use crate::error::{decode_error, not_found, ChannelError, ClientError, ConnectionError, ContractError};
use crate::ibc_types::{
    order_name, ChannelEnd, ChannelEndView, ConnectionEndView, ConnectionState, Counterparty,
    CounterpartyView, Height, State,
};
use crate::ics04_channel::packet::packet_types::{
    height_text, height_to_string, ClientFacts, ConsensusFacts, VerifyChannelState,
};
use crate::ics04_channel::channel::{channel_end_encoding, encode_channel_end};
use crate::ics24_host::commitment::{channel_path, channel_path_spec};
use crate::state::StoreView;
use crate::validations::ensure_connection_state;
use crate::store::KeyLike;
use crate::types::{channel_prefix, numbered_id, ChannelId, PortId};

verus! {

/// The channel identifier that the counter `n` gives.
pub open spec fn next_channel_id(n: u64) -> Seq<char> {
    numbered_id(channel_prefix(), n as nat)
}

/// The connection `conn` supports the ordering of `chan`: it offers one version
/// and that version lists the ordering.
pub open spec fn ordering_supported(chan: ChannelEndView, conn: ConnectionEndView) -> bool {
    conn.versions.len() == 1 && conn.versions[0].features.contains(order_name(chan.ordering))
}

/// How a channel open init goes.
pub enum ChanOpenInitStep {
    HopsLength,
    ConnectionMissing,
    ClientFrozen,
    VersionLength,
    FeatureNotSupported,
    CounterMissing,
    NoModule,
    ModuleUnauthorized,
    Proceed,
}

pub open spec fn chan_open_init_step(c: ContextView, port: Seq<char>, chan: ChannelEndView, client: ClientFacts) -> ChanOpenInitStep {
    let cap = vstd::utf8::encode_utf8(port);
    if chan.connection_hops.len() != 1 {
        ChanOpenInitStep::HopsLength
    } else if !c.store.connections.contains_key(chan.connection_hops[0]) {
        ChanOpenInitStep::ConnectionMissing
    } else if client.frozen {
        ChanOpenInitStep::ClientFrozen
    } else if c.store.connections[chan.connection_hops[0]].versions.len() != 1 {
        ChanOpenInitStep::VersionLength
    } else if !ordering_supported(chan, c.store.connections[chan.connection_hops[0]]) {
        ChanOpenInitStep::FeatureNotSupported
    } else if c.store.next_channel_sequence is None {
        ChanOpenInitStep::CounterMissing
    } else if !c.store.capabilities.contains_key(cap) {
        ChanOpenInitStep::NoModule
    } else if c.store.capabilities[cap].len() == 0 {
        ChanOpenInitStep::ModuleUnauthorized
    } else {
        ChanOpenInitStep::Proceed
    }
}

/// A channel end handed to its module during the handshake: where it lives
/// and which contract runs the module.
#[derive(Debug)]
pub struct ChannelHandshakeOutcome {
    pub port_id: PortId,
    pub channel_id: ChannelId,
    pub module_address: String,
}

impl CwIbcCoreContext {
    fn first_module(&self, port_id: &PortId) -> (r: Result<String, ContractError>)
        ensures
            ({
                let cap = vstd::utf8::encode_utf8(port_id@);
                if !self@.store.capabilities.contains_key(cap) {
                    r matches Err(e) && decode_error(e, "CapabilityNotFound"@)
                } else if self@.store.capabilities[cap].len() == 0 {
                    r == Err::<String, ContractError>(ContractError::Unauthorized)
                } else {
                    r matches Ok(a) && a@ == self@.store.capabilities[cap][0]@
                }
            }),
    {
        let port_key = crate::encoding::copy_bytes(port_id.as_bytes());
        let holders = self.lookup_modules(&port_key)?;
        proof {
            assert(crate::ibc_types::strings_view(holders@).len() == holders@.len());
            assert(crate::ibc_types::strings_view(self@.store.capabilities[port_key@]).len() == self@.store.capabilities[port_key@].len());
            assert(crate::ibc_types::strings_view(holders@)[0] == holders@[0]@);
        }
        Ok(holders[0].clone())
    }

    /// A module opens a channel on `port_id`: the channel must run over one
    /// existing connection whose client is not frozen and whose single version
    /// supports the channel's ordering, and the port must be bound to a module.
    /// The channel end is stored, uninitialised, under the next channel
    /// identifier until the module accepts it. Nothing changes on failure.
    pub fn validate_channel_open_init(&mut self, port_id: &PortId, channel: ChannelEnd, client: &ClientFacts) -> (r: Result<ChannelHandshakeOutcome, ContractError>)
        ensures
            match chan_open_init_step(old(self)@, port_id@, channel@, *client) {
                ChanOpenInitStep::Proceed => {
                    let n = old(self)@.store.next_channel_sequence.unwrap();
                    let cap = vstd::utf8::encode_utf8(port_id@);
                    &&& r matches Ok(o) && o.port_id@ == port_id@ && o.channel_id@ == next_channel_id(n)
                        && o.module_address@ == old(self)@.store.capabilities[cap][0]@
                    &&& final(self)@ == old(self)@.with_store(StoreView {
                        channels: old(self)@.store.channels.insert((port_id@, next_channel_id(n)), ChannelEndView { state: State::Uninitialized, ..channel@ }),
                        ..old(self)@.store
                    })
                },
                ChanOpenInitStep::HopsLength => final(self)@ == old(self)@ && r == Err::<ChannelHandshakeOutcome, ContractError>(ContractError::IbcChannelError {
                    error: ChannelError::InvalidConnectionHopsLength { expected: 1, actual: channel@.connection_hops.len() as u64 },
                }),
                ChanOpenInitStep::ConnectionMissing => final(self)@ == old(self)@ && (r matches Err(e) && not_found(e, "connection end"@)),
                ChanOpenInitStep::ClientFrozen => final(self)@ == old(self)@ && (r matches Err(ContractError::IbcClientError { error: ClientError::ClientFrozen { client_id } })
                    && client_id@ == old(self)@.store.connections[channel@.connection_hops[0]].client_id),
                ChanOpenInitStep::VersionLength => final(self)@ == old(self)@ && r == Err::<ChannelHandshakeOutcome, ContractError>(ContractError::IbcChannelError { error: ChannelError::InvalidVersionLengthConnection }),
                ChanOpenInitStep::FeatureNotSupported => final(self)@ == old(self)@ && r == Err::<ChannelHandshakeOutcome, ContractError>(ContractError::IbcChannelError { error: ChannelError::ChannelFeatureNotSupportedByConnection }),
                ChanOpenInitStep::CounterMissing => final(self)@ == old(self)@ && (r matches Err(e) && not_found(e, "u64"@)),
                ChanOpenInitStep::NoModule => final(self)@ == old(self)@ && (r matches Err(e) && decode_error(e, "CapabilityNotFound"@)),
                ChanOpenInitStep::ModuleUnauthorized => final(self)@ == old(self)@ && r == Err::<ChannelHandshakeOutcome, ContractError>(ContractError::Unauthorized),
            },
    {
        super::handler::validate_channel::validate_connection_length(&channel)?;
        let connection_end = self.connection_end(&channel.connection_hops[0])?;
        if client.frozen {
            return Err(ContractError::IbcClientError { error: ClientError::ClientFrozen { client_id: connection_end.client_id.duplicate() } });
        }
        open_init::channel_open_init_msg_validate(&channel, &connection_end)?;
        let counter = self.channel_counter()?;
        let src_channel = ChannelId::new(counter);
        let module_address = self.first_module(port_id)?;
        let mut channel_end = channel;
        channel_end.state = State::Uninitialized;
        self.store_channel_end(port_id, &src_channel, channel_end)?;
        Ok(ChannelHandshakeOutcome { port_id: port_id.duplicate(), channel_id: src_channel, module_address })
    }

    fn channel_payload(
        proof_height: &Height,
        prefix: &Vec<u8>,
        proof: &Vec<u8>,
        root: &Vec<u8>,
        path: Vec<u8>,
        expected: ChannelEnd,
        client_id: &crate::types::ClientId,
    ) -> (r: VerifyChannelState)
        ensures
            r.proof_height@ == height_text(*proof_height),
            r.counterparty_prefix@ == prefix@,
            r.proof@ == proof@,
            r.root@ == root@,
            r.counterparty_chan_end_path@ == path@,
            r.expected_counterparty_channel_end@ == channel_end_encoding(expected@),
            r.client_id@ == client_id@,
    {
        VerifyChannelState {
            proof_height: height_to_string(proof_height),
            counterparty_prefix: crate::encoding::copy_bytes(prefix.as_slice()),
            proof: crate::encoding::copy_bytes(proof.as_slice()),
            root: crate::encoding::copy_bytes(root.as_slice()),
            counterparty_chan_end_path: path,
            expected_counterparty_channel_end: encode_channel_end(&expected),
            client_id: String::from_str(client_id.as_str()),
        }
    }
}

/// Whether `v` asks the light client to find `expected` under `path` on the
/// counterparty of `conn`.
pub open spec fn channel_payload_matches(v: VerifyChannelState, proof_height: Height, proof: Seq<u8>, root: Seq<u8>, path: Seq<u8>, expected: ChannelEndView, conn: ConnectionEndView) -> bool {
    &&& v.proof_height@ == height_text(proof_height)
    &&& v.counterparty_prefix@ == conn.counterparty.prefix
    &&& v.proof@ == proof
    &&& v.root@ == root
    &&& v.counterparty_chan_end_path@ == path
    &&& v.expected_counterparty_channel_end@ == channel_end_encoding(expected)
    &&& v.client_id@ == conn.client_id
}

/// How a channel open try goes, before its proof.
pub enum ChanOpenTryStep {
    HopsLength,
    ConnectionMissing,
    ConnectionNotOpen,
    VersionLength,
    FeatureNotSupported,
    CounterMissing,
    CounterpartyConnectionUnknown,
    ClientFrozen,
    Proceed { conn: ConnectionEndView },
}

pub open spec fn chan_open_try_step(c: ContextView, chan: ChannelEndView, client: ClientFacts) -> ChanOpenTryStep {
    if chan.connection_hops.len() != 1 {
        ChanOpenTryStep::HopsLength
    } else if !c.store.connections.contains_key(chan.connection_hops[0]) {
        ChanOpenTryStep::ConnectionMissing
    } else {
        let conn = c.store.connections[chan.connection_hops[0]];
        if conn.state != ConnectionState::Open {
            ChanOpenTryStep::ConnectionNotOpen
        } else if conn.versions.len() != 1 {
            ChanOpenTryStep::VersionLength
        } else if !ordering_supported(chan, conn) {
            ChanOpenTryStep::FeatureNotSupported
        } else if c.store.next_channel_sequence is None {
            ChanOpenTryStep::CounterMissing
        } else if conn.counterparty.connection_id is None {
            ChanOpenTryStep::CounterpartyConnectionUnknown
        } else if client.frozen {
            ChanOpenTryStep::ClientFrozen
        } else {
            ChanOpenTryStep::Proceed { conn }
        }
    }
}

/// Whether an open try whose checks end at `s` has got past the channel
/// counter, the point at which the counterparty's channel identifier is read.
pub open spec fn chan_open_try_reads_remote(s: ChanOpenTryStep) -> bool {
    s is CounterpartyConnectionUnknown || s is ClientFrozen || s is Proceed
}

/// Whether `e` is the error of the failing step `s`.
pub open spec fn chan_open_try_error(s: ChanOpenTryStep, c: ContextView, chan: ChannelEndView, e: ContractError) -> bool {
    match s {
        ChanOpenTryStep::HopsLength => e == ContractError::IbcChannelError { error: ChannelError::InvalidConnectionHopsLength { expected: 1, actual: chan.connection_hops.len() as u64 } },
        ChanOpenTryStep::ConnectionMissing => not_found(e, "connection end"@),
        ChanOpenTryStep::ConnectionNotOpen => e matches ContractError::IbcChannelError { error: ChannelError::ConnectionNotOpen { connection_id } } && connection_id@ == chan.connection_hops[0],
        ChanOpenTryStep::VersionLength => e == ContractError::IbcChannelError { error: ChannelError::InvalidVersionLengthConnection },
        ChanOpenTryStep::FeatureNotSupported => e == ContractError::IbcChannelError { error: ChannelError::ChannelFeatureNotSupportedByConnection },
        ChanOpenTryStep::CounterMissing => not_found(e, "u64"@),
        ChanOpenTryStep::CounterpartyConnectionUnknown => e matches ContractError::IbcChannelError { error: ChannelError::UndefinedConnectionCounterparty { connection_id } } && connection_id@ == chan.connection_hops[0],
        ChanOpenTryStep::ClientFrozen => e matches ContractError::IbcChannelError { error: ChannelError::FrozenClient { client_id } } && client_id@ == c.store.connections[chan.connection_hops[0]].client_id,
        ChanOpenTryStep::Proceed { .. } => false,
    }
}

/// The channel end that the counterparty must hold when this chain answers its
/// opening: in `Init`, pointing at `port` with no channel yet, over the
/// counterparty's connection, with the same ordering and version.
pub open spec fn expected_init_end(chan: ChannelEndView, port: Seq<char>, conn: ConnectionEndView) -> ChannelEndView {
    ChannelEndView {
        state: State::Init,
        ordering: chan.ordering,
        remote: CounterpartyView { port_id: port, channel_id: None },
        connection_hops: seq![conn.counterparty.connection_id.unwrap()],
        version: chan.version,
    }
}

impl CwIbcCoreContext {
    /// Whether an open try of `channel` gets as far as reading the
    /// counterparty's channel identifier (see [`chan_open_try_reads_remote`]).
    pub fn channel_open_try_reads_remote(&self, channel: &ChannelEnd, client: &ClientFacts) -> (r: bool)
        ensures
            r == chan_open_try_reads_remote(chan_open_try_step(self@, channel@, *client)),
    {
        if super::handler::validate_channel::validate_connection_length(channel).is_err() {
            return false;
        }
        let connection_end = match self.connection_end(&channel.connection_hops[0]) {
            Ok(c) => c,
            Err(_) => {
                return false;
            },
        };
        if open_try::channel_open_try_msg_validate(channel, &connection_end).is_err() {
            return false;
        }
        self.store.next_channel_sequence.is_some()
    }

    /// The checks of a channel open try before its proof, and what the light
    /// client must then verify: the counterparty's channel end in `Init`.
    pub fn channel_open_try_proof(&self, port_id: &PortId, channel: &ChannelEnd, proof_init: &Vec<u8>, proof_height: &Height, client: &ClientFacts, consensus: &ConsensusFacts) -> (r: Result<VerifyChannelState, ContractError>)
        requires
            chan_open_try_reads_remote(chan_open_try_step(self@, channel@, *client)) ==> channel.remote.channel_id is Some,
        ensures
            match chan_open_try_step(self@, channel@, *client) {
                ChanOpenTryStep::Proceed { conn } => r matches Ok(v) && channel_payload_matches(v, *proof_height, proof_init@, consensus.root@,
                    channel_path_spec(channel@.remote.port_id, channel@.remote.channel_id.unwrap()), expected_init_end(channel@, port_id@, conn), conn),
                s => r matches Err(e) && chan_open_try_error(s, self@, channel@, e),
            },
    {
        super::handler::validate_channel::validate_connection_length(channel)?;
        let connection_end = self.connection_end(&channel.connection_hops[0])?;
        open_try::channel_open_try_msg_validate(channel, &connection_end)?;
        let _counter = self.channel_counter()?;
        let conn_id_on_a = match &connection_end.counterparty.connection_id {
            Some(c) => c.duplicate(),
            None => {
                return Err(ContractError::IbcChannelError {
                    error: ChannelError::UndefinedConnectionCounterparty { connection_id: channel.connection_hops[0].duplicate() },
                });
            },
        };
        if client.frozen {
            return Err(ContractError::IbcChannelError { error: ChannelError::FrozenClient { client_id: connection_end.client_id.duplicate() } });
        }
        let mut hops: Vec<crate::types::ConnectionId> = Vec::new();
        hops.push(conn_id_on_a);
        let expected = ChannelEnd {
            state: State::Init,
            ordering: channel.ordering,
            remote: Counterparty::new(port_id.duplicate(), None),
            connection_hops: hops,
            version: channel.version.clone(),
        };
        proof {
            assert(expected@.connection_hops =~= seq![connection_end@.counterparty.connection_id.unwrap()]);
        }
        let source_channel = match &channel.remote.channel_id {
            Some(c) => c,
            None => {
                return Err(ContractError::IbcChannelError { error: ChannelError::MissingCounterparty });
            },
        };
        let path = channel_path(&channel.remote.port_id, source_channel);
        Ok(Self::channel_payload(proof_height, &connection_end.counterparty.prefix, proof_init, &consensus.root, path, expected, &connection_end.client_id))
    }

    /// Answers a channel that the counterparty opened on `port_id`: the checks of
    /// [`Self::channel_open_try_proof`], the light client's verdict and the
    /// module bound to the port; the channel end is stored, uninitialised, under
    /// the next channel identifier until the module accepts it. Nothing changes
    /// on failure.
    pub fn validate_channel_open_try(&mut self, port_id: &PortId, channel: ChannelEnd, proof_init: &Vec<u8>, proof_height: &Height, client: &ClientFacts, consensus: &ConsensusFacts, proof_verified: bool) -> (r: Result<ChannelHandshakeOutcome, ContractError>)
        requires
            chan_open_try_reads_remote(chan_open_try_step(old(self)@, channel@, *client)) ==> channel.remote.channel_id is Some,
        ensures
            match chan_open_try_step(old(self)@, channel@, *client) {
                ChanOpenTryStep::Proceed { conn } => {
                    let n = old(self)@.store.next_channel_sequence.unwrap();
                    let cap = vstd::utf8::encode_utf8(port_id@);
                    if !proof_verified {
                        final(self)@ == old(self)@ && (r matches Err(ContractError::LightClientValidationFailed(t)) && t@ == "channel open try"@)
                    } else if !old(self)@.store.capabilities.contains_key(cap) {
                        final(self)@ == old(self)@ && (r matches Err(e) && decode_error(e, "CapabilityNotFound"@))
                    } else if old(self)@.store.capabilities[cap].len() == 0 {
                        final(self)@ == old(self)@ && r == Err::<ChannelHandshakeOutcome, ContractError>(ContractError::Unauthorized)
                    } else {
                        &&& r matches Ok(o) && o.port_id@ == port_id@ && o.channel_id@ == next_channel_id(n)
                            && o.module_address@ == old(self)@.store.capabilities[cap][0]@
                        &&& final(self)@ == old(self)@.with_store(StoreView {
                            channels: old(self)@.store.channels.insert((port_id@, next_channel_id(n)), ChannelEndView { state: State::Uninitialized, ..channel@ }),
                            ..old(self)@.store
                        })
                    }
                },
                s => final(self)@ == old(self)@ && (r matches Err(e) && chan_open_try_error(s, old(self)@, channel@, e)),
            },
    {
        let _payload = self.channel_open_try_proof(port_id, &channel, proof_init, proof_height, client, consensus)?;
        if !proof_verified {
            return Err(ContractError::LightClientValidationFailed(String::from_str("channel open try")));
        }
        let counter = self.channel_counter()?;
        let dest_channel = ChannelId::new(counter);
        let module_address = self.first_module(port_id)?;
        let mut channel_end = channel;
        channel_end.state = State::Uninitialized;
        self.store_channel_end(port_id, &dest_channel, channel_end)?;
        Ok(ChannelHandshakeOutcome { port_id: port_id.duplicate(), channel_id: dest_channel, module_address })
    }
}

/// How a channel open ack goes, before its proof.
pub enum ChanOpenAckStep {
    ChannelMissing,
    NotInit { state: State },
    HopsLength,
    ConnectionMissing,
    ConnectionNotOpen,
    CounterpartyConnectionUnknown,
    ClientFrozen,
    Proceed { chan: ChannelEndView, conn: ConnectionEndView },
}

pub open spec fn chan_open_ack_step(c: ContextView, port: Seq<char>, channel: Seq<char>, client: ClientFacts) -> ChanOpenAckStep {
    if !c.store.channels.contains_key((port, channel)) {
        ChanOpenAckStep::ChannelMissing
    } else {
        let chan = c.store.channels[(port, channel)];
        if chan.state != State::Init {
            ChanOpenAckStep::NotInit { state: chan.state }
        } else if chan.connection_hops.len() != 1 {
            ChanOpenAckStep::HopsLength
        } else if !c.store.connections.contains_key(chan.connection_hops[0]) {
            ChanOpenAckStep::ConnectionMissing
        } else {
            let conn = c.store.connections[chan.connection_hops[0]];
            if conn.state != ConnectionState::Open {
                ChanOpenAckStep::ConnectionNotOpen
            } else if conn.counterparty.connection_id is None {
                ChanOpenAckStep::CounterpartyConnectionUnknown
            } else if client.frozen {
                ChanOpenAckStep::ClientFrozen
            } else {
                ChanOpenAckStep::Proceed { chan, conn }
            }
        }
    }
}

pub open spec fn chan_open_ack_error(s: ChanOpenAckStep, c: ContextView, port: Seq<char>, channel: Seq<char>, e: ContractError) -> bool {
    let chan = c.store.channels[(port, channel)];
    match s {
        ChanOpenAckStep::ChannelMissing => e matches ContractError::IbcChannelError { error: ChannelError::ChannelNotFound { port_id, channel_id } } && port_id@ == port && channel_id@ == channel,
        ChanOpenAckStep::NotInit { state } => e matches ContractError::IbcChannelError { error: ChannelError::InvalidChannelState { channel_id, state: s2 } } && channel_id@ == channel && s2 == state,
        ChanOpenAckStep::HopsLength => e == ContractError::IbcChannelError { error: ChannelError::InvalidConnectionHopsLength { expected: 1, actual: chan.connection_hops.len() as u64 } },
        ChanOpenAckStep::ConnectionMissing => not_found(e, "connection end"@),
        ChanOpenAckStep::ConnectionNotOpen => e matches ContractError::IbcConnectionError { error: ConnectionError::ConnectionMismatch { connection_id } } && connection_id@ == chan.connection_hops[0],
        ChanOpenAckStep::CounterpartyConnectionUnknown => e matches ContractError::IbcChannelError { error: ChannelError::UndefinedConnectionCounterparty { connection_id } } && connection_id@ == chan.connection_hops[0],
        ChanOpenAckStep::ClientFrozen => e matches ContractError::IbcChannelError { error: ChannelError::FrozenClient { client_id } } && client_id@ == c.store.connections[chan.connection_hops[0]].client_id,
        ChanOpenAckStep::Proceed { .. } => false,
    }
}

/// How the confirm steps (open confirm and close confirm) go, before their
/// proof: `closing` selects close confirm, which refuses closed channel ends,
/// where open confirm requires `TryOpen`.
pub enum ChanConfirmStep {
    ChannelMissing,
    RemoteChannelUnknown,
    WrongState { state: State },
    HopsLength,
    ConnectionMissing,
    ConnectionNotOpen,
    CounterpartyConnectionUnknown,
    ClientFrozen,
    Proceed { chan: ChannelEndView, conn: ConnectionEndView },
}

pub open spec fn chan_confirm_step(c: ContextView, port: Seq<char>, channel: Seq<char>, client: ClientFacts, closing: bool) -> ChanConfirmStep {
    if !c.store.channels.contains_key((port, channel)) {
        ChanConfirmStep::ChannelMissing
    } else {
        let chan = c.store.channels[(port, channel)];
        if chan.remote.channel_id is None {
            ChanConfirmStep::RemoteChannelUnknown
        } else if (closing && chan.state == State::Closed) || (!closing && chan.state != State::TryOpen) {
            ChanConfirmStep::WrongState { state: chan.state }
        } else if chan.connection_hops.len() != 1 {
            ChanConfirmStep::HopsLength
        } else if !c.store.connections.contains_key(chan.connection_hops[0]) {
            ChanConfirmStep::ConnectionMissing
        } else {
            let conn = c.store.connections[chan.connection_hops[0]];
            if conn.state != ConnectionState::Open {
                ChanConfirmStep::ConnectionNotOpen
            } else if conn.counterparty.connection_id is None {
                ChanConfirmStep::CounterpartyConnectionUnknown
            } else if client.frozen {
                ChanConfirmStep::ClientFrozen
            } else {
                ChanConfirmStep::Proceed { chan, conn }
            }
        }
    }
}

pub open spec fn chan_confirm_error(s: ChanConfirmStep, c: ContextView, port: Seq<char>, channel: Seq<char>, closing: bool, e: ContractError) -> bool {
    let chan = c.store.channels[(port, channel)];
    match s {
        ChanConfirmStep::ChannelMissing => e matches ContractError::IbcChannelError { error: ChannelError::ChannelNotFound { port_id, channel_id } } && port_id@ == port && channel_id@ == channel,
        ChanConfirmStep::RemoteChannelUnknown => e == ContractError::IbcChannelError { error: ChannelError::InvalidCounterpartyChannelId },
        ChanConfirmStep::WrongState { state } => if closing {
            e matches ContractError::IbcChannelError { error: ChannelError::ChannelClosed { channel_id } } && channel_id@ == channel
        } else {
            e matches ContractError::IbcChannelError { error: ChannelError::InvalidChannelState { channel_id, state: s2 } } && channel_id@ == channel && s2 == state
        },
        ChanConfirmStep::HopsLength => e == ContractError::IbcChannelError { error: ChannelError::InvalidConnectionHopsLength { expected: 1, actual: chan.connection_hops.len() as u64 } },
        ChanConfirmStep::ConnectionMissing => not_found(e, "connection end"@),
        ChanConfirmStep::ConnectionNotOpen => e matches ContractError::IbcConnectionError { error: ConnectionError::ConnectionMismatch { connection_id } } && connection_id@ == chan.connection_hops[0],
        ChanConfirmStep::CounterpartyConnectionUnknown => e matches ContractError::IbcChannelError { error: ChannelError::UndefinedConnectionCounterparty { connection_id } } && connection_id@ == chan.connection_hops[0],
        ChanConfirmStep::ClientFrozen => e matches ContractError::IbcChannelError { error: ChannelError::FrozenClient { client_id } } && client_id@ == c.store.connections[chan.connection_hops[0]].client_id,
        ChanConfirmStep::Proceed { .. } => false,
    }
}

/// The channel end that the counterparty must hold: in `state`, pointing back
/// at `port` / `channel`, over the counterparty's connection, with `version`
/// and the ordering of `chan`.
pub open spec fn expected_remote_end(chan: ChannelEndView, state: State, port: Seq<char>, channel: Seq<char>, conn: ConnectionEndView, version: Seq<char>) -> ChannelEndView {
    ChannelEndView {
        state,
        ordering: chan.ordering,
        remote: CounterpartyView { port_id: port, channel_id: Some(channel) },
        connection_hops: seq![conn.counterparty.connection_id.unwrap()],
        version,
    }
}

/// The module bound to `port`, or the error of looking it up.
pub open spec fn module_lookup(c: ContextView, port: Seq<char>) -> Option<bool> {
    let cap = vstd::utf8::encode_utf8(port);
    if !c.store.capabilities.contains_key(cap) {
        None
    } else {
        Some(c.store.capabilities[cap].len() > 0)
    }
}

/// Whether `r` is what the module lookup of `port` gives, for a handshake step
/// on `port` / `channel` that passed its checks and proofs.
pub open spec fn handshake_outcome_matches(r: Result<ChannelHandshakeOutcome, ContractError>, c: ContextView, port: Seq<char>, channel: Seq<char>) -> bool {
    match module_lookup(c, port) {
        None => r matches Err(e) && decode_error(e, "CapabilityNotFound"@),
        Some(false) => r == Err::<ChannelHandshakeOutcome, ContractError>(ContractError::Unauthorized),
        Some(true) => r matches Ok(o) && o.port_id@ == port && o.channel_id@ == channel
            && o.module_address@ == c.store.capabilities[vstd::utf8::encode_utf8(port)][0]@,
    }
}

impl CwIbcCoreContext {
    /// The checks of a channel open ack before its proof, and what the light
    /// client must then verify: the counterparty's channel end in `TryOpen`.
    pub fn channel_open_ack_proof(&self, port_id: &PortId, channel_id: &ChannelId, counterparty_channel_id: &ChannelId, counterparty_version: &String, proof_try: &Vec<u8>, proof_height: &Height, client: &ClientFacts, consensus: &ConsensusFacts) -> (r: Result<VerifyChannelState, ContractError>)
        requires
            crate::ics04_channel::packet::receive_packet::channels_have_hops(self@),
        ensures
            match chan_open_ack_step(self@, port_id@, channel_id@, *client) {
                ChanOpenAckStep::Proceed { chan, conn } => r matches Ok(v) && channel_payload_matches(v, *proof_height, proof_try@, consensus.root@,
                    channel_path_spec(chan.remote.port_id, counterparty_channel_id@),
                    expected_remote_end(chan, State::TryOpen, port_id@, channel_id@, conn, counterparty_version@), conn),
                s => r matches Err(e) && chan_open_ack_error(s, self@, port_id@, channel_id@, e),
            },
    {
        let channel_end = self.get_channel_end(port_id, channel_id)?;
        open_ack::channel_open_ack_validate(channel_id, &channel_end)?;
        let connection_id = &channel_end.connection_hops[0];
        let connection_end = self.connection_end(connection_id)?;
        ensure_connection_state(connection_id, &connection_end, &ConnectionState::Open)?;
        let cp_conn = match &connection_end.counterparty.connection_id {
            Some(c) => c.duplicate(),
            None => {
                return Err(ContractError::IbcChannelError { error: ChannelError::UndefinedConnectionCounterparty { connection_id: connection_id.duplicate() } });
            },
        };
        if client.frozen {
            return Err(ContractError::IbcChannelError { error: ChannelError::FrozenClient { client_id: connection_end.client_id.duplicate() } });
        }
        let mut hops: Vec<crate::types::ConnectionId> = Vec::new();
        hops.push(cp_conn);
        let expected = ChannelEnd {
            state: State::TryOpen,
            ordering: channel_end.ordering,
            remote: Counterparty::new(port_id.duplicate(), Some(channel_id.duplicate())),
            connection_hops: hops,
            version: counterparty_version.clone(),
        };
        proof {
            assert(expected@.connection_hops =~= seq![connection_end@.counterparty.connection_id.unwrap()]);
        }
        let path = channel_path(&channel_end.remote.port_id, counterparty_channel_id);
        Ok(Self::channel_payload(proof_height, &connection_end.counterparty.prefix, proof_try, &consensus.root, path, expected, &connection_end.client_id))
    }

    /// The counterparty answered a channel that this chain opened: the checks
    /// of [`Self::channel_open_ack_proof`], the light client's verdict and the
    /// module bound to the port; the channel end takes the counterparty's
    /// channel and version (it stays in `Init` until the module agrees).
    /// Nothing changes on failure.
    pub fn validate_channel_open_ack(&mut self, port_id: &PortId, channel_id: &ChannelId, counterparty_channel_id: &ChannelId, counterparty_version: &String, proof_try: &Vec<u8>, proof_height: &Height, client: &ClientFacts, consensus: &ConsensusFacts, proof_verified: bool) -> (r: Result<ChannelHandshakeOutcome, ContractError>)
        requires
            crate::ics04_channel::packet::receive_packet::channels_have_hops(old(self)@),
        ensures
            match chan_open_ack_step(old(self)@, port_id@, channel_id@, *client) {
                ChanOpenAckStep::Proceed { chan, conn } => if !proof_verified {
                    final(self)@ == old(self)@ && (r matches Err(ContractError::LightClientValidationFailed(t)) && t@ == "channel open ack"@)
                } else {
                    &&& handshake_outcome_matches(r, old(self)@, port_id@, channel_id@)
                    &&& final(self)@ == if r is Ok {
                        old(self)@.with_store(StoreView {
                            channels: old(self)@.store.channels.insert((port_id@, channel_id@), ChannelEndView {
                                version: counterparty_version@,
                                remote: CounterpartyView { channel_id: Some(counterparty_channel_id@), ..chan.remote },
                                ..chan
                            }),
                            ..old(self)@.store
                        })
                    } else {
                        old(self)@
                    }
                },
                s => final(self)@ == old(self)@ && (r matches Err(e) && chan_open_ack_error(s, old(self)@, port_id@, channel_id@, e)),
            },
    {
        let _payload = self.channel_open_ack_proof(port_id, channel_id, counterparty_channel_id, counterparty_version, proof_try, proof_height, client, consensus)?;
        if !proof_verified {
            return Err(ContractError::LightClientValidationFailed(String::from_str("channel open ack")));
        }
        let module_address = self.first_module(port_id)?;
        let mut channel_end = self.get_channel_end(port_id, channel_id)?;
        channel_end.version = counterparty_version.clone();
        channel_end.remote.channel_id = Some(counterparty_channel_id.duplicate());
        self.store_channel_end(port_id, channel_id, channel_end)?;
        Ok(ChannelHandshakeOutcome { port_id: port_id.duplicate(), channel_id: channel_id.duplicate(), module_address })
    }

    /// The checks of a confirm step before its proof (`closing` selects close
    /// confirm), and what the light client must then verify: the counterparty's
    /// channel end, open (or closed), pointing back at this channel end.
    pub fn channel_confirm_proof(&self, port_id: &PortId, channel_id: &ChannelId, proof: &Vec<u8>, proof_height: &Height, client: &ClientFacts, consensus: &ConsensusFacts, closing: bool) -> (r: Result<VerifyChannelState, ContractError>)
        requires
            crate::ics04_channel::packet::receive_packet::channels_have_hops(self@),
        ensures
            match chan_confirm_step(self@, port_id@, channel_id@, *client, closing) {
                ChanConfirmStep::Proceed { chan, conn } => r matches Ok(v) && channel_payload_matches(v, *proof_height, proof@, consensus.root@,
                    channel_path_spec(chan.remote.port_id, chan.remote.channel_id.unwrap()),
                    expected_remote_end(chan, if closing { State::Closed } else { State::Open }, port_id@, channel_id@, conn, chan.version), conn),
                s => r matches Err(e) && chan_confirm_error(s, self@, port_id@, channel_id@, closing, e),
            },
    {
        let channel_end = self.get_channel_end(port_id, channel_id)?;
        let src_channel = match &channel_end.remote.channel_id {
            Some(c) => c,
            None => {
                return Err(ContractError::IbcChannelError { error: ChannelError::InvalidCounterpartyChannelId });
            },
        };
        if closing {
            close_confirm::channel_close_confirm_validate(channel_id, &channel_end)?;
        } else {
            open_confirm::channel_open_confirm_validate(channel_id, &channel_end)?;
        }
        let connection_id = &channel_end.connection_hops[0];
        let connection_end = self.connection_end(connection_id)?;
        ensure_connection_state(connection_id, &connection_end, &ConnectionState::Open)?;
        let cp_conn = match &connection_end.counterparty.connection_id {
            Some(c) => c.duplicate(),
            None => {
                return Err(ContractError::IbcChannelError { error: ChannelError::UndefinedConnectionCounterparty { connection_id: connection_id.duplicate() } });
            },
        };
        if client.frozen {
            return Err(ContractError::IbcChannelError { error: ChannelError::FrozenClient { client_id: connection_end.client_id.duplicate() } });
        }
        let mut hops: Vec<crate::types::ConnectionId> = Vec::new();
        hops.push(cp_conn);
        let expected = ChannelEnd {
            state: if closing { State::Closed } else { State::Open },
            ordering: channel_end.ordering,
            remote: Counterparty::new(port_id.duplicate(), Some(channel_id.duplicate())),
            connection_hops: hops,
            version: channel_end.version.clone(),
        };
        proof {
            assert(expected@.connection_hops =~= seq![connection_end@.counterparty.connection_id.unwrap()]);
        }
        let path = channel_path(&channel_end.remote.port_id, src_channel);
        Ok(Self::channel_payload(proof_height, &connection_end.counterparty.prefix, proof, &consensus.root, path, expected, &connection_end.client_id))
    }

    /// The counterparty completed the opening of a channel that this chain
    /// answered: the checks of [`Self::channel_confirm_proof`], the light
    /// client's verdict and the module bound to the port. The channel end opens
    /// once the module agrees; nothing changes here.
    pub fn validate_channel_open_confirm(&self, port_id: &PortId, channel_id: &ChannelId, proof_ack: &Vec<u8>, proof_height: &Height, client: &ClientFacts, consensus: &ConsensusFacts, proof_verified: bool) -> (r: Result<ChannelHandshakeOutcome, ContractError>)
        requires
            crate::ics04_channel::packet::receive_packet::channels_have_hops(self@),
        ensures
            match chan_confirm_step(self@, port_id@, channel_id@, *client, false) {
                ChanConfirmStep::Proceed { .. } => if !proof_verified {
                    r matches Err(ContractError::LightClientValidationFailed(t)) && t@ == "channel open confirm"@
                } else {
                    handshake_outcome_matches(r, self@, port_id@, channel_id@)
                },
                s => r matches Err(e) && chan_confirm_error(s, self@, port_id@, channel_id@, false, e),
            },
    {
        let _payload = self.channel_confirm_proof(port_id, channel_id, proof_ack, proof_height, client, consensus, false)?;
        if !proof_verified {
            return Err(ContractError::LightClientValidationFailed(String::from_str("channel open confirm")));
        }
        let module_address = self.first_module(port_id)?;
        Ok(ChannelHandshakeOutcome { port_id: port_id.duplicate(), channel_id: channel_id.duplicate(), module_address })
    }

    /// The counterparty closed a channel: the checks of
    /// [`Self::channel_confirm_proof`], the light client's verdict and the
    /// module bound to the port. The channel end closes once the module agrees;
    /// nothing changes here.
    pub fn validate_channel_close_confirm(&self, port_id: &PortId, channel_id: &ChannelId, proof_init: &Vec<u8>, proof_height: &Height, client: &ClientFacts, consensus: &ConsensusFacts, proof_verified: bool) -> (r: Result<ChannelHandshakeOutcome, ContractError>)
        requires
            crate::ics04_channel::packet::receive_packet::channels_have_hops(self@),
        ensures
            match chan_confirm_step(self@, port_id@, channel_id@, *client, true) {
                ChanConfirmStep::Proceed { .. } => if !proof_verified {
                    r matches Err(ContractError::LightClientValidationFailed(t)) && t@ == "channel close confirm"@
                } else {
                    handshake_outcome_matches(r, self@, port_id@, channel_id@)
                },
                s => r matches Err(e) && chan_confirm_error(s, self@, port_id@, channel_id@, true, e),
            },
    {
        let _payload = self.channel_confirm_proof(port_id, channel_id, proof_init, proof_height, client, consensus, true)?;
        if !proof_verified {
            return Err(ContractError::LightClientValidationFailed(String::from_str("channel close confirm")));
        }
        let module_address = self.first_module(port_id)?;
        Ok(ChannelHandshakeOutcome { port_id: port_id.duplicate(), channel_id: channel_id.duplicate(), module_address })
    }

    /// A module asks to close a channel end: it must exist, not be closed, run
    /// over one open connection whose client is not frozen, and its port must be
    /// bound to a module. The channel end closes once the module agrees;
    /// nothing changes here.
    pub fn validate_channel_close_init(&self, port_id: &PortId, channel_id: &ChannelId, client: &ClientFacts) -> (r: Result<ChannelHandshakeOutcome, ContractError>)
        ensures
            ({
                let c = self@;
                let key = (port_id@, channel_id@);
                if !c.store.channels.contains_key(key) {
                    r matches Err(ContractError::IbcChannelError { error: ChannelError::ChannelNotFound { port_id: pp, channel_id: cc } }) && pp@ == port_id@ && cc@ == channel_id@
                } else {
                    let chan = c.store.channels[key];
                    if chan.state == State::Closed {
                        r matches Err(ContractError::IbcChannelError { error: ChannelError::InvalidChannelState { channel_id: ch, state } }) && ch@ == channel_id@ && state == State::Closed
                    } else if chan.connection_hops.len() != 1 {
                        r == Err::<ChannelHandshakeOutcome, ContractError>(ContractError::IbcChannelError { error: ChannelError::InvalidConnectionHopsLength { expected: 1, actual: chan.connection_hops.len() as u64 } })
                    } else if !c.store.connections.contains_key(chan.connection_hops[0]) {
                        r matches Err(e) && not_found(e, "connection end"@)
                    } else if client.frozen {
                        r matches Err(ContractError::IbcClientError { error: ClientError::ClientFrozen { client_id } }) && client_id@ == c.store.connections[chan.connection_hops[0]].client_id
                    } else if c.store.connections[chan.connection_hops[0]].state != ConnectionState::Open {
                        r matches Err(ContractError::IbcConnectionError { error: ConnectionError::ConnectionMismatch { connection_id } }) && connection_id@ == chan.connection_hops[0]
                    } else {
                        handshake_outcome_matches(r, c, port_id@, channel_id@)
                    }
                }
            }),
    {
        let channel_end = self.get_channel_end(port_id, channel_id)?;
        close_init::channel_close_init_validate(channel_id, &channel_end)?;
        let connection_id = &channel_end.connection_hops[0];
        let connection_end = self.connection_end(connection_id)?;
        if client.frozen {
            return Err(ContractError::IbcClientError { error: ClientError::ClientFrozen { client_id: connection_end.client_id.duplicate() } });
        }
        ensure_connection_state(connection_id, &connection_end, &ConnectionState::Open)?;
        let module_address = self.first_module(port_id)?;
        Ok(ChannelHandshakeOutcome { port_id: port_id.duplicate(), channel_id: channel_id.duplicate(), module_address })
    }
}

/// The host after a channel end moved to `state`.
pub open spec fn with_channel_state(c: ContextView, port: Seq<char>, channel: Seq<char>, state: State) -> ContextView {
    c.with_store(StoreView {
        channels: c.store.channels.insert((port, channel), ChannelEndView { state, ..c.store.channels[(port, channel)] }),
        ..c.store
    })
}

/// The host after a new channel end moved to `state`: the channel counter
/// goes up by one and the channel's three sequences start at one.
pub open spec fn with_new_channel(c: ContextView, port: Seq<char>, channel: Seq<char>, state: State) -> ContextView {
    let d = with_channel_state(c, port, channel, state);
    d.with_store(StoreView {
        next_channel_sequence: Some((c.store.next_channel_sequence.unwrap() + 1) as u64),
        next_sequence_send: c.store.next_sequence_send.insert((port, channel), 1),
        next_sequence_recv: c.store.next_sequence_recv.insert((port, channel), 1),
        next_sequence_ack: c.store.next_sequence_ack.insert((port, channel), 1),
        ..d.store
    })
}

/// The reply of a module to a handshake step on `port` / `channel`: a failed
/// reply fails with its message; otherwise the channel end must exist.
pub open spec fn reply_prelude_error(c: ContextView, port: Seq<char>, channel: Seq<char>, reply: Result<(), String>, r: Result<(), ContractError>) -> Option<bool> {
    match reply {
        Err(msg) => Some(r matches Err(ContractError::IbcChannelError { error: ChannelError::Other { description } }) && description@ == msg@),
        Ok(()) => if !c.store.channels.contains_key((port, channel)) {
            Some(r matches Err(ContractError::IbcChannelError { error: ChannelError::ChannelNotFound { port_id, channel_id } }) && port_id@ == port && channel_id@ == channel)
        } else {
            None
        },
    }
}

impl CwIbcCoreContext {
    fn new_channel_reply(&mut self, port_id: &PortId, channel_id: &ChannelId, reply: Result<(), String>, state: State) -> (r: Result<(), ContractError>)
        requires
            old(self)@.store.next_channel_sequence matches Some(n) ==> n < u64::MAX,
        ensures
            match reply_prelude_error(old(self)@, port_id@, channel_id@, reply, r) {
                Some(ok) => ok && final(self)@ == old(self)@,
                None => {
                    let chan = old(self)@.store.channels[(port_id@, channel_id@)];
                    if chan.state != State::Uninitialized {
                        final(self)@ == old(self)@ && r == Err::<(), ContractError>(ContractError::IbcChannelError { error: ChannelError::UnknownState { state: 5 } })
                    } else if old(self)@.store.next_channel_sequence is None {
                        final(self)@ == old(self)@ && (r matches Err(e) && not_found(e, "u64"@))
                    } else {
                        r is Ok && final(self)@ == with_new_channel(old(self)@, port_id@, channel_id@, state)
                    }
                },
            },
    {
        if let Err(msg) = reply {
            return Err(ContractError::IbcChannelError { error: ChannelError::Other { description: msg } });
        }
        let mut channel_end = self.get_channel_end(port_id, channel_id)?;
        if channel_end.state != State::Uninitialized {
            return Err(ContractError::IbcChannelError { error: ChannelError::UnknownState { state: 5 } });
        }
        let _counter = self.channel_counter()?;
        channel_end.state = state;
        self.store_channel_end(port_id, channel_id, channel_end)?;
        self.increase_channel_sequence()?;
        self.store_next_sequence_send(port_id, channel_id, 1)?;
        self.store_next_sequence_recv(port_id, channel_id, 1)?;
        self.store_next_sequence_ack(port_id, channel_id, 1)?;
        Ok(())
    }

    fn channel_state_reply(&mut self, port_id: &PortId, channel_id: &ChannelId, reply: Result<(), String>, state: State, required: Option<State>) -> (r: Result<(), ContractError>)
        ensures
            match reply_prelude_error(old(self)@, port_id@, channel_id@, reply, r) {
                Some(ok) => ok && final(self)@ == old(self)@,
                None => {
                    let chan = old(self)@.store.channels[(port_id@, channel_id@)];
                    match required {
                        Some(req) => if chan.state != req {
                            final(self)@ == old(self)@ && (r matches Err(ContractError::IbcChannelError { error: ChannelError::InvalidChannelState { channel_id: ch, state: s2 } }) && ch@ == channel_id@ && s2 == chan.state)
                        } else {
                            r is Ok && final(self)@ == with_channel_state(old(self)@, port_id@, channel_id@, state)
                        },
                        None => r is Ok && final(self)@ == with_channel_state(old(self)@, port_id@, channel_id@, state),
                    }
                },
            },
    {
        if let Err(msg) = reply {
            return Err(ContractError::IbcChannelError { error: ChannelError::Other { description: msg } });
        }
        let mut channel_end = self.get_channel_end(port_id, channel_id)?;
        if let Some(req) = required {
            validate_channel::ensure_channel_state(channel_id, &channel_end, req)?;
        }
        channel_end.state = state;
        self.store_channel_end(port_id, channel_id, channel_end)?;
        Ok(())
    }

    /// The module accepted a channel that it opened: the uninitialised channel
    /// end moves to `Init`, the channel counter goes up by one and the
    /// channel's sequences start at one.
    pub fn execute_channel_open_init(&mut self, port_id: &PortId, channel_id: &ChannelId, reply: Result<(), String>) -> (r: Result<(), ContractError>)
        requires
            old(self)@.store.next_channel_sequence matches Some(n) ==> n < u64::MAX,
        ensures
            match reply_prelude_error(old(self)@, port_id@, channel_id@, reply, r) {
                Some(ok) => ok && final(self)@ == old(self)@,
                None => {
                    let chan = old(self)@.store.channels[(port_id@, channel_id@)];
                    if chan.state != State::Uninitialized {
                        final(self)@ == old(self)@ && r == Err::<(), ContractError>(ContractError::IbcChannelError { error: ChannelError::UnknownState { state: 5 } })
                    } else if old(self)@.store.next_channel_sequence is None {
                        final(self)@ == old(self)@ && (r matches Err(e) && not_found(e, "u64"@))
                    } else {
                        r is Ok && final(self)@ == with_new_channel(old(self)@, port_id@, channel_id@, State::Init)
                    }
                },
            },
    {
        self.new_channel_reply(port_id, channel_id, reply, State::Init)
    }

    /// The module accepted a channel that the counterparty opened: the
    /// uninitialised channel end moves to `TryOpen`, the channel counter goes up
    /// by one and the channel's sequences start at one.
    pub fn execute_channel_open_try(&mut self, port_id: &PortId, channel_id: &ChannelId, reply: Result<(), String>) -> (r: Result<(), ContractError>)
        requires
            old(self)@.store.next_channel_sequence matches Some(n) ==> n < u64::MAX,
        ensures
            match reply_prelude_error(old(self)@, port_id@, channel_id@, reply, r) {
                Some(ok) => ok && final(self)@ == old(self)@,
                None => {
                    let chan = old(self)@.store.channels[(port_id@, channel_id@)];
                    if chan.state != State::Uninitialized {
                        final(self)@ == old(self)@ && r == Err::<(), ContractError>(ContractError::IbcChannelError { error: ChannelError::UnknownState { state: 5 } })
                    } else if old(self)@.store.next_channel_sequence is None {
                        final(self)@ == old(self)@ && (r matches Err(e) && not_found(e, "u64"@))
                    } else {
                        r is Ok && final(self)@ == with_new_channel(old(self)@, port_id@, channel_id@, State::TryOpen)
                    }
                },
            },
    {
        self.new_channel_reply(port_id, channel_id, reply, State::TryOpen)
    }

    /// The module agreed to close its channel: the channel end is closed.
    pub fn execute_channel_close_init(&mut self, port_id: &PortId, channel_id: &ChannelId, reply: Result<(), String>) -> (r: Result<(), ContractError>)
        ensures
            match reply_prelude_error(old(self)@, port_id@, channel_id@, reply, r) {
                Some(ok) => ok && final(self)@ == old(self)@,
                None => r is Ok && final(self)@ == with_channel_state(old(self)@, port_id@, channel_id@, State::Closed),
            },
    {
        self.channel_state_reply(port_id, channel_id, reply, State::Closed, None)
    }

    /// The module agreed to the counterparty's answer: the channel end, which
    /// must be in `Init`, opens.
    pub fn execute_channel_open_ack(&mut self, port_id: &PortId, channel_id: &ChannelId, reply: Result<(), String>) -> (r: Result<(), ContractError>)
        ensures
            match reply_prelude_error(old(self)@, port_id@, channel_id@, reply, r) {
                Some(ok) => ok && final(self)@ == old(self)@,
                None => {
                    let chan = old(self)@.store.channels[(port_id@, channel_id@)];
                    if chan.state != State::Init {
                        final(self)@ == old(self)@ && (r matches Err(ContractError::IbcChannelError { error: ChannelError::InvalidChannelState { channel_id: ch, state: s2 } }) && ch@ == channel_id@ && s2 == chan.state)
                    } else {
                        r is Ok && final(self)@ == with_channel_state(old(self)@, port_id@, channel_id@, State::Open)
                    }
                },
            },
    {
        self.channel_state_reply(port_id, channel_id, reply, State::Open, Some(State::Init))
    }

    /// The module agreed to the counterparty's confirmation: the channel end,
    /// which must be in `TryOpen`, opens.
    pub fn execute_channel_open_confirm(&mut self, port_id: &PortId, channel_id: &ChannelId, reply: Result<(), String>) -> (r: Result<(), ContractError>)
        ensures
            match reply_prelude_error(old(self)@, port_id@, channel_id@, reply, r) {
                Some(ok) => ok && final(self)@ == old(self)@,
                None => {
                    let chan = old(self)@.store.channels[(port_id@, channel_id@)];
                    if chan.state != State::TryOpen {
                        final(self)@ == old(self)@ && (r matches Err(ContractError::IbcChannelError { error: ChannelError::InvalidChannelState { channel_id: ch, state: s2 } }) && ch@ == channel_id@ && s2 == chan.state)
                    } else {
                        r is Ok && final(self)@ == with_channel_state(old(self)@, port_id@, channel_id@, State::Open)
                    }
                },
            },
    {
        self.channel_state_reply(port_id, channel_id, reply, State::Open, Some(State::TryOpen))
    }

    /// The module agreed to the counterparty's closing: the channel end, which
    /// must not be closed yet, is closed.
    pub fn execute_channel_close_confirm(&mut self, port_id: &PortId, channel_id: &ChannelId, reply: Result<(), String>) -> (r: Result<(), ContractError>)
        ensures
            match reply_prelude_error(old(self)@, port_id@, channel_id@, reply, r) {
                Some(ok) => ok && final(self)@ == old(self)@,
                None => {
                    let chan = old(self)@.store.channels[(port_id@, channel_id@)];
                    if chan.state == State::Closed {
                        final(self)@ == old(self)@ && r == Err::<(), ContractError>(ContractError::IbcChannelError { error: ChannelError::ChannelClosed { channel_id: *channel_id } })
                    } else {
                        r is Ok && final(self)@ == with_channel_state(old(self)@, port_id@, channel_id@, State::Closed)
                    }
                },
            },
    {
        if let Err(msg) = reply {
            return Err(ContractError::IbcChannelError { error: ChannelError::Other { description: msg } });
        }
        let mut channel_end = self.get_channel_end(port_id, channel_id)?;
        validate_channel::ensure_channel_not_closed(channel_id, &channel_end)?;
        channel_end.state = State::Closed;
        self.store_channel_end(port_id, channel_id, channel_end)?;
        Ok(())
    }
}

} // verus!
