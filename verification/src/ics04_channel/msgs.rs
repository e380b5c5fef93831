//! Channel handshake messages as relayers encode them, and how the host reads
//! them.
use vstd::prelude::*;

use crate::conversions::{
    channel_error, channel_of, height_error, height_of, raw_channel_view, to_ibc_channel,
    to_ibc_channel_id, to_ibc_height, to_ibc_port_id, RawChannel, RawHeight,
};
use crate::error::{validation_error, ContractError};
use crate::ibc_types::{ChannelEnd, Height};
use crate::types::{ibc_channel_id_valid, ibc_port_id_valid, ChannelId, PortId};

verus! {

/// A channel open init as relayers encode it.
#[derive(Debug)]
pub struct RawMsgChannelOpenInit {
    pub port_id: String,
    pub channel: Option<RawChannel>,
    pub signer: String,
}

/// A channel open try as relayers encode it.
#[derive(Debug)]
pub struct RawMsgChannelOpenTry {
    pub port_id: String,
    pub previous_channel_id: String,
    pub channel: Option<RawChannel>,
    pub counterparty_version: String,
    pub proof_init: Vec<u8>,
    pub proof_height: Option<RawHeight>,
    pub signer: String,
}

/// A channel open ack as relayers encode it.
#[derive(Debug)]
pub struct RawMsgChannelOpenAck {
    pub port_id: String,
    pub channel_id: String,
    pub counterparty_channel_id: String,
    pub counterparty_version: String,
    pub proof_try: Vec<u8>,
    pub proof_height: Option<RawHeight>,
    pub signer: String,
}

/// A channel open confirm as relayers encode it.
#[derive(Debug)]
pub struct RawMsgChannelOpenConfirm {
    pub port_id: String,
    pub channel_id: String,
    pub proof_ack: Vec<u8>,
    pub proof_height: Option<RawHeight>,
    pub signer: String,
}

/// A channel close init as modules encode it.
#[derive(Debug)]
pub struct RawMsgChannelCloseInit {
    pub port_id: String,
    pub channel_id: String,
    pub signer: String,
}

/// A channel close confirm as relayers encode it.
#[derive(Debug)]
pub struct RawMsgChannelCloseConfirm {
    pub port_id: String,
    pub channel_id: String,
    pub proof_init: Vec<u8>,
    pub proof_height: Option<RawHeight>,
    pub signer: String,
}

/// A channel open init once read: the port that opens the channel and the end.
#[derive(Debug)]
pub struct MsgChannelOpenInit {
    pub port_id: PortId,
    pub channel: ChannelEnd,
}

/// A channel open try once read.
#[derive(Debug)]
pub struct MsgChannelOpenTry {
    pub port_id: PortId,
    pub channel: ChannelEnd,
    pub proof_init: Vec<u8>,
    pub proof_height: Height,
}

/// A channel open ack once read.
#[derive(Debug)]
pub struct MsgChannelOpenAck {
    pub port_id: PortId,
    pub channel_id: ChannelId,
    pub counterparty_channel_id: ChannelId,
    pub counterparty_version: String,
    pub proof_try: Vec<u8>,
    pub proof_height: Height,
}

/// A channel open confirm, or a channel close confirm, once read: the end and
/// the proof of the counterparty's end.
#[derive(Debug)]
pub struct MsgChannelConfirm {
    pub port_id: PortId,
    pub channel_id: ChannelId,
    pub proof: Vec<u8>,
    pub proof_height: Height,
}

/// A channel close init once read.
#[derive(Debug)]
pub struct MsgChannelCloseInit {
    pub port_id: PortId,
    pub channel_id: ChannelId,
}

impl MsgChannelOpenInit {
    /// The message that a module sent: its channel end, then its port, must be
    /// accepted.
    pub fn from_raw(raw: RawMsgChannelOpenInit) -> (r: Result<MsgChannelOpenInit, ContractError>)
        ensures
            match channel_of(raw_channel_view(raw.channel)) {
                None => r matches Err(e) && channel_error(raw_channel_view(raw.channel), e),
                Some(c) => if !ibc_port_id_valid(raw.port_id@) {
                    r matches Err(e) && validation_error(e, "invalid port identifier"@)
                } else {
                    r matches Ok(m) && m.channel@ == c && m.port_id@ == raw.port_id@
                },
            },
    {
        let RawMsgChannelOpenInit { port_id, channel, signer: _ } = raw;
        let channel = to_ibc_channel(channel)?;
        let port_id = to_ibc_port_id(port_id.as_str())?;
        Ok(MsgChannelOpenInit { port_id, channel })
    }
}

impl MsgChannelOpenTry {
    /// The message that a relayer sent: its channel end, its port, then its
    /// proof height, must be accepted.
    pub fn from_raw(raw: RawMsgChannelOpenTry) -> (r: Result<MsgChannelOpenTry, ContractError>)
        ensures
            match channel_of(raw_channel_view(raw.channel)) {
                None => r matches Err(e) && channel_error(raw_channel_view(raw.channel), e),
                Some(c) => if !ibc_port_id_valid(raw.port_id@) {
                    r matches Err(e) && validation_error(e, "invalid port identifier"@)
                } else if height_of(raw.proof_height) is None {
                    r == Err::<MsgChannelOpenTry, ContractError>(height_error(raw.proof_height))
                } else {
                    r matches Ok(m) && m.channel@ == c && m.port_id@ == raw.port_id@ && m.proof_init@ == raw.proof_init@
                        && Some(m.proof_height) == height_of(raw.proof_height)
                },
            },
    {
        let RawMsgChannelOpenTry { port_id, previous_channel_id: _, channel, counterparty_version: _, proof_init, proof_height, signer: _ } = raw;
        let channel = to_ibc_channel(channel)?;
        let port_id = to_ibc_port_id(port_id.as_str())?;
        let proof_height = to_ibc_height(proof_height)?;
        Ok(MsgChannelOpenTry { port_id, channel, proof_init, proof_height })
    }
}

impl MsgChannelOpenAck {
    /// The message that a relayer sent: its port, its channel, the
    /// counterparty's channel, then its proof height, must be accepted.
    pub fn from_raw(raw: RawMsgChannelOpenAck) -> (r: Result<MsgChannelOpenAck, ContractError>)
        ensures
            if !ibc_port_id_valid(raw.port_id@) {
                r matches Err(e) && validation_error(e, "invalid port identifier"@)
            } else if !ibc_channel_id_valid(raw.channel_id@) || !ibc_channel_id_valid(raw.counterparty_channel_id@) {
                r matches Err(e) && validation_error(e, "invalid channel identifier"@)
            } else if height_of(raw.proof_height) is None {
                r == Err::<MsgChannelOpenAck, ContractError>(height_error(raw.proof_height))
            } else {
                r matches Ok(m) && m.port_id@ == raw.port_id@ && m.channel_id@ == raw.channel_id@
                    && m.counterparty_channel_id@ == raw.counterparty_channel_id@ && m.counterparty_version@ == raw.counterparty_version@
                    && m.proof_try@ == raw.proof_try@ && Some(m.proof_height) == height_of(raw.proof_height)
            },
    {
        let RawMsgChannelOpenAck { port_id, channel_id, counterparty_channel_id, counterparty_version, proof_try, proof_height, signer: _ } = raw;
        let port_id = to_ibc_port_id(port_id.as_str())?;
        let channel_id = to_ibc_channel_id(channel_id.as_str())?;
        let counterparty_channel_id = to_ibc_channel_id(counterparty_channel_id.as_str())?;
        let proof_height = to_ibc_height(proof_height)?;
        Ok(MsgChannelOpenAck { port_id, channel_id, counterparty_channel_id, counterparty_version, proof_try, proof_height })
    }
}

impl MsgChannelConfirm {
    /// A channel open confirm that a relayer sent: its port, its channel, then
    /// its proof height, must be accepted.
    pub fn from_open_confirm(raw: RawMsgChannelOpenConfirm) -> (r: Result<MsgChannelConfirm, ContractError>)
        ensures
            if !ibc_port_id_valid(raw.port_id@) {
                r matches Err(e) && validation_error(e, "invalid port identifier"@)
            } else if !ibc_channel_id_valid(raw.channel_id@) {
                r matches Err(e) && validation_error(e, "invalid channel identifier"@)
            } else if height_of(raw.proof_height) is None {
                r == Err::<MsgChannelConfirm, ContractError>(height_error(raw.proof_height))
            } else {
                r matches Ok(m) && m.port_id@ == raw.port_id@ && m.channel_id@ == raw.channel_id@ && m.proof@ == raw.proof_ack@
                    && Some(m.proof_height) == height_of(raw.proof_height)
            },
    {
        let RawMsgChannelOpenConfirm { port_id, channel_id, proof_ack, proof_height, signer: _ } = raw;
        let port_id = to_ibc_port_id(port_id.as_str())?;
        let channel_id = to_ibc_channel_id(channel_id.as_str())?;
        let proof_height = to_ibc_height(proof_height)?;
        Ok(MsgChannelConfirm { port_id, channel_id, proof: proof_ack, proof_height })
    }

    /// A channel close confirm that a relayer sent: its port, its channel, then
    /// its proof height, must be accepted.
    pub fn from_close_confirm(raw: RawMsgChannelCloseConfirm) -> (r: Result<MsgChannelConfirm, ContractError>)
        ensures
            if !ibc_port_id_valid(raw.port_id@) {
                r matches Err(e) && validation_error(e, "invalid port identifier"@)
            } else if !ibc_channel_id_valid(raw.channel_id@) {
                r matches Err(e) && validation_error(e, "invalid channel identifier"@)
            } else if height_of(raw.proof_height) is None {
                r == Err::<MsgChannelConfirm, ContractError>(height_error(raw.proof_height))
            } else {
                r matches Ok(m) && m.port_id@ == raw.port_id@ && m.channel_id@ == raw.channel_id@ && m.proof@ == raw.proof_init@
                    && Some(m.proof_height) == height_of(raw.proof_height)
            },
    {
        let RawMsgChannelCloseConfirm { port_id, channel_id, proof_init, proof_height, signer: _ } = raw;
        let port_id = to_ibc_port_id(port_id.as_str())?;
        let channel_id = to_ibc_channel_id(channel_id.as_str())?;
        let proof_height = to_ibc_height(proof_height)?;
        Ok(MsgChannelConfirm { port_id, channel_id, proof: proof_init, proof_height })
    }
}

impl MsgChannelCloseInit {
    /// The message that a module sent: its port, then its channel, must be
    /// accepted.
    pub fn from_raw(raw: RawMsgChannelCloseInit) -> (r: Result<MsgChannelCloseInit, ContractError>)
        ensures
            if !ibc_port_id_valid(raw.port_id@) {
                r matches Err(e) && validation_error(e, "invalid port identifier"@)
            } else if !ibc_channel_id_valid(raw.channel_id@) {
                r matches Err(e) && validation_error(e, "invalid channel identifier"@)
            } else {
                r matches Ok(m) && m.port_id@ == raw.port_id@ && m.channel_id@ == raw.channel_id@
            },
    {
        let RawMsgChannelCloseInit { port_id, channel_id, signer: _ } = raw;
        let port_id = to_ibc_port_id(port_id.as_str())?;
        let channel_id = to_ibc_channel_id(channel_id.as_str())?;
        Ok(MsgChannelCloseInit { port_id, channel_id })
    }
}

} // verus!
