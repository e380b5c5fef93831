//! Checks of a channel end shared by the handshake steps.
use vstd::prelude::*;

use crate::error::{ChannelError, ContractError};
use crate::ibc_types::{ChannelEnd, State};
use crate::types::ChannelId;

verus! {

/// Fails exactly when the channel end is closed.
pub fn ensure_channel_not_closed(channel_id: &ChannelId, channel_end: &ChannelEnd) -> (r: Result<(), ContractError>)
    ensures
        channel_end.state == State::Closed ==> r == Err::<(), ContractError>(ContractError::IbcChannelError { error: ChannelError::ChannelClosed { channel_id: *channel_id } }),
        channel_end.state != State::Closed ==> r is Ok,
{
    if channel_end.state == State::Closed {
        return Err(ContractError::IbcChannelError { error: ChannelError::ChannelClosed { channel_id: crate::store::KeyLike::duplicate(channel_id) } });
    }
    Ok(())
}

/// Fails exactly when the channel end is not in `state`.
pub fn ensure_channel_state(channel_id: &ChannelId, channel_end: &ChannelEnd, state: State) -> (r: Result<(), ContractError>)
    ensures
        channel_end.state != state ==> r == Err::<(), ContractError>(ContractError::IbcChannelError {
            error: ChannelError::InvalidChannelState { channel_id: *channel_id, state: channel_end.state },
        }),
        channel_end.state == state ==> r is Ok,
{
    if channel_end.state != state {
        return Err(ContractError::IbcChannelError {
            error: ChannelError::InvalidChannelState { channel_id: crate::store::KeyLike::duplicate(channel_id), state: channel_end.state },
        });
    }
    Ok(())
}

/// Fails exactly when the channel end does not run over exactly one connection.
pub fn validate_connection_length(channel_end: &ChannelEnd) -> (r: Result<(), ContractError>)
    ensures
        channel_end.connection_hops@.len() != 1 ==> r == Err::<(), ContractError>(ContractError::IbcChannelError {
            error: ChannelError::InvalidConnectionHopsLength { expected: 1, actual: channel_end.connection_hops@.len() as u64 },
        }),
        channel_end.connection_hops@.len() == 1 ==> r is Ok,
{
    if channel_end.connection_hops.len() != 1 {
        return Err(ContractError::IbcChannelError {
            error: ChannelError::InvalidConnectionHopsLength { expected: 1, actual: channel_end.connection_hops.len() as u64 },
        });
    }
    Ok(())
}

} // verus!
