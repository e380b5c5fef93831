//! The checks of a channel end whose counterparty answered the opening.
use vstd::prelude::*;

use crate::error::{ChannelError, ContractError};
use crate::ibc_types::{ChannelEnd, State};
use crate::types::ChannelId;

verus! {

/// Fails where the channel end is not in `Init`, or does not run over exactly
/// one connection.
pub fn channel_open_ack_validate(channel_id: &ChannelId, channel: &ChannelEnd) -> (r: Result<(), ContractError>)
    ensures
        channel.state != State::Init ==> r == Err::<(), ContractError>(ContractError::IbcChannelError {
            error: ChannelError::InvalidChannelState { channel_id: *channel_id, state: channel.state },
        }),
        channel.state == State::Init && channel.connection_hops@.len() != 1 ==> r == Err::<(), ContractError>(ContractError::IbcChannelError {
            error: ChannelError::InvalidConnectionHopsLength { expected: 1, actual: channel.connection_hops@.len() as u64 },
        }),
        channel.state == State::Init && channel.connection_hops@.len() == 1 ==> r is Ok,
{
    super::validate_channel::ensure_channel_state(channel_id, channel, State::Init)?;
    super::validate_channel::validate_connection_length(channel)
}

} // verus!
