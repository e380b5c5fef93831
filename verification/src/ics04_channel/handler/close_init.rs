//! The checks of a channel end that its module wants to close.
use vstd::prelude::*;

use crate::error::{ChannelError, ContractError};
use crate::ibc_types::{ChannelEnd, State};
use crate::types::ChannelId;

verus! {

/// Fails where the channel end is already closed, or does not run over exactly
/// one connection.
pub fn channel_close_init_validate(channel_id: &ChannelId, chan_end_on_a: &ChannelEnd) -> (r: Result<(), ContractError>)
    ensures
        chan_end_on_a.state == State::Closed ==> r == Err::<(), ContractError>(ContractError::IbcChannelError {
            error: ChannelError::InvalidChannelState { channel_id: *channel_id, state: chan_end_on_a.state },
        }),
        chan_end_on_a.state != State::Closed && chan_end_on_a.connection_hops@.len() != 1 ==> r == Err::<(), ContractError>(ContractError::IbcChannelError {
            error: ChannelError::InvalidConnectionHopsLength { expected: 1, actual: chan_end_on_a.connection_hops@.len() as u64 },
        }),
        chan_end_on_a.state != State::Closed && chan_end_on_a.connection_hops@.len() == 1 ==> r is Ok,
{
    if chan_end_on_a.state == State::Closed {
        return Err(ContractError::IbcChannelError {
            error: ChannelError::InvalidChannelState { channel_id: crate::store::KeyLike::duplicate(channel_id), state: chan_end_on_a.state },
        });
    }
    super::validate_channel::validate_connection_length(chan_end_on_a)
}

} // verus!
