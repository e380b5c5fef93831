//! The checks of a channel end whose counterparty closed.
use vstd::prelude::*;

use crate::error::{ChannelError, ContractError};
use crate::ibc_types::{ChannelEnd, State};
use crate::types::ChannelId;

verus! {

/// Fails where the channel end is already closed, or does not run over exactly
/// one connection.
pub fn channel_close_confirm_validate(channel_id: &ChannelId, chan_end_on_b: &ChannelEnd) -> (r: Result<(), ContractError>)
    ensures
        chan_end_on_b.state == State::Closed ==> r == Err::<(), ContractError>(ContractError::IbcChannelError {
            error: ChannelError::ChannelClosed { channel_id: *channel_id },
        }),
        chan_end_on_b.state != State::Closed && chan_end_on_b.connection_hops@.len() != 1 ==> r == Err::<(), ContractError>(ContractError::IbcChannelError {
            error: ChannelError::InvalidConnectionHopsLength { expected: 1, actual: chan_end_on_b.connection_hops@.len() as u64 },
        }),
        chan_end_on_b.state != State::Closed && chan_end_on_b.connection_hops@.len() == 1 ==> r is Ok,
{
    super::validate_channel::ensure_channel_not_closed(channel_id, chan_end_on_b)?;
    super::validate_channel::validate_connection_length(chan_end_on_b)
}

} // verus!
