//! The checks of a channel end whose counterparty completed the opening.
use vstd::prelude::*;

use crate::error::{ChannelError, ContractError};
use crate::ibc_types::{ChannelEnd, State};
use crate::types::ChannelId;

verus! {

/// Fails where the channel end is not in `TryOpen`, or does not run over
/// exactly one connection.
pub fn channel_open_confirm_validate(channel_id: &ChannelId, chan_end_on_b: &ChannelEnd) -> (r: Result<(), ContractError>)
    ensures
        chan_end_on_b.state != State::TryOpen ==> r == Err::<(), ContractError>(ContractError::IbcChannelError {
            error: ChannelError::InvalidChannelState { channel_id: *channel_id, state: chan_end_on_b.state },
        }),
        chan_end_on_b.state == State::TryOpen && chan_end_on_b.connection_hops@.len() != 1 ==> r == Err::<(), ContractError>(ContractError::IbcChannelError {
            error: ChannelError::InvalidConnectionHopsLength { expected: 1, actual: chan_end_on_b.connection_hops@.len() as u64 },
        }),
        chan_end_on_b.state == State::TryOpen && chan_end_on_b.connection_hops@.len() == 1 ==> r is Ok,
{
    super::validate_channel::ensure_channel_state(channel_id, chan_end_on_b, State::TryOpen)?;
    super::validate_channel::validate_connection_length(chan_end_on_b)
}

} // verus!
