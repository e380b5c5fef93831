//! The checks of a channel that a module opens.
use vstd::prelude::*;

use crate::error::{ChannelError, ContractError};
use crate::ibc_types::{order_name, ChannelEnd, ConnectionEnd};

verus! {

/// The connection must offer exactly one version, and that version must list
/// the channel's ordering.
pub fn channel_open_init_msg_validate(channel: &ChannelEnd, conn_end_on_a: &ConnectionEnd) -> (r: Result<(), ContractError>)
    ensures
        conn_end_on_a@.versions.len() != 1 ==> r == Err::<(), ContractError>(ContractError::IbcChannelError { error: ChannelError::InvalidVersionLengthConnection }),
        conn_end_on_a@.versions.len() == 1 && !conn_end_on_a@.versions[0].features.contains(order_name(channel.ordering))
            ==> r == Err::<(), ContractError>(ContractError::IbcChannelError { error: ChannelError::ChannelFeatureNotSupportedByConnection }),
        conn_end_on_a@.versions.len() == 1 && conn_end_on_a@.versions[0].features.contains(order_name(channel.ordering)) ==> r is Ok,
{
    if conn_end_on_a.versions.len() != 1 {
        return Err(ContractError::IbcChannelError { error: ChannelError::InvalidVersionLengthConnection });
    }
    let feature = String::from_str(channel.ordering.as_str());
    if !conn_end_on_a.versions[0].is_supported_feature(&feature) {
        return Err(ContractError::IbcChannelError { error: ChannelError::ChannelFeatureNotSupportedByConnection });
    }
    Ok(())
}

} // verus!
