//! The checks of a channel that the counterparty opened.
use vstd::prelude::*;

use crate::error::{ChannelError, ContractError};
use crate::ibc_types::{order_name, ChannelEnd, ConnectionEnd, ConnectionState};

verus! {

/// The connection must be open and offer exactly one version, which must list
/// the channel's ordering.
pub fn channel_open_try_msg_validate(channel: &ChannelEnd, conn_end_on_b: &ConnectionEnd) -> (r: Result<(), ContractError>)
    requires
        channel.connection_hops@.len() > 0,
    ensures
        conn_end_on_b.state != ConnectionState::Open ==> (r matches Err(ContractError::IbcChannelError { error: ChannelError::ConnectionNotOpen { connection_id } })
            && connection_id@ == channel@.connection_hops[0]),
        conn_end_on_b.state == ConnectionState::Open && conn_end_on_b@.versions.len() != 1
            ==> r == Err::<(), ContractError>(ContractError::IbcChannelError { error: ChannelError::InvalidVersionLengthConnection }),
        conn_end_on_b.state == ConnectionState::Open && conn_end_on_b@.versions.len() == 1 && !conn_end_on_b@.versions[0].features.contains(order_name(channel.ordering))
            ==> r == Err::<(), ContractError>(ContractError::IbcChannelError { error: ChannelError::ChannelFeatureNotSupportedByConnection }),
        conn_end_on_b.state == ConnectionState::Open && conn_end_on_b@.versions.len() == 1 && conn_end_on_b@.versions[0].features.contains(order_name(channel.ordering)) ==> r is Ok,
{
    if conn_end_on_b.state != ConnectionState::Open {
        return Err(ContractError::IbcChannelError {
            error: ChannelError::ConnectionNotOpen { connection_id: crate::store::KeyLike::duplicate(&channel.connection_hops[0]) },
        });
    }
    if conn_end_on_b.versions.len() != 1 {
        return Err(ContractError::IbcChannelError { error: ChannelError::InvalidVersionLengthConnection });
    }
    let feature = String::from_str(channel.ordering.as_str());
    if !conn_end_on_b.versions[0].is_supported_feature(&feature) {
        return Err(ContractError::IbcChannelError { error: ChannelError::ChannelFeatureNotSupportedByConnection });
    }
    Ok(())
}

} // verus!
