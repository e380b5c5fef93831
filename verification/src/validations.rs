//! Checks shared by the connection and channel handlers.
use vstd::prelude::*;

use crate::error::{ConnectionError, ContractError};
use crate::ibc_types::{height_lt, ConnectionEnd, ConnectionState, Height};
use crate::store::KeyLike;
use crate::types::ConnectionId;

verus! {

/// A consensus height is valid when it is not above the host's height.
pub fn ensure_consensus_height_valid(host_height: &Height, consensus_height: &Height) -> (r: Result<(), ContractError>)
    ensures
        r == if height_lt(*host_height, *consensus_height) {
            Err::<(), ContractError>(ContractError::IbcConnectionError {
                error: ConnectionError::InvalidConsensusHeight { target_height: *consensus_height, current_height: *host_height },
            })
        } else {
            Ok::<(), ContractError>(())
        },
{
    if host_height.lt(consensus_height) {
        return Err(ContractError::IbcConnectionError {
            error: ConnectionError::InvalidConsensusHeight { target_height: *consensus_height, current_height: *host_height },
        });
    }
    Ok(())
}

/// The connection `connection_id` must be in `state`.
pub fn ensure_connection_state(connection_id: &ConnectionId, connection: &ConnectionEnd, state: &ConnectionState) -> (r: Result<(), ContractError>)
    ensures
        r == if connection.state == *state {
            Ok::<(), ContractError>(())
        } else {
            Err::<(), ContractError>(ContractError::IbcConnectionError {
                error: ConnectionError::ConnectionMismatch { connection_id: *connection_id },
            })
        },
{
    if connection.state != *state {
        return Err(ContractError::IbcConnectionError { error: ConnectionError::ConnectionMismatch { connection_id: connection_id.duplicate() } });
    }
    Ok(())
}

} // verus!
